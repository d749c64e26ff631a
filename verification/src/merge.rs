//! The merge operation: apply one overlay — what a single configuration
//! source specified — onto the main configuration value.
//!
//! For every field the overlay sets, the main value's field is
//! overwritten; every absent field leaves the main value untouched.
//! Overlays only add information: no field returns to "unset".

use vstd::prelude::*;
use vstd::pervasive::VecAdditionalExecFns;

use crate::model::{dup_value, tag_of, FieldValue, FieldValueV};
use crate::project::{ProjectedFieldV, ProjectedSchema};
use crate::schema::FieldSpecV;

verus! {

/// The runtime value of a whole schema: one value per field, in field
/// order.
pub struct Config {
    pub values: Vec<FieldValue>,
}

impl View for Config {
    type V = Seq<FieldValueV>;

    open spec fn view(&self) -> Seq<FieldValueV> {
        self.values.deep_view()
    }
}

/// What one configuration source specified: for every field of one
/// overlay projection, either a value or "not set by this source".
pub struct Overlay {
    pub values: Vec<Option<FieldValue>>,
}

impl View for Overlay {
    type V = Seq<Option<FieldValueV>>;

    open spec fn view(&self) -> Seq<Option<FieldValueV>> {
        self.values.deep_view()
    }
}

/// A configuration value is well-formed for a schema when it holds one
/// value per field, of the field's type.
pub open spec fn config_wf(c: Seq<FieldValueV>, fs: Seq<FieldSpecV>) -> bool {
    &&& c.len() == fs.len()
    &&& forall|j: int| 0 <= j < c.len() ==> tag_of(#[trigger] c[j]) == fs[j].ty
}

/// An overlay is well-formed for a projection when it holds one optional
/// value per projected field, each present value of its field's type.
pub open spec fn overlay_wf(o: Seq<Option<FieldValueV>>, ps: Seq<ProjectedFieldV>) -> bool {
    &&& o.len() == ps.len()
    &&& forall|k: int|
        0 <= k < o.len() ==> ((#[trigger] o[k]) matches Some(v) ==> tag_of(v) == ps[k].ty)
}

/// The value that the first `upto` overlay entries set for main field
/// `j`: the last present entry aimed at `j`, if any.
pub open spec fn setter_in(
    ps: Seq<ProjectedFieldV>,
    o: Seq<Option<FieldValueV>>,
    j: int,
    upto: int,
) -> Option<FieldValueV>
    decreases upto,
{
    if upto <= 0 {
        None
    } else if ps[upto - 1].main_index == j && o[upto - 1] is Some {
        o[upto - 1]
    } else {
        setter_in(ps, o, j, upto - 1)
    }
}

/// Apply an overlay: each field the overlay sets takes the overlay's
/// value; every other field keeps its previous value.
pub open spec fn spec_apply(
    ps: Seq<ProjectedFieldV>,
    o: Seq<Option<FieldValueV>>,
    c: Seq<FieldValueV>,
) -> Seq<FieldValueV> {
    Seq::new(
        c.len(),
        |j: int|
            match setter_in(ps, o, j, ps.len() as int) {
                Some(v) => v,
                None => c[j],
            },
    )
}

/// Apply an overlay onto the configuration: for every overlay entry that
/// is present, overwrite the entry's field of the main value; absent
/// entries leave their fields untouched.  The overlay is consumed.
#[verifier::loop_isolation(false)]
pub fn apply_overlay(proj: &ProjectedSchema, ov: Overlay, cfg: &mut Config)
    requires
        ov@.len() == proj@.fields.len(),
        forall|k: int|
            0 <= k < proj@.fields.len() ==> 0 <= (#[trigger] proj@.fields[k]).main_index < old(
                cfg,
            )@.len(),
    ensures
        final(cfg)@ == spec_apply(proj@.fields, ov@, old(cfg)@),
{
    let ghost ps = proj@.fields;
    let ghost o = ov@;
    let ghost c0 = cfg@;
    let mut i: usize = 0;
    while i < proj.fields.len()
        invariant
            i <= proj.fields.len(),
            cfg@.len() == c0.len(),
            forall|j: int|
                0 <= j < c0.len() ==> #[trigger] cfg@[j] == (match setter_in(ps, o, j, i as int) {
                    Some(v) => v,
                    None => c0[j],
                }),
        decreases proj.fields.len() - i,
    {
        proof {
            assert(o[i as int] == ov.values.deep_view()[i as int]);
        }
        match &ov.values[i] {
            Some(v) => {
                let mi = proj.fields[i].main_index;
                proof {
                    assert(proj.fields[i as int]@ == ps[i as int]);
                    assert(ps[i as int].main_index == mi as int);
                    assert(cfg.values.deep_view().len() == cfg.values@.len());
                }
                let ghost before = cfg@;
                cfg.values.set(mi, dup_value(v));
                proof {
                    assert(cfg@ =~= before.update(mi as int, v@));
                    assert(o[i as int] == Some(v@));
                    assert forall|j: int| 0 <= j < c0.len() implies #[trigger] cfg@[j] == (
                    match setter_in(ps, o, j, i as int + 1) {
                        Some(vv) => vv,
                        None => c0[j],
                    }) by {
                        if j == mi as int {
                            assert(setter_in(ps, o, j, i as int + 1) == Some(v@));
                        } else {
                            assert(setter_in(ps, o, j, i as int + 1) == setter_in(
                                ps,
                                o,
                                j,
                                i as int,
                            ));
                        }
                    }
                }
            },
            None => {
                proof {
                    assert forall|j: int| 0 <= j < c0.len() implies setter_in(
                        ps,
                        o,
                        j,
                        i as int + 1,
                    ) == setter_in(ps, o, j, i as int) by {}
                }
            },
        }
        i += 1;
    }
    proof {
        assert(cfg@ =~= spec_apply(ps, o, c0));
    }
}

/// A present setter comes from some overlay entry aimed at the field.
pub proof fn lemma_setter_source(ps: Seq<ProjectedFieldV>, o: Seq<Option<FieldValueV>>, j: int, upto: int)
    requires
        upto <= o.len(),
        o.len() == ps.len(),
    ensures
        setter_in(ps, o, j, upto) matches Some(v) ==> exists|k: int|
            0 <= k < upto && (#[trigger] ps[k]).main_index == j && o[k] == Some(v),
    decreases upto,
{
    if upto > 0 {
        lemma_setter_source(ps, o, j, upto - 1);
        let st = setter_in(ps, o, j, upto);
        if st is Some {
            let v = st->Some_0;
            if ps[upto - 1].main_index == j && o[upto - 1] is Some {
                assert(ps[upto - 1].main_index == j && o[upto - 1] == Some(v));
            } else {
                let k = choose|k: int|
                    0 <= k < upto - 1 && (#[trigger] ps[k]).main_index == j && o[k] == Some(v);
                assert(ps[k].main_index == j && o[k] == Some(v));
            }
        }
    }
}

/// Applying a well-formed overlay preserves the configuration's
/// well-formedness.
pub proof fn lemma_apply_preserves_wf(
    ps: Seq<ProjectedFieldV>,
    fs: Seq<FieldSpecV>,
    o: Seq<Option<FieldValueV>>,
    c: Seq<FieldValueV>,
)
    requires
        config_wf(c, fs),
        overlay_wf(o, ps),
        forall|k: int|
            0 <= k < ps.len() ==> {
                &&& 0 <= (#[trigger] ps[k]).main_index < fs.len()
                &&& ps[k].ty == fs[ps[k].main_index].ty
            },
    ensures
        config_wf(spec_apply(ps, o, c), fs),
{
    let r = spec_apply(ps, o, c);
    assert forall|j: int| 0 <= j < r.len() implies tag_of(#[trigger] r[j]) == fs[j].ty by {
        lemma_setter_source(ps, o, j, ps.len() as int);
        let st = setter_in(ps, o, j, ps.len() as int);
        if st is Some {
            let v = st->Some_0;
            let k = choose|k: int|
                0 <= k < ps.len() && (#[trigger] ps[k]).main_index == j && o[k] == Some(v);
            assert(tag_of(v) == ps[k].ty);
        }
    }
}

/// Idempotence of the merge: applying one overlay twice yields the same
/// configuration as applying it once — present fields are overwritten,
/// not accumulated.
pub proof fn lemma_apply_idempotent(
    ps: Seq<ProjectedFieldV>,
    o: Seq<Option<FieldValueV>>,
    c: Seq<FieldValueV>,
)
    ensures
        spec_apply(ps, o, spec_apply(ps, o, c)) == spec_apply(ps, o, c),
{
    let once = spec_apply(ps, o, c);
    assert(spec_apply(ps, o, once) =~= once);
}

/// When the overlay entries aim at pairwise distinct fields, an entry
/// that is present decides its field's value.
pub proof fn lemma_setter_unique(
    ps: Seq<ProjectedFieldV>,
    o: Seq<Option<FieldValueV>>,
    k: int,
    upto: int,
)
    requires
        o.len() == ps.len(),
        forall|k1: int, k2: int|
            0 <= k1 < k2 < ps.len() ==> (#[trigger] ps[k1]).main_index != (
            #[trigger] ps[k2]).main_index,
        0 <= k < upto <= ps.len(),
        o[k] is Some,
    ensures
        setter_in(ps, o, ps[k].main_index, upto) == o[k],
    decreases upto,
{
    if upto - 1 == k {
        assert(setter_in(ps, o, ps[k].main_index, upto) == o[k]);
    } else {
        assert(ps[upto - 1].main_index != ps[k].main_index);
        lemma_setter_unique(ps, o, k, upto - 1);
    }
}

/// The value of a field that an overlay sets is the overlay's value,
/// whatever the configuration held before.
pub proof fn lemma_overlay_overrides(
    ps: Seq<ProjectedFieldV>,
    o: Seq<Option<FieldValueV>>,
    c: Seq<FieldValueV>,
    k: int,
)
    requires
        o.len() == ps.len(),
        forall|k1: int, k2: int|
            0 <= k1 < k2 < ps.len() ==> (#[trigger] ps[k1]).main_index != (
            #[trigger] ps[k2]).main_index,
        0 <= k < ps.len(),
        0 <= ps[k].main_index < c.len(),
        o[k] is Some,
    ensures
        spec_apply(ps, o, c)[ps[k].main_index] == o[k]->Some_0,
{
    lemma_setter_unique(ps, o, k, ps.len() as int);
}

/// Order sensitivity: when two overlays both set one field, the value
/// after applying them in order is the second overlay's value, whatever
/// the first one set.
pub proof fn lemma_later_overlay_wins(
    ps: Seq<ProjectedFieldV>,
    o1: Seq<Option<FieldValueV>>,
    o2: Seq<Option<FieldValueV>>,
    c: Seq<FieldValueV>,
    k: int,
)
    requires
        o1.len() == ps.len(),
        o2.len() == ps.len(),
        forall|k1: int, k2: int|
            0 <= k1 < k2 < ps.len() ==> (#[trigger] ps[k1]).main_index != (
            #[trigger] ps[k2]).main_index,
        0 <= k < ps.len(),
        0 <= ps[k].main_index < c.len(),
        o2[k] is Some,
    ensures
        spec_apply(ps, o2, spec_apply(ps, o1, c))[ps[k].main_index] == o2[k]->Some_0,
{
    lemma_overlay_overrides(ps, o2, spec_apply(ps, o1, c), k);
}

/// Partial overlays: a field that an overlay does not set keeps its
/// previous value.
pub proof fn lemma_partial_overlay(
    ps: Seq<ProjectedFieldV>,
    o: Seq<Option<FieldValueV>>,
    c: Seq<FieldValueV>,
    j: int,
)
    requires
        o.len() == ps.len(),
        forall|k: int|
            0 <= k < ps.len() && (#[trigger] ps[k]).main_index == j ==> o[k] is None,
        0 <= j < c.len(),
    ensures
        spec_apply(ps, o, c)[j] == c[j],
{
    lemma_setter_none(ps, o, j, ps.len() as int);
}

/// No overlay entry aimed at field `j` is present, so no setter exists.
pub proof fn lemma_setter_none(ps: Seq<ProjectedFieldV>, o: Seq<Option<FieldValueV>>, j: int, upto: int)
    requires
        upto <= ps.len(),
        o.len() == ps.len(),
        forall|k: int| 0 <= k < ps.len() && (#[trigger] ps[k]).main_index == j ==> o[k] is None,
    ensures
        setter_in(ps, o, j, upto) is None,
    decreases upto,
{
    if upto > 0 {
        lemma_setter_none(ps, o, j, upto - 1);
    }
}

} // verus!
