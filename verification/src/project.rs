//! The schema projector: derive, from the full field list, the schema of
//! one destination — the main value, the file overlay or the command-line
//! overlay.
//!
//! A projection selects the fields that participate in its destination,
//! marks each selected field's type as optional (for overlay destinations,
//! so that "unset" is representable), and attaches that destination's
//! decorations together with the documentation the destination requests.
//! Field order preserves declaration order.  The projection is a pure
//! function of the schema model: its result is fixed by `spec_project`.

use vstd::prelude::*;

use crate::directives::{copy_directives, RawDirective, RawDirectiveV};
use crate::model::{copy_strings, TypeTag};
use crate::schema::{FieldSpecV, SchemaSpec, SchemaSpecV};
use vstd::string::StringExecFns;

verus! {

/// A projection destination.
#[derive(Clone, Copy, PartialEq, Eq, Structural, Debug)]
pub enum Dest {
    /// The main value: every field, with its configured type.
    Main,
    /// The file overlay: fields a configuration file may set.
    File,
    /// The command-line overlay: fields the command line may set.
    Cli,
}

/// One field of a projected schema.
pub struct ProjectedField {
    /// Position of the field in the full schema's field list.
    pub main_index: usize,
    /// Field name, as in the full schema.
    pub name: String,
    /// Semantic type of the field's value.
    pub ty: TypeTag,
    /// The field's type is wrapped in an optional: absent means "not set
    /// by this source".
    pub optional: bool,
    /// Exposure marker, copied verbatim.
    pub public: bool,
    /// One-letter command-line flag (command-line destination only).
    pub short: Option<char>,
    /// The command line must supply this field (command-line destination
    /// only).
    pub mandatory: bool,
    /// Decorations of this destination, in order.
    pub decorations: Vec<String>,
    /// Documentation, where the destination requests it.
    pub doc: Vec<String>,
    /// Pass-through directives (main destination only).
    pub other: Vec<RawDirective>,
}

/// Mathematical model of a `ProjectedField`.
#[verifier::ext_equal]
pub struct ProjectedFieldV {
    pub main_index: int,
    pub name: Seq<char>,
    pub ty: TypeTag,
    pub optional: bool,
    pub public: bool,
    pub short: Option<char>,
    pub mandatory: bool,
    pub decorations: Seq<Seq<char>>,
    pub doc: Seq<Seq<char>>,
    pub other: Seq<RawDirectiveV>,
}

impl View for ProjectedField {
    type V = ProjectedFieldV;

    open spec fn view(&self) -> ProjectedFieldV {
        ProjectedFieldV {
            main_index: self.main_index as int,
            name: self.name@,
            ty: self.ty,
            optional: self.optional,
            public: self.public,
            short: self.short,
            mandatory: self.mandatory,
            decorations: self.decorations.deep_view(),
            doc: self.doc.deep_view(),
            other: self.other.deep_view(),
        }
    }
}

impl DeepView for ProjectedField {
    type V = ProjectedFieldV;

    open spec fn deep_view(&self) -> ProjectedFieldV {
        self@
    }
}

/// A schema projected for one destination.
pub struct ProjectedSchema {
    /// The destination this projection serves.
    pub dest: Dest,
    /// Name of the projected entity: the destination's prefix, then the
    /// entity name.
    pub name: String,
    /// Exposure marker, copied verbatim.
    pub public: bool,
    /// Entity-level documentation, where the destination requests it.
    pub doc: Vec<String>,
    /// Entity-level decorations of this destination.
    pub decorations: Vec<String>,
    /// Entity-level pass-through directives (main destination only).
    pub other: Vec<RawDirective>,
    /// The selected fields, in declaration order.
    pub fields: Vec<ProjectedField>,
}

/// Mathematical model of a `ProjectedSchema`.
#[verifier::ext_equal]
pub struct ProjectedSchemaV {
    pub dest: Dest,
    pub name: Seq<char>,
    pub public: bool,
    pub doc: Seq<Seq<char>>,
    pub decorations: Seq<Seq<char>>,
    pub other: Seq<RawDirectiveV>,
    pub fields: Seq<ProjectedFieldV>,
}

impl View for ProjectedSchema {
    type V = ProjectedSchemaV;

    open spec fn view(&self) -> ProjectedSchemaV {
        ProjectedSchemaV {
            dest: self.dest,
            name: self.name@,
            public: self.public,
            doc: self.doc.deep_view(),
            decorations: self.decorations.deep_view(),
            other: self.other.deep_view(),
            fields: self.fields.deep_view(),
        }
    }
}

/// The name prefix of a destination.
pub open spec fn dest_prefix(dest: Dest) -> Seq<char> {
    match dest {
        Dest::Main => ""@,
        Dest::File => "File"@,
        Dest::Cli => "Cli"@,
    }
}

/// Whether a field participates in a destination.
pub open spec fn selected(f: FieldSpecV, dest: Dest) -> bool {
    match dest {
        Dest::Main => true,
        Dest::File => f.file_participates,
        Dest::Cli => f.cli_participates,
    }
}

/// Project one field, standing at position `i` of the full schema, for a
/// destination.
pub open spec fn project_field(f: FieldSpecV, i: int, dest: Dest) -> ProjectedFieldV {
    ProjectedFieldV {
        main_index: i,
        name: f.name,
        ty: f.ty,
        optional: dest != Dest::Main,
        public: f.public,
        short: if dest == Dest::Cli {
            f.short
        } else {
            None
        },
        mandatory: dest == Dest::Cli && f.mandatory,
        decorations: match dest {
            Dest::Main => Seq::empty(),
            Dest::File => f.file_decorations,
            Dest::Cli => f.cli_decorations,
        },
        doc: match dest {
            Dest::Main => f.doc,
            Dest::File => Seq::empty(),
            Dest::Cli => f.doc,
        },
        other: if dest == Dest::Main {
            f.other
        } else {
            Seq::empty()
        },
    }
}

/// The projected fields of the first `n` fields of the schema.
pub open spec fn proj_fields_prefix(fs: Seq<FieldSpecV>, dest: Dest, n: int) -> Seq<
    ProjectedFieldV,
>
    decreases n,
{
    if n <= 0 {
        Seq::empty()
    } else {
        let rest = proj_fields_prefix(fs, dest, n - 1);
        if selected(fs[n - 1], dest) {
            rest.push(project_field(fs[n - 1], n - 1, dest))
        } else {
            rest
        }
    }
}

/// The projected fields of a schema: the participating fields, in
/// declaration order, each remembering its position in the full schema.
pub open spec fn proj_fields(fs: Seq<FieldSpecV>, dest: Dest) -> Seq<ProjectedFieldV> {
    proj_fields_prefix(fs, dest, fs.len() as int)
}

/// Project a schema for a destination.
///
/// The main destination keeps every field with its configured type and
/// receives the pass-through directives and the documentation; the file
/// destination keeps the file-participating fields, optional-wrapped, with
/// the file decorations and no documentation; the command-line destination
/// keeps the command-line-participating fields, optional-wrapped, with the
/// command-line decorations and the documentation.
pub open spec fn spec_project(s: SchemaSpecV, dest: Dest) -> ProjectedSchemaV {
    ProjectedSchemaV {
        dest,
        name: dest_prefix(dest) + s.name,
        public: s.public,
        doc: match dest {
            Dest::Main => s.doc,
            Dest::File => Seq::empty(),
            Dest::Cli => s.doc,
        },
        decorations: match dest {
            Dest::Main => Seq::empty(),
            Dest::File => s.file_decorations,
            Dest::Cli => s.cli_decorations,
        },
        other: if dest == Dest::Main {
            s.other
        } else {
            Seq::empty()
        },
        fields: proj_fields(s.fields, dest),
    }
}

/// How a projection's fields relate to the first `n` fields of the full
/// schema: every projected field points below `n`, carries its field's
/// name, type and command-line markers, was selected for the destination,
/// and projected fields appear in strictly increasing schema order.
/// (That the projection misses no selected field is not stated here; it
/// follows from a projection being exactly `spec_project`.)
pub open spec fn proj_fields_wf_upto(
    ps: Seq<ProjectedFieldV>,
    fs: Seq<FieldSpecV>,
    dest: Dest,
    n: int,
) -> bool {
    &&& forall|k: int|
        0 <= k < ps.len() ==> {
            &&& 0 <= (#[trigger] ps[k]).main_index < n
            &&& selected(fs[ps[k].main_index], dest)
            &&& ps[k].name == fs[ps[k].main_index].name
            &&& ps[k].ty == fs[ps[k].main_index].ty
            &&& ps[k].short == (if dest == Dest::Cli {
                fs[ps[k].main_index].short
            } else {
                None
            })
            &&& ps[k].mandatory == (dest == Dest::Cli && fs[ps[k].main_index].mandatory)
        }
    &&& forall|k1: int, k2: int|
        0 <= k1 < k2 < ps.len() ==> (#[trigger] ps[k1]).main_index < (#[trigger] ps[k2]).main_index
}

/// How a projection's fields relate to the full schema.
pub open spec fn proj_fields_wf(ps: Seq<ProjectedFieldV>, fs: Seq<FieldSpecV>, dest: Dest) -> bool {
    proj_fields_wf_upto(ps, fs, dest, fs.len() as int)
}

/// The projected field list of a prefix is valid with respect to that
/// prefix.
#[verifier::rlimit(50)]
pub proof fn lemma_proj_fields_prefix_wf(fs: Seq<FieldSpecV>, dest: Dest, n: int)
    requires
        0 <= n <= fs.len(),
    ensures
        proj_fields_wf_upto(proj_fields_prefix(fs, dest, n), fs, dest, n),
    decreases n,
{
    if n > 0 {
        lemma_proj_fields_prefix_wf(fs, dest, n - 1);
        let rest = proj_fields_prefix(fs, dest, n - 1);
        let ps = proj_fields_prefix(fs, dest, n);
        if selected(fs[n - 1], dest) {
            assert(ps == rest.push(project_field(fs[n - 1], n - 1, dest)));
            assert forall|k: int| 0 <= k < ps.len() implies {
                &&& 0 <= (#[trigger] ps[k]).main_index < n
                &&& selected(fs[ps[k].main_index], dest)
                &&& ps[k].name == fs[ps[k].main_index].name
                &&& ps[k].ty == fs[ps[k].main_index].ty
                &&& ps[k].short == (if dest == Dest::Cli {
                    fs[ps[k].main_index].short
                } else {
                    None
                })
                &&& ps[k].mandatory == (dest == Dest::Cli && fs[ps[k].main_index].mandatory)
            } by {
                if k < rest.len() {
                    assert(ps[k] == rest[k]);
                } else {
                    assert(ps[k] == project_field(fs[n - 1], n - 1, dest));
                    assert(ps[k].main_index == n - 1);
                }
            }
            assert forall|k1: int, k2: int| 0 <= k1 < k2 < ps.len() implies (
            #[trigger] ps[k1]).main_index < (#[trigger] ps[k2]).main_index by {
                assert(ps[k1] == rest[k1]);
                if k2 < rest.len() {
                    assert(ps[k2] == rest[k2]);
                } else {
                    assert(ps[k2].main_index == n - 1);
                    assert(rest[k1].main_index < n - 1);
                }
            }
        } else {
            assert(ps == rest);
        }
    }
}

/// A schema's projected field list is valid.
pub proof fn lemma_proj_fields_wf(fs: Seq<FieldSpecV>, dest: Dest)
    ensures
        proj_fields_wf(proj_fields(fs, dest), fs, dest),
{
    lemma_proj_fields_prefix_wf(fs, dest, fs.len() as int);
}

/// The main projection selects every field: its field list is the whole
/// schema, in order, each field projected in place.
pub proof fn lemma_main_projects_all(fs: Seq<FieldSpecV>)
    ensures
        proj_fields(fs, Dest::Main).len() == fs.len(),
        forall|j: int|
            0 <= j < fs.len() ==> #[trigger] proj_fields(fs, Dest::Main)[j] == project_field(
                fs[j],
                j,
                Dest::Main,
            ),
{
    lemma_main_prefix(fs, fs.len() as int);
}

/// The main projection of a prefix is that prefix, projected in place.
proof fn lemma_main_prefix(fs: Seq<FieldSpecV>, n: int)
    requires
        0 <= n <= fs.len(),
    ensures
        proj_fields_prefix(fs, Dest::Main, n).len() == n,
        forall|j: int|
            0 <= j < n ==> #[trigger] proj_fields_prefix(fs, Dest::Main, n)[j] == project_field(
                fs[j],
                j,
                Dest::Main,
            ),
    decreases n,
{
    if n > 0 {
        lemma_main_prefix(fs, n - 1);
        assert(proj_fields_prefix(fs, Dest::Main, n) == proj_fields_prefix(
            fs,
            Dest::Main,
            n - 1,
        ).push(project_field(fs[n - 1], n - 1, Dest::Main)));
    }
}

/// The name prefix of a destination.
fn dest_prefix_str(dest: Dest) -> (r: &'static str)
    ensures
        r@ == dest_prefix(dest),
{
    match dest {
        Dest::Main => "",
        Dest::File => "File",
        Dest::Cli => "Cli",
    }
}

/// Project one field for a destination.
fn project_field_exec(f: &crate::schema::FieldSpec, i: usize, dest: Dest) -> (r: ProjectedField)
    ensures
        r@ == project_field(f@, i as int, dest),
{
    let r = ProjectedField {
        main_index: i,
        name: f.name.clone(),
        ty: f.ty,
        optional: dest != Dest::Main,
        public: f.public,
        short: if dest == Dest::Cli {
            f.short
        } else {
            None
        },
        mandatory: dest == Dest::Cli && f.mandatory,
        decorations: match dest {
            Dest::Main => Vec::new(),
            Dest::File => copy_strings(&f.file_decorations),
            Dest::Cli => copy_strings(&f.cli_decorations),
        },
        doc: match dest {
            Dest::Main => copy_strings(&f.doc),
            Dest::File => Vec::new(),
            Dest::Cli => copy_strings(&f.doc),
        },
        other: if dest == Dest::Main {
            copy_directives(&f.other)
        } else {
            Vec::new()
        },
    };
    proof {
        assert(r@.decorations =~= project_field(f@, i as int, dest).decorations);
        assert(r@.doc =~= project_field(f@, i as int, dest).doc);
        assert(r@.other =~= project_field(f@, i as int, dest).other);
        assert(r@ =~~= project_field(f@, i as int, dest));
    }
    r
}

/// Project a schema for a destination: select the destination's fields in
/// declaration order, optional-wrap their types for overlay destinations,
/// and attach the destination's decorations and documentation.
///
/// The projection is a pure function of the schema model: its result is
/// exactly `spec_project(schema, dest)`, so projecting twice yields
/// identical output.
#[verifier::loop_isolation(false)]
pub fn project(s: &SchemaSpec, dest: Dest) -> (p: ProjectedSchema)
    ensures
        p@ == spec_project(s@, dest),
        proj_fields_wf(p@.fields, s@.fields, dest),
{
    let mut fields: Vec<ProjectedField> = Vec::new();
    proof {
        assert(fields.deep_view() =~= proj_fields_prefix(s@.fields, dest, 0));
    }
    let mut i: usize = 0;
    while i < s.fields.len()
        invariant
            i <= s.fields.len(),
            fields.deep_view() == proj_fields_prefix(s@.fields, dest, i as int),
        decreases s.fields.len() - i,
    {
        let f = &s.fields[i];
        proof {
            assert(f@ == s@.fields[i as int]);
        }
        let take = match dest {
            Dest::Main => true,
            Dest::File => f.file_participates,
            Dest::Cli => f.cli_participates,
        };
        if take {
            let pf = project_field_exec(f, i, dest);
            let ghost fs0 = fields.deep_view();
            fields.push(pf);
            proof {
                assert(fields.deep_view() =~= fs0.push(project_field(
                    s@.fields[i as int],
                    i as int,
                    dest,
                )));
            }
        }
        i += 1;
    }
    let prefix: String = dest_prefix_str(dest).to_owned();
    let name = prefix.concat(s.name.as_str());
    let p = ProjectedSchema {
        dest,
        name,
        public: s.public,
        doc: match dest {
            Dest::Main => copy_strings(&s.doc),
            Dest::File => Vec::new(),
            Dest::Cli => copy_strings(&s.doc),
        },
        decorations: match dest {
            Dest::Main => Vec::new(),
            Dest::File => copy_strings(&s.file_decorations),
            Dest::Cli => copy_strings(&s.cli_decorations),
        },
        other: if dest == Dest::Main {
            copy_directives(&s.other)
        } else {
            Vec::new()
        },
        fields,
    };
    proof {
        assert(p@.doc =~= spec_project(s@, dest).doc);
        assert(p@.decorations =~= spec_project(s@, dest).decorations);
        assert(p@.other =~= spec_project(s@, dest).other);
        assert(p@ =~~= spec_project(s@, dest));
        lemma_proj_fields_wf(s@.fields, dest);
    }
    p
}

} // verus!
