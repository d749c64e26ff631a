//! Runtime values of configuration fields and their semantic types.

use vstd::prelude::*;

verus! {

/// Semantic type of one configuration field.
#[derive(Clone, Copy, PartialEq, Eq, Structural, Debug)]
pub enum TypeTag {
    U32,
    U64,
    I64,
    Bool,
    Text,
}

/// A runtime configuration value.
#[derive(Debug, PartialEq)]
pub enum FieldValue {
    U32(u32),
    U64(u64),
    I64(i64),
    Bool(bool),
    Text(String),
}

/// Mathematical model of a `FieldValue`: text is a sequence of characters.
#[verifier::ext_equal]
pub enum FieldValueV {
    U32(u32),
    U64(u64),
    I64(i64),
    Bool(bool),
    Text(Seq<char>),
}

impl View for FieldValue {
    type V = FieldValueV;

    open spec fn view(&self) -> FieldValueV {
        match self {
            FieldValue::U32(x) => FieldValueV::U32(*x),
            FieldValue::U64(x) => FieldValueV::U64(*x),
            FieldValue::I64(x) => FieldValueV::I64(*x),
            FieldValue::Bool(b) => FieldValueV::Bool(*b),
            FieldValue::Text(s) => FieldValueV::Text(s@),
        }
    }
}

impl DeepView for FieldValue {
    type V = FieldValueV;

    open spec fn deep_view(&self) -> FieldValueV {
        self@
    }
}

/// The semantic type that a value belongs to.
pub open spec fn tag_of(v: FieldValueV) -> TypeTag {
    match v {
        FieldValueV::U32(_) => TypeTag::U32,
        FieldValueV::U64(_) => TypeTag::U64,
        FieldValueV::I64(_) => TypeTag::I64,
        FieldValueV::Bool(_) => TypeTag::Bool,
        FieldValueV::Text(_) => TypeTag::Text,
    }
}

/// The zero value of a semantic type: numeric zero, `false`, empty text.
pub open spec fn type_default_v(t: TypeTag) -> FieldValueV {
    match t {
        TypeTag::U32 => FieldValueV::U32(0),
        TypeTag::U64 => FieldValueV::U64(0),
        TypeTag::I64 => FieldValueV::I64(0),
        TypeTag::Bool => FieldValueV::Bool(false),
        TypeTag::Text => FieldValueV::Text(Seq::empty()),
    }
}

/// Construct the zero value of a semantic type.
pub fn type_default(t: TypeTag) -> (r: FieldValue)
    ensures
        r@ == type_default_v(t),
{
    match t {
        TypeTag::U32 => FieldValue::U32(0),
        TypeTag::U64 => FieldValue::U64(0),
        TypeTag::I64 => FieldValue::I64(0),
        TypeTag::Bool => FieldValue::Bool(false),
        TypeTag::Text => FieldValue::Text(String::new()),
    }
}

/// Copy a value.
pub fn dup_value(v: &FieldValue) -> (r: FieldValue)
    ensures
        r@ == v@,
{
    match v {
        FieldValue::U32(x) => FieldValue::U32(*x),
        FieldValue::U64(x) => FieldValue::U64(*x),
        FieldValue::I64(x) => FieldValue::I64(*x),
        FieldValue::Bool(b) => FieldValue::Bool(*b),
        FieldValue::Text(s) => FieldValue::Text(s.clone()),
    }
}

/// Copy a list of text lines.
pub fn copy_strings(v: &Vec<String>) -> (r: Vec<String>)
    ensures
        r.deep_view() == v.deep_view(),
{
    let mut r: Vec<String> = Vec::new();
    let mut i: usize = 0;
    while i < v.len()
        invariant
            i <= v.len(),
            r.deep_view() =~= v.deep_view().take(i as int),
        decreases v.len() - i,
    {
        let ghost r0 = r.deep_view();
        proof {
            assert(v.deep_view().len() == v@.len());
            assert(r0.len() == i as int);
        }
        r.push(v[i].clone());
        proof {
            assert(r.deep_view() =~= v.deep_view().take(i as int + 1));
        }
        i += 1;
    }
    proof {
        assert(v.deep_view().take(v.len() as int) =~= v.deep_view());
    }
    r
}

/// Decide whether a value belongs to a semantic type.
pub fn value_has_tag(v: &FieldValue, t: TypeTag) -> (r: bool)
    ensures
        r == (tag_of(v@) == t),
{
    match v {
        FieldValue::U32(_) => t == TypeTag::U32,
        FieldValue::U64(_) => t == TypeTag::U64,
        FieldValue::I64(_) => t == TypeTag::I64,
        FieldValue::Bool(_) => t == TypeTag::Bool,
        FieldValue::Text(_) => t == TypeTag::Text,
    }
}

} // verus!
