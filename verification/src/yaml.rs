//! The file collaborator: parsing configuration-file bytes through
//! `serde_yaml`.
//!
//! The library does not interpret the byte format itself; it hands the
//! bytes to `serde_yaml` and reads the parsed document back through a
//! small trusted surface.  The parsed document is modelled as one node
//! kind plus a map from string key to the scalar model of each entry.

use vstd::prelude::*;

verus! {

/// Mathematical model of one parsed YAML node, as the accessors of
/// `serde_yaml::Value` present it: a null, a non-negative integer, a
/// negative integer, a boolean, a string, a mapping, or anything else (a
/// sequence, a float, an integer past the machine range, ...).
pub enum YamlScalarV {
    Null,
    UInt(u64),
    NegInt(i64),
    Boolean(bool),
    Text(Seq<char>),
    Mapping,
    Other,
}

/// Mathematical model of a parsed YAML document: the kind of its root
/// node, and the string-keyed entries when the root is a mapping.
#[verifier::ext_equal]
pub struct YamlDocV {
    pub kind: YamlScalarV,
    pub fields: Map<Seq<char>, YamlScalarV>,
}

#[verifier::external_type_specification]
#[verifier::external_body]
pub struct ExYamlValue(serde_yaml::Value);

/// The kind of one parsed node: which of the `serde_yaml::Value`
/// accessors (`as_u64`, `as_bool`, `as_str`, `is_null`, `is_mapping`)
/// answers for it, and with what.  The accessors look through a YAML tag,
/// so a tagged scalar carries its inner scalar's kind.
pub uninterp spec fn yaml_scalar(v: serde_yaml::Value) -> YamlScalarV;

/// The string-keyed entries of a mapping node, each with the scalar model
/// of its value; empty for a non-mapping node.
pub uninterp spec fn yaml_fields(v: serde_yaml::Value) -> Map<Seq<char>, YamlScalarV>;

/// What `serde_yaml::from_slice::<serde_yaml::Value>` returns for given
/// bytes: the parsed document's model, or nothing when the bytes are not
/// one well-formed YAML document.  Parsing is a function of the bytes
/// alone.
pub uninterp spec fn yaml_doc_model(bytes: Seq<u8>) -> Option<YamlDocV>;

/// Relies on `serde_yaml::from_slice::<serde_yaml::Value>`: it parses the
/// bytes as one YAML document, deterministically; on failure the error's
/// rendering is returned and not modelled.
#[verifier::external_body]
pub(crate) fn yaml_parse(bytes: &Vec<u8>) -> (r: Result<serde_yaml::Value, String>)
    ensures
        (r is Ok) == (yaml_doc_model(bytes@) is Some),
        r matches Ok(doc) ==> {
            &&& yaml_scalar(doc) == yaml_doc_model(bytes@)->Some_0.kind
            &&& yaml_fields(doc) == yaml_doc_model(bytes@)->Some_0.fields
        },
{
    match serde_yaml::from_slice::<serde_yaml::Value>(bytes.as_slice()) {
        Ok(v) => Ok(v),
        Err(e) => Err(e.to_string()),
    }
}

/// Relies on `serde_yaml::Value::is_mapping`.
#[verifier::external_body]
pub(crate) fn yaml_is_mapping(v: &serde_yaml::Value) -> (r: bool)
    ensures
        r == (yaml_scalar(*v) is Mapping),
{
    v.is_mapping()
}

/// Relies on `serde_yaml::Value::is_null`.
#[verifier::external_body]
pub(crate) fn yaml_is_null(v: &serde_yaml::Value) -> (r: bool)
    ensures
        r == (yaml_scalar(*v) is Null),
{
    v.is_null()
}

/// Relies on `serde_yaml::Value::get` with a string key: a lookup among
/// the mapping's string-keyed entries; `None` on a non-mapping node or an
/// absent key.
#[verifier::external_body]
pub(crate) fn yaml_get(doc: &serde_yaml::Value, key: &str) -> (r: Option<serde_yaml::Value>)
    ensures
        (r is Some) == yaml_fields(*doc).dom().contains(key@),
        r matches Some(v) ==> yaml_scalar(v) == yaml_fields(*doc)[key@],
{
    doc.get(key).cloned()
}

/// Relies on `serde_yaml::Value::as_u64`: the node's value exactly when
/// the node is a non-negative integer that fits `u64`.
#[verifier::external_body]
pub(crate) fn yaml_as_u64(v: &serde_yaml::Value) -> (r: Option<u64>)
    ensures
        r == (match yaml_scalar(*v) {
            YamlScalarV::UInt(x) => Some(x),
            _ => None::<u64>,
        }),
{
    v.as_u64()
}

/// Relies on `serde_yaml::Value::as_i64`: the node's value exactly when
/// the node is an integer that fits `i64` — a negative integer, or a
/// non-negative one no larger than `i64::MAX`.
#[verifier::external_body]
pub(crate) fn yaml_as_i64(v: &serde_yaml::Value) -> (r: Option<i64>)
    ensures
        r == (match yaml_scalar(*v) {
            YamlScalarV::UInt(x) => if x <= i64::MAX as u64 {
                Some(x as i64)
            } else {
                None::<i64>
            },
            YamlScalarV::NegInt(x) => Some(x),
            _ => None::<i64>,
        }),
{
    v.as_i64()
}

/// Relies on `serde_yaml::Value::as_bool`.
#[verifier::external_body]
pub(crate) fn yaml_as_bool(v: &serde_yaml::Value) -> (r: Option<bool>)
    ensures
        r == (match yaml_scalar(*v) {
            YamlScalarV::Boolean(b) => Some(b),
            _ => None::<bool>,
        }),
{
    v.as_bool()
}

/// Relies on `serde_yaml::Value::as_str`.
#[verifier::external_body]
pub(crate) fn yaml_as_text(v: &serde_yaml::Value) -> (r: Option<String>)
    ensures
        (r is Some) == (yaml_scalar(*v) is Text),
        r matches Some(s) ==> yaml_scalar(*v) == YamlScalarV::Text(s@),
{
    match v.as_str() {
        Some(s) => Some(s.to_string()),
        None => None,
    }
}

} // verus!
