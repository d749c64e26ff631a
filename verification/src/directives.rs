//! Classification of the provenance directives attached to a schema or to
//! one of its fields.
//!
//! Each directive carries a category name and a payload.  The classifier
//! routes every directive into exactly one of a small fixed set of
//! categories — default value, file participation, command-line
//! participation, documentation — or into a catch-all bucket that is
//! preserved unchanged, and rejects malformed payloads.

use vstd::prelude::*;

use crate::model::{dup_value, FieldValue, FieldValueV};

verus! {

/// Payload attached to one raw directive.
pub enum Payload {
    /// No payload: plain participation in a category.
    Empty,
    /// An opaque decoration, passed through verbatim to the destination.
    Text(String),
    /// A concrete value (used by the default-value category).
    FieldValue(FieldValue),
    /// A payload that is not a valid content literal.
    Invalid,
}

/// Mathematical model of a `Payload`.
#[verifier::ext_equal]
pub enum PayloadV {
    Empty,
    Text(Seq<char>),
    FieldValue(FieldValueV),
    Invalid,
}

impl View for Payload {
    type V = PayloadV;

    open spec fn view(&self) -> PayloadV {
        match self {
            Payload::Empty => PayloadV::Empty,
            Payload::Text(s) => PayloadV::Text(s@),
            Payload::FieldValue(v) => PayloadV::FieldValue(v@),
            Payload::Invalid => PayloadV::Invalid,
        }
    }
}

impl DeepView for Payload {
    type V = PayloadV;

    open spec fn deep_view(&self) -> PayloadV {
        self@
    }
}

/// One raw annotation attached to a schema or to a field: a category name
/// and a payload.
pub struct RawDirective {
    pub name: String,
    pub payload: Payload,
}

/// Mathematical model of a `RawDirective`.
#[verifier::ext_equal]
pub struct RawDirectiveV {
    pub name: Seq<char>,
    pub payload: PayloadV,
}

impl View for RawDirective {
    type V = RawDirectiveV;

    open spec fn view(&self) -> RawDirectiveV {
        RawDirectiveV { name: self.name@, payload: self.payload@ }
    }
}

impl DeepView for RawDirective {
    type V = RawDirectiveV;

    open spec fn deep_view(&self) -> RawDirectiveV {
        self@
    }
}

/// Copy a payload.
pub fn dup_payload(p: &Payload) -> (r: Payload)
    ensures
        r@ == p@,
{
    match p {
        Payload::Empty => Payload::Empty,
        Payload::Text(s) => Payload::Text(s.clone()),
        Payload::FieldValue(v) => Payload::FieldValue(dup_value(v)),
        Payload::Invalid => Payload::Invalid,
    }
}

/// Copy a directive.
pub fn dup_directive(d: &RawDirective) -> (r: RawDirective)
    ensures
        r@ == d@,
{
    RawDirective { name: d.name.clone(), payload: dup_payload(&d.payload) }
}

/// Copy a list of directives.
pub fn copy_directives(v: &Vec<RawDirective>) -> (r: Vec<RawDirective>)
    ensures
        r.deep_view() == v.deep_view(),
{
    let mut r: Vec<RawDirective> = Vec::new();
    let mut i: usize = 0;
    while i < v.len()
        invariant
            i <= v.len(),
            r.deep_view() =~= v.deep_view().take(i as int),
        decreases v.len() - i,
    {
        let ghost r0 = r.deep_view();
        proof {
            assert(v.deep_view().len() == v@.len());
            assert(r0.len() == i as int);
        }
        r.push(dup_directive(&v[i]));
        proof {
            assert(r.deep_view() =~= v.deep_view().take(i as int + 1));
        }
        i += 1;
    }
    proof {
        assert(v.deep_view().take(v.len() as int) =~= v.deep_view());
    }
    r
}

/// An error detected while building a schema: all of these are fatal at
/// schema-build time.
#[derive(Debug)]
pub enum SchemaError {
    /// A recognized directive carries a payload of the wrong shape.
    InvalidDirective { name: String },
    /// A field carries more than one default value.
    ConflictingDefaults { field: String },
    /// A field's default value does not belong to the field's type.
    DefaultTypeMismatch { field: String },
    /// A field is marked mandatory but does not participate in the
    /// command line.
    MandatoryWithoutCli { field: String },
    /// A field carries a short flag but does not participate in the
    /// command line.
    ShortWithoutCli { field: String },
    /// A field's name is empty.
    EmptyFieldName,
    /// A field's name starts with the reserved character `-`.
    InvalidFieldName { field: String },
    /// A field's short flag is the reserved character `-`.
    InvalidShortFlag { field: String },
    /// Two fields share one name.
    DuplicateFieldName { name: String },
    /// Two fields share one short flag.
    DuplicateShortFlag { field: String },
}

/// Mathematical model of a `SchemaError`.
pub enum SchemaErrorV {
    InvalidDirective { name: Seq<char> },
    ConflictingDefaults { field: Seq<char> },
    DefaultTypeMismatch { field: Seq<char> },
    MandatoryWithoutCli { field: Seq<char> },
    ShortWithoutCli { field: Seq<char> },
    EmptyFieldName,
    InvalidFieldName { field: Seq<char> },
    InvalidShortFlag { field: Seq<char> },
    DuplicateFieldName { name: Seq<char> },
    DuplicateShortFlag { field: Seq<char> },
}

impl View for SchemaError {
    type V = SchemaErrorV;

    open spec fn view(&self) -> SchemaErrorV {
        match self {
            SchemaError::InvalidDirective { name } => SchemaErrorV::InvalidDirective {
                name: name@,
            },
            SchemaError::ConflictingDefaults { field } => SchemaErrorV::ConflictingDefaults {
                field: field@,
            },
            SchemaError::DefaultTypeMismatch { field } => SchemaErrorV::DefaultTypeMismatch {
                field: field@,
            },
            SchemaError::MandatoryWithoutCli { field } => SchemaErrorV::MandatoryWithoutCli {
                field: field@,
            },
            SchemaError::ShortWithoutCli { field } => SchemaErrorV::ShortWithoutCli {
                field: field@,
            },
            SchemaError::EmptyFieldName => SchemaErrorV::EmptyFieldName,
            SchemaError::InvalidFieldName { field } => SchemaErrorV::InvalidFieldName {
                field: field@,
            },
            SchemaError::InvalidShortFlag { field } => SchemaErrorV::InvalidShortFlag {
                field: field@,
            },
            SchemaError::DuplicateFieldName { name } => SchemaErrorV::DuplicateFieldName {
                name: name@,
            },
            SchemaError::DuplicateShortFlag { field } => SchemaErrorV::DuplicateShortFlag {
                field: field@,
            },
        }
    }
}

/// The directives of one schema or field, routed into categories.
///
/// Payloads of one category accumulate in order; directives of an
/// unrecognized category are preserved unchanged in `other`.
pub struct Categories {
    /// Accumulated default values (a well-formed field carries at most one).
    pub defaults: Vec<FieldValue>,
    /// The field participates in configuration files.
    pub file_seen: bool,
    /// Opaque decorations bound for the file destination.
    pub file_decorations: Vec<String>,
    /// The field participates in the command line.
    pub cli_seen: bool,
    /// Opaque decorations bound for the command-line destination.
    pub cli_decorations: Vec<String>,
    /// Documentation lines, in order.
    pub doc_lines: Vec<String>,
    /// Unrecognized directives, preserved verbatim.
    pub other: Vec<RawDirective>,
}

/// Mathematical model of `Categories`.
#[verifier::ext_equal]
pub struct CategoriesV {
    pub defaults: Seq<FieldValueV>,
    pub file_seen: bool,
    pub file_decorations: Seq<Seq<char>>,
    pub cli_seen: bool,
    pub cli_decorations: Seq<Seq<char>>,
    pub doc_lines: Seq<Seq<char>>,
    pub other: Seq<RawDirectiveV>,
}

impl View for Categories {
    type V = CategoriesV;

    open spec fn view(&self) -> CategoriesV {
        CategoriesV {
            defaults: self.defaults.deep_view(),
            file_seen: self.file_seen,
            file_decorations: self.file_decorations.deep_view(),
            cli_seen: self.cli_seen,
            cli_decorations: self.cli_decorations.deep_view(),
            doc_lines: self.doc_lines.deep_view(),
            other: self.other.deep_view(),
        }
    }
}

/// Categories with nothing routed into them yet.
pub open spec fn empty_categories() -> CategoriesV {
    CategoriesV {
        defaults: Seq::empty(),
        file_seen: false,
        file_decorations: Seq::empty(),
        cli_seen: false,
        cli_decorations: Seq::empty(),
        doc_lines: Seq::empty(),
        other: Seq::empty(),
    }
}

/// Route one directive into its category.
pub open spec fn classify_one(c: CategoriesV, d: RawDirectiveV) -> Result<
    CategoriesV,
    SchemaErrorV,
> {
    if d.name == "default"@ {
        match d.payload {
            PayloadV::FieldValue(v) => Ok(CategoriesV { defaults: c.defaults.push(v), ..c }),
            _ => Err(SchemaErrorV::InvalidDirective { name: d.name }),
        }
    } else if d.name == "file"@ {
        match d.payload {
            PayloadV::Empty => Ok(CategoriesV { file_seen: true, ..c }),
            PayloadV::Text(t) => Ok(
                CategoriesV { file_seen: true, file_decorations: c.file_decorations.push(t), ..c },
            ),
            _ => Err(SchemaErrorV::InvalidDirective { name: d.name }),
        }
    } else if d.name == "cli"@ {
        match d.payload {
            PayloadV::Empty => Ok(CategoriesV { cli_seen: true, ..c }),
            PayloadV::Text(t) => Ok(
                CategoriesV { cli_seen: true, cli_decorations: c.cli_decorations.push(t), ..c },
            ),
            _ => Err(SchemaErrorV::InvalidDirective { name: d.name }),
        }
    } else if d.name == "doc"@ {
        match d.payload {
            PayloadV::Text(t) => Ok(CategoriesV { doc_lines: c.doc_lines.push(t), ..c }),
            PayloadV::Empty => Ok(CategoriesV { doc_lines: c.doc_lines.push(Seq::empty()), ..c }),
            _ => Err(SchemaErrorV::InvalidDirective { name: d.name }),
        }
    } else {
        Ok(CategoriesV { other: c.other.push(d), ..c })
    }
}

/// Route a list of directives, in order, starting from categories `c`.
pub open spec fn spec_classify_from(c: CategoriesV, ds: Seq<RawDirectiveV>) -> Result<
    CategoriesV,
    SchemaErrorV,
>
    decreases ds.len(),
{
    if ds.len() == 0 {
        Ok(c)
    } else {
        match classify_one(c, ds[0]) {
            Ok(c2) => spec_classify_from(c2, ds.drop_first()),
            Err(e) => Err(e),
        }
    }
}

/// Route a list of directives, in order.
pub open spec fn spec_classify(ds: Seq<RawDirectiveV>) -> Result<CategoriesV, SchemaErrorV> {
    spec_classify_from(empty_categories(), ds)
}

/// Decide whether a name equals a given category name.
fn name_is(name: &String, lit: &str) -> (r: bool)
    ensures
        r == (name@ == lit@),
{
    let s: String = lit.to_owned();
    *name == s
}

/// Route one directive into its category, extending `c`.
fn classify_step(c: Categories, d: &RawDirective) -> (r: Result<Categories, SchemaError>)
    ensures
        match r {
            Ok(c2) => classify_one(c@, d@) == Ok::<CategoriesV, SchemaErrorV>(c2@),
            Err(e) => classify_one(c@, d@) == Err::<CategoriesV, SchemaErrorV>(e@),
        },
{
    let ghost c0 = c@;
    let mut c = c;
    if name_is(&d.name, "default") {
        match &d.payload {
            Payload::FieldValue(v) => {
                c.defaults.push(dup_value(v));
                proof {
                    assert(c@ =~~= CategoriesV { defaults: c0.defaults.push(v@), ..c0 });
                }
                Ok(c)
            },
            _ => Err(SchemaError::InvalidDirective { name: d.name.clone() }),
        }
    } else if name_is(&d.name, "file") {
        match &d.payload {
            Payload::Empty => {
                c.file_seen = true;
                proof {
                    assert(c@ =~~= CategoriesV { file_seen: true, ..c0 });
                }
                Ok(c)
            },
            Payload::Text(t) => {
                c.file_seen = true;
                c.file_decorations.push(t.clone());
                proof {
                    assert(c@ =~~= CategoriesV {
                        file_seen: true,
                        file_decorations: c0.file_decorations.push(t@),
                        ..c0
                    });
                }
                Ok(c)
            },
            _ => Err(SchemaError::InvalidDirective { name: d.name.clone() }),
        }
    } else if name_is(&d.name, "cli") {
        match &d.payload {
            Payload::Empty => {
                c.cli_seen = true;
                proof {
                    assert(c@ =~~= CategoriesV { cli_seen: true, ..c0 });
                }
                Ok(c)
            },
            Payload::Text(t) => {
                c.cli_seen = true;
                c.cli_decorations.push(t.clone());
                proof {
                    assert(c@ =~~= CategoriesV {
                        cli_seen: true,
                        cli_decorations: c0.cli_decorations.push(t@),
                        ..c0
                    });
                }
                Ok(c)
            },
            _ => Err(SchemaError::InvalidDirective { name: d.name.clone() }),
        }
    } else if name_is(&d.name, "doc") {
        match &d.payload {
            Payload::Text(t) => {
                c.doc_lines.push(t.clone());
                proof {
                    assert(c@ =~~= CategoriesV { doc_lines: c0.doc_lines.push(t@), ..c0 });
                }
                Ok(c)
            },
            Payload::Empty => {
                c.doc_lines.push(String::new());
                proof {
                    assert(c@ =~~= CategoriesV {
                        doc_lines: c0.doc_lines.push(Seq::empty()),
                        ..c0
                    });
                }
                Ok(c)
            },
            _ => Err(SchemaError::InvalidDirective { name: d.name.clone() }),
        }
    } else {
        c.other.push(dup_directive(d));
        proof {
            assert(c@ =~~= CategoriesV { other: c0.other.push(d@), ..c0 });
        }
        Ok(c)
    }
}

/// Classify a list of raw directives: route each into exactly one
/// category, accumulating payloads in order; reject a malformed payload
/// on a recognized category; preserve unrecognized directives unchanged.
pub fn classify_directives(dirs: &Vec<RawDirective>) -> (r: Result<Categories, SchemaError>)
    ensures
        match r {
            Ok(c) => spec_classify(dirs.deep_view()) == Ok::<CategoriesV, SchemaErrorV>(c@),
            Err(e) => spec_classify(dirs.deep_view()) == Err::<CategoriesV, SchemaErrorV>(e@),
        },
{
    let ghost ds = dirs.deep_view();
    let mut cats = Categories {
        defaults: Vec::new(),
        file_seen: false,
        file_decorations: Vec::new(),
        cli_seen: false,
        cli_decorations: Vec::new(),
        doc_lines: Vec::new(),
        other: Vec::new(),
    };
    proof {
        assert(cats@ =~~= empty_categories());
        assert(ds.skip(0) =~= ds);
    }
    let mut i: usize = 0;
    while i < dirs.len()
        invariant
            i <= dirs.len(),
            ds == dirs.deep_view(),
            spec_classify_from(cats@, ds.skip(i as int)) == spec_classify(ds),
        decreases dirs.len() - i,
    {
        let d = &dirs[i];
        proof {
            assert(ds.skip(i as int)[0] == ds[i as int]);
            assert(d@ == ds[i as int]);
            assert(ds.skip(i as int).drop_first() =~= ds.skip(i as int + 1));
        }
        match classify_step(cats, d) {
            Ok(c2) => {
                cats = c2;
            },
            Err(e) => {
                return Err(e);
            },
        }
        i += 1;
    }
    proof {
        assert(ds.skip(ds.len() as int) =~= Seq::<RawDirectiveV>::empty());
    }
    Ok(cats)
}

} // verus!
