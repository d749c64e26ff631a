//! The schema model: the declarative description of a configuration
//! entity, and its classified, validated form.

use vstd::prelude::*;
use vstd::string::StrSliceExecFns;

use crate::directives::{
    classify_directives, spec_classify, Categories, CategoriesV, RawDirective, RawDirectiveV,
    SchemaError, SchemaErrorV,
};
use crate::model::{tag_of, value_has_tag, TypeTag, FieldValue, FieldValueV};

verus! {

/// Declarative description of one configuration field.
pub struct FieldDecl {
    /// Field name, unique within the schema.
    pub name: String,
    /// Semantic type of the field's value.
    pub ty: TypeTag,
    /// Exposure marker, copied verbatim to every projection.
    pub public: bool,
    /// Provenance directives: default value, participation, documentation,
    /// pass-through decorations.
    pub directives: Vec<RawDirective>,
    /// Optional one-letter command-line flag.
    pub short: Option<char>,
    /// The command line must supply this field.
    pub mandatory: bool,
}

/// Mathematical model of a `FieldDecl`.
#[verifier::ext_equal]
pub struct FieldDeclV {
    pub name: Seq<char>,
    pub ty: TypeTag,
    pub public: bool,
    pub directives: Seq<RawDirectiveV>,
    pub short: Option<char>,
    pub mandatory: bool,
}

impl View for FieldDecl {
    type V = FieldDeclV;

    open spec fn view(&self) -> FieldDeclV {
        FieldDeclV {
            name: self.name@,
            ty: self.ty,
            public: self.public,
            directives: self.directives.deep_view(),
            short: self.short,
            mandatory: self.mandatory,
        }
    }
}

impl DeepView for FieldDecl {
    type V = FieldDeclV;

    open spec fn deep_view(&self) -> FieldDeclV {
        self@
    }
}

/// Declarative description of one configuration entity.
pub struct SchemaDecl {
    /// Name of the entity.
    pub name: String,
    /// Exposure marker, copied verbatim to every projection.
    pub public: bool,
    /// Entity-level directives (decorations and documentation).
    pub directives: Vec<RawDirective>,
    /// The fields, in declaration order (order is significant).
    pub fields: Vec<FieldDecl>,
}

/// Mathematical model of a `SchemaDecl`.
#[verifier::ext_equal]
pub struct SchemaDeclV {
    pub name: Seq<char>,
    pub public: bool,
    pub directives: Seq<RawDirectiveV>,
    pub fields: Seq<FieldDeclV>,
}

impl View for SchemaDecl {
    type V = SchemaDeclV;

    open spec fn view(&self) -> SchemaDeclV {
        SchemaDeclV {
            name: self.name@,
            public: self.public,
            directives: self.directives.deep_view(),
            fields: self.fields.deep_view(),
        }
    }
}

/// One classified, validated field of the schema model.
pub struct FieldSpec {
    /// Field name, unique within the schema.
    pub name: String,
    /// Semantic type of the field's value.
    pub ty: TypeTag,
    /// Exposure marker, copied verbatim to every projection.
    pub public: bool,
    /// Documentation lines, shared across projections.
    pub doc: Vec<String>,
    /// Explicit default value; absent means the type's zero value.
    pub default_value: Option<FieldValue>,
    /// Configuration files may set this field.
    pub file_participates: bool,
    /// Opaque decorations bound for the file destination.
    pub file_decorations: Vec<String>,
    /// The command line may set this field.
    pub cli_participates: bool,
    /// Opaque decorations bound for the command-line destination.
    pub cli_decorations: Vec<String>,
    /// Optional one-letter command-line flag.
    pub short: Option<char>,
    /// The command line must supply this field.
    pub mandatory: bool,
    /// Unrecognized directives, preserved verbatim for the main projection.
    pub other: Vec<RawDirective>,
}

/// Mathematical model of a `FieldSpec`.
#[verifier::ext_equal]
pub struct FieldSpecV {
    pub name: Seq<char>,
    pub ty: TypeTag,
    pub public: bool,
    pub doc: Seq<Seq<char>>,
    pub default_value: Option<FieldValueV>,
    pub file_participates: bool,
    pub file_decorations: Seq<Seq<char>>,
    pub cli_participates: bool,
    pub cli_decorations: Seq<Seq<char>>,
    pub short: Option<char>,
    pub mandatory: bool,
    pub other: Seq<RawDirectiveV>,
}

impl View for FieldSpec {
    type V = FieldSpecV;

    open spec fn view(&self) -> FieldSpecV {
        FieldSpecV {
            name: self.name@,
            ty: self.ty,
            public: self.public,
            doc: self.doc.deep_view(),
            default_value: self.default_value.deep_view(),
            file_participates: self.file_participates,
            file_decorations: self.file_decorations.deep_view(),
            cli_participates: self.cli_participates,
            cli_decorations: self.cli_decorations.deep_view(),
            short: self.short,
            mandatory: self.mandatory,
            other: self.other.deep_view(),
        }
    }
}

impl DeepView for FieldSpec {
    type V = FieldSpecV;

    open spec fn deep_view(&self) -> FieldSpecV {
        self@
    }
}

/// The classified, validated schema model.
pub struct SchemaSpec {
    /// Name of the entity.
    pub name: String,
    /// Exposure marker, copied verbatim to every projection.
    pub public: bool,
    /// Entity-level documentation lines.
    pub doc: Vec<String>,
    /// Entity-level decorations bound for the file destination.
    pub file_decorations: Vec<String>,
    /// Entity-level decorations bound for the command-line destination.
    pub cli_decorations: Vec<String>,
    /// Unrecognized entity-level directives, preserved verbatim.
    pub other: Vec<RawDirective>,
    /// The fields, in declaration order.
    pub fields: Vec<FieldSpec>,
}

/// Mathematical model of a `SchemaSpec`.
#[verifier::ext_equal]
pub struct SchemaSpecV {
    pub name: Seq<char>,
    pub public: bool,
    pub doc: Seq<Seq<char>>,
    pub file_decorations: Seq<Seq<char>>,
    pub cli_decorations: Seq<Seq<char>>,
    pub other: Seq<RawDirectiveV>,
    pub fields: Seq<FieldSpecV>,
}

impl View for SchemaSpec {
    type V = SchemaSpecV;

    open spec fn view(&self) -> SchemaSpecV {
        SchemaSpecV {
            name: self.name@,
            public: self.public,
            doc: self.doc.deep_view(),
            file_decorations: self.file_decorations.deep_view(),
            cli_decorations: self.cli_decorations.deep_view(),
            other: self.other.deep_view(),
            fields: self.fields.deep_view(),
        }
    }
}

/// Classify and validate one field declaration.
pub open spec fn spec_build_field(d: FieldDeclV) -> Result<FieldSpecV, SchemaErrorV> {
    if d.name.len() == 0 {
        Err(SchemaErrorV::EmptyFieldName)
    } else if d.name[0] == '-' {
        Err(SchemaErrorV::InvalidFieldName { field: d.name })
    } else {
        match spec_classify(d.directives) {
            Err(e) => Err(e),
            Ok(c) => {
                if c.defaults.len() > 1 {
                    Err(SchemaErrorV::ConflictingDefaults { field: d.name })
                } else if c.defaults.len() == 1 && tag_of(c.defaults[0]) != d.ty {
                    Err(SchemaErrorV::DefaultTypeMismatch { field: d.name })
                } else if d.mandatory && !c.cli_seen {
                    Err(SchemaErrorV::MandatoryWithoutCli { field: d.name })
                } else if d.short is Some && !c.cli_seen {
                    Err(SchemaErrorV::ShortWithoutCli { field: d.name })
                } else if d.short == Some('-') {
                    Err(SchemaErrorV::InvalidShortFlag { field: d.name })
                } else {
                    Ok(
                        FieldSpecV {
                            name: d.name,
                            ty: d.ty,
                            public: d.public,
                            doc: c.doc_lines,
                            default_value: if c.defaults.len() == 1 {
                                Some(c.defaults[0])
                            } else {
                                None
                            },
                            file_participates: c.file_seen,
                            file_decorations: c.file_decorations,
                            cli_participates: c.cli_seen,
                            cli_decorations: c.cli_decorations,
                            short: d.short,
                            mandatory: d.mandatory,
                            other: c.other,
                        },
                    )
                }
            },
        }
    }
}

/// Classify and validate a list of field declarations, in order, rejecting
/// duplicate field names and duplicate short flags.
pub open spec fn spec_build_fields(ds: Seq<FieldDeclV>) -> Result<Seq<FieldSpecV>, SchemaErrorV>
    decreases ds.len(),
{
    if ds.len() == 0 {
        Ok(Seq::empty())
    } else {
        match spec_build_fields(ds.drop_last()) {
            Err(e) => Err(e),
            Ok(fs) => match spec_build_field(ds.last()) {
                Err(e) => Err(e),
                Ok(f) => {
                    if exists|k: int| 0 <= k < fs.len() && fs[k].name == f.name {
                        Err(SchemaErrorV::DuplicateFieldName { name: f.name })
                    } else if f.short is Some && exists|k: int|
                        0 <= k < fs.len() && fs[k].short == f.short {
                        Err(SchemaErrorV::DuplicateShortFlag { field: f.name })
                    } else {
                        Ok(fs.push(f))
                    }
                },
            },
        }
    }
}

/// Classify and validate a whole schema declaration.
///
/// An entity-level default directive has no meaning and is accepted but
/// not stored; every other entity-level directive lands in its category.
pub open spec fn spec_build_schema(d: SchemaDeclV) -> Result<SchemaSpecV, SchemaErrorV> {
    match spec_classify(d.directives) {
        Err(e) => Err(e),
        Ok(c) => match spec_build_fields(d.fields) {
            Err(e) => Err(e),
            Ok(fs) => Ok(
                SchemaSpecV {
                    name: d.name,
                    public: d.public,
                    doc: c.doc_lines,
                    file_decorations: c.file_decorations,
                    cli_decorations: c.cli_decorations,
                    other: c.other,
                    fields: fs,
                },
            ),
        },
    }
}

/// Validity of one classified field.
pub open spec fn field_wf(f: FieldSpecV) -> bool {
    &&& f.name.len() > 0
    &&& f.name[0] != '-'
    &&& (f.default_value matches Some(v) ==> tag_of(v) == f.ty)
    &&& (f.mandatory ==> f.cli_participates)
    &&& (f.short is Some ==> f.cli_participates && f.short != Some('-'))
}

/// Validity of a classified field list: every field is valid, names are
/// unique, and short flags are unique.
pub open spec fn fields_wf(fs: Seq<FieldSpecV>) -> bool {
    &&& forall|i: int| 0 <= i < fs.len() ==> field_wf(#[trigger] fs[i])
    &&& forall|i: int, j: int| 0 <= i < j < fs.len() ==> (#[trigger] fs[i].name) != (#[trigger] fs[j].name)
    &&& forall|i: int, j: int|
        0 <= i < j < fs.len() && (#[trigger] fs[i].short) is Some ==> fs[i].short != (
        #[trigger] fs[j].short)
}

/// Validity of the schema model.
pub open spec fn schema_wf(s: SchemaSpecV) -> bool {
    fields_wf(s.fields)
}

/// A successfully built field list is valid.
pub proof fn lemma_build_fields_wf(ds: Seq<FieldDeclV>)
    ensures
        spec_build_fields(ds) matches Ok(fs) ==> fields_wf(fs),
    decreases ds.len(),
{
    if ds.len() > 0 {
        lemma_build_fields_wf(ds.drop_last());
        if spec_build_fields(ds) is Ok {
            let fs = spec_build_fields(ds)->Ok_0;
            let fs0 = spec_build_fields(ds.drop_last())->Ok_0;
            let f = spec_build_field(ds.last())->Ok_0;
            assert(field_wf(f));
            assert(fs =~= fs0.push(f));
            assert forall|i: int, j: int| 0 <= i < j < fs.len() implies (#[trigger] fs[i].name)
                != (#[trigger] fs[j].name) by {
                if j < fs0.len() {
                    assert(fs[i] == fs0[i] && fs[j] == fs0[j]);
                } else {
                    assert(fs[j] == f && fs[i] == fs0[i]);
                }
            }
            assert forall|i: int, j: int|
                0 <= i < j < fs.len() && (#[trigger] fs[i].short) is Some implies fs[i].short != (
            #[trigger] fs[j].short) by {
                if j < fs0.len() {
                    assert(fs[i] == fs0[i] && fs[j] == fs0[j]);
                } else {
                    assert(fs[j] == f && fs[i] == fs0[i]);
                }
            }
        }
    }
}

/// An error while building a prefix of the field list is the error of the
/// whole list: later declarations cannot mask it.
pub proof fn lemma_build_fields_err_prefix(ds: Seq<FieldDeclV>, j: int)
    requires
        0 <= j <= ds.len(),
        spec_build_fields(ds.take(j)) is Err,
    ensures
        spec_build_fields(ds) == spec_build_fields(ds.take(j)),
    decreases ds.len() - j,
{
    if j == ds.len() {
        assert(ds.take(j) =~= ds);
    } else {
        assert(ds.drop_last().take(j) =~= ds.take(j));
        lemma_build_fields_err_prefix(ds.drop_last(), j);
    }
}

/// Decide whether any already-built field carries this name.
fn any_field_named(fields: &Vec<FieldSpec>, name: &String) -> (r: bool)
    ensures
        r == exists|k: int|
            0 <= k < fields.deep_view().len() && (#[trigger] fields.deep_view()[k].name) == name@,
{
    let ghost fs = fields.deep_view();
    let mut k: usize = 0;
    while k < fields.len()
        invariant
            k <= fields.len(),
            fs == fields.deep_view(),
            forall|m: int| 0 <= m < k ==> (#[trigger] fs[m].name) != name@,
        decreases fields.len() - k,
    {
        if fields[k].name == *name {
            proof {
                assert(fs[k as int].name == name@);
            }
            return true;
        }
        k += 1;
    }
    false
}

/// Decide whether any already-built field carries this short flag.
fn any_field_short(fields: &Vec<FieldSpec>, s: char) -> (r: bool)
    ensures
        r == exists|k: int|
            0 <= k < fields.deep_view().len() && (#[trigger] fields.deep_view()[k].short) == Some(
                s,
            ),
{
    let ghost fs = fields.deep_view();
    let mut k: usize = 0;
    while k < fields.len()
        invariant
            k <= fields.len(),
            fs == fields.deep_view(),
            forall|m: int| 0 <= m < k ==> (#[trigger] fs[m].short) != Some(s),
        decreases fields.len() - k,
    {
        match fields[k].short {
            Some(c) => {
                if c == s {
                    proof {
                        assert(fs[k as int].short == Some(s));
                    }
                    return true;
                }
            },
            None => {},
        }
        k += 1;
    }
    false
}

/// Classify and validate one field declaration.
fn build_field(d: &FieldDecl) -> (r: Result<FieldSpec, SchemaError>)
    ensures
        match r {
            Ok(f) => spec_build_field(d@) == Ok::<FieldSpecV, SchemaErrorV>(f@),
            Err(e) => spec_build_field(d@) == Err::<FieldSpecV, SchemaErrorV>(e@),
        },
{
    if d.name.as_str().is_empty() {
        return Err(SchemaError::EmptyFieldName);
    }
    if d.name.as_str().get_char(0) == '-' {
        return Err(SchemaError::InvalidFieldName { field: d.name.clone() });
    }
    let cats = match classify_directives(&d.directives) {
        Ok(c) => c,
        Err(e) => {
            return Err(e);
        },
    };
    if cats.defaults.len() > 1 {
        return Err(SchemaError::ConflictingDefaults { field: d.name.clone() });
    }
    if cats.defaults.len() == 1 && !value_has_tag(&cats.defaults[0], d.ty) {
        return Err(SchemaError::DefaultTypeMismatch { field: d.name.clone() });
    }
    if d.mandatory && !cats.cli_seen {
        return Err(SchemaError::MandatoryWithoutCli { field: d.name.clone() });
    }
    match d.short {
        Some(c) => {
            if !cats.cli_seen {
                return Err(SchemaError::ShortWithoutCli { field: d.name.clone() });
            }
            if c == '-' {
                return Err(SchemaError::InvalidShortFlag { field: d.name.clone() });
            }
        },
        None => {},
    }
    let Categories {
        defaults: mut defaults,
        file_seen,
        file_decorations,
        cli_seen,
        cli_decorations,
        doc_lines,
        other,
    } = cats;
    let default_value = defaults.pop();
    let f = FieldSpec {
        name: d.name.clone(),
        ty: d.ty,
        public: d.public,
        doc: doc_lines,
        default_value,
        file_participates: file_seen,
        file_decorations,
        cli_participates: cli_seen,
        cli_decorations,
        short: d.short,
        mandatory: d.mandatory,
        other,
    };
    proof {
        assert(spec_build_field(d@) matches Ok(fv) && fv =~~= f@);
    }
    Ok(f)
}

/// Classify and validate a whole schema declaration: route the
/// entity-level directives, build every field in order, and reject
/// duplicate names and duplicate short flags.
#[verifier::loop_isolation(false)]
pub fn build_schema(decl: &SchemaDecl) -> (r: Result<SchemaSpec, SchemaError>)
    ensures
        match r {
            Ok(s) => spec_build_schema(decl@) == Ok::<SchemaSpecV, SchemaErrorV>(s@)
                && schema_wf(s@),
            Err(e) => spec_build_schema(decl@) == Err::<SchemaSpecV, SchemaErrorV>(e@),
        },
{
    let cats = match classify_directives(&decl.directives) {
        Ok(c) => c,
        Err(e) => {
            return Err(e);
        },
    };
    let ghost dsf = decl.fields.deep_view();
    let mut fields: Vec<FieldSpec> = Vec::new();
    proof {
        assert(dsf.take(0) =~= Seq::<FieldDeclV>::empty());
        assert(fields.deep_view() =~= Seq::<FieldSpecV>::empty());
    }
    let mut i: usize = 0;
    while i < decl.fields.len()
        invariant
            i <= decl.fields.len(),
            dsf == decl.fields.deep_view(),
            spec_build_fields(dsf.take(i as int)) == Ok::<Seq<FieldSpecV>, SchemaErrorV>(
                fields.deep_view(),
            ),
        decreases decl.fields.len() - i,
    {
        proof {
            assert(dsf.take(i as int + 1).drop_last() =~= dsf.take(i as int));
            assert(dsf.take(i as int + 1).last() == dsf[i as int]);
            assert(decl.fields[i as int]@ == dsf[i as int]);
        }
        let f = match build_field(&decl.fields[i]) {
            Ok(f) => f,
            Err(e) => {
                proof {
                    assert(spec_build_fields(dsf.take(i as int + 1)) == Err::<
                        Seq<FieldSpecV>,
                        SchemaErrorV,
                    >(e@));
                    lemma_build_fields_err_prefix(dsf, i as int + 1);
                }
                return Err(e);
            },
        };
        let ghost fs0 = fields.deep_view();
        let ghost fv = f@;
        if any_field_named(&fields, &f.name) {
            proof {
                assert(spec_build_fields(dsf.take(i as int + 1)) == Err::<
                    Seq<FieldSpecV>,
                    SchemaErrorV,
                >(SchemaErrorV::DuplicateFieldName { name: fv.name }));
                lemma_build_fields_err_prefix(dsf, i as int + 1);
            }
            return Err(SchemaError::DuplicateFieldName { name: f.name });
        }
        let dup_short = match f.short {
            Some(c) => any_field_short(&fields, c),
            None => false,
        };
        if dup_short {
            proof {
                assert(spec_build_fields(dsf.take(i as int + 1)) == Err::<
                    Seq<FieldSpecV>,
                    SchemaErrorV,
                >(SchemaErrorV::DuplicateShortFlag { field: fv.name }));
                lemma_build_fields_err_prefix(dsf, i as int + 1);
            }
            return Err(SchemaError::DuplicateShortFlag { field: f.name });
        }
        fields.push(f);
        proof {
            assert(fields.deep_view() =~= fs0.push(fv));
        }
        i += 1;
    }
    proof {
        assert(dsf.take(dsf.len() as int) =~= dsf);
        lemma_build_fields_wf(dsf);
    }
    let s = SchemaSpec {
        name: decl.name.clone(),
        public: decl.public,
        doc: cats.doc_lines,
        file_decorations: cats.file_decorations,
        cli_decorations: cats.cli_decorations,
        other: cats.other,
        fields,
    };
    proof {
        assert(spec_build_schema(decl@) matches Ok(sv) && sv =~~= s@);
    }
    Ok(s)
}

} // verus!
