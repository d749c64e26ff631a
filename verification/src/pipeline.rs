//! The resolution pipeline: build the final configuration value from the
//! built-in defaults, the configuration files in order, then the command
//! line.
//!
//! Precedence is strict and total: later file sources override earlier
//! ones; the command line overrides every file; a field absent from every
//! source keeps its constructed default.  A missing file contributes
//! nothing; a file that exists but cannot be opened, a file that does not
//! parse, and malformed command-line input each abort the whole pipeline.

use vstd::prelude::*;

use crate::cli::{
    arg_flag, arg_with_short, cli_parse_model, cmd_arg, cmd_args_list, cmd_new, cmd_ok,
    cmd_try_parse, matches_decl, matches_get, matches_value,
};
use crate::compile::{cs_wf, CompiledSettings};
use crate::parse::{parse_value, spec_parse_value};
use crate::merge::{
    apply_overlay, config_wf, lemma_apply_preserves_wf, overlay_wf, spec_apply, Config, Overlay,
};
use crate::model::{dup_value, tag_of, type_default, type_default_v, TypeTag, FieldValue, FieldValueV};
use crate::project::{ProjectedFieldV, ProjectedSchema};
use crate::schema::{FieldSpecV, SchemaSpec};
use crate::yaml::{
    yaml_as_bool, yaml_as_i64, yaml_as_text, yaml_as_u64, yaml_doc_model, yaml_fields, yaml_get,
    yaml_is_mapping, yaml_is_null, yaml_parse, yaml_scalar, YamlScalarV,
};

verus! {

/// What reading one configuration file yielded, before parsing: the file
/// does not exist, it exists but could not be opened, or its bytes.
pub enum FileOutcome {
    /// The file does not exist: this optional source contributes nothing.
    Missing,
    /// The file exists but could not be opened (permissions, input error);
    /// the reader's message is carried along.
    OpenFailed(String),
    /// The file's content.
    Content(Vec<u8>),
}

/// Mathematical model of a `FileOutcome`.
pub enum FileOutcomeV {
    Missing,
    OpenFailed(Seq<char>),
    Content(Seq<u8>),
}

impl View for FileOutcome {
    type V = FileOutcomeV;

    open spec fn view(&self) -> FileOutcomeV {
        match self {
            FileOutcome::Missing => FileOutcomeV::Missing,
            FileOutcome::OpenFailed(m) => FileOutcomeV::OpenFailed(m@),
            FileOutcome::Content(b) => FileOutcomeV::Content(b@),
        }
    }
}

impl DeepView for FileOutcome {
    type V = FileOutcomeV;

    open spec fn deep_view(&self) -> FileOutcomeV {
        self@
    }
}

/// One configuration-file source: its path (for error context) and what
/// reading it yielded.
pub struct FileSource {
    pub path: String,
    pub outcome: FileOutcome,
}

/// Mathematical model of a `FileSource`.
#[verifier::ext_equal]
pub struct FileSourceV {
    pub path: Seq<char>,
    pub outcome: FileOutcomeV,
}

impl View for FileSource {
    type V = FileSourceV;

    open spec fn view(&self) -> FileSourceV {
        FileSourceV { path: self.path@, outcome: self.outcome@ }
    }
}

impl DeepView for FileSource {
    type V = FileSourceV;

    open spec fn deep_view(&self) -> FileSourceV {
        self@
    }
}

/// An error that aborts the resolution pipeline.
#[derive(Debug)]
pub enum BuildError {
    /// A file exists but could not be opened; the path and the reader's
    /// message.
    FileOpen { path: String, message: String },
    /// A file's content is not one well-formed YAML mapping; the path and
    /// the parser's message.
    FileParse { path: String, message: String },
    /// A file sets a field to a value of the wrong shape; the path and
    /// the field.
    FileField { path: String, field: String },
    /// The command-line grammar rejected the arguments; carries a
    /// usage-style message.
    CliParse { message: String },
    /// A command-line argument's value does not parse as its field's
    /// type.
    CliField { field: String },
    /// A mandatory field was not supplied on the command line.
    CliMissing { field: String },
}

/// Mathematical model of a `BuildError`.
pub enum BuildErrorV {
    FileOpen { path: Seq<char>, message: Seq<char> },
    FileParse { path: Seq<char>, message: Seq<char> },
    FileField { path: Seq<char>, field: Seq<char> },
    CliParse { message: Seq<char> },
    CliField { field: Seq<char> },
    CliMissing { field: Seq<char> },
}

impl View for BuildError {
    type V = BuildErrorV;

    open spec fn view(&self) -> BuildErrorV {
        match self {
            BuildError::FileOpen { path, message } => BuildErrorV::FileOpen {
                path: path@,
                message: message@,
            },
            BuildError::FileParse { path, message } => BuildErrorV::FileParse {
                path: path@,
                message: message@,
            },
            BuildError::FileField { path, field } => BuildErrorV::FileField {
                path: path@,
                field: field@,
            },
            BuildError::CliParse { message } => BuildErrorV::CliParse { message: message@ },
            BuildError::CliField { field } => BuildErrorV::CliField { field: field@ },
            BuildError::CliMissing { field } => BuildErrorV::CliMissing { field: field@ },
        }
    }
}

/// The identity of a pipeline error: its kind and context.  A message
/// that an outside parser rendered (a YAML syntax error, a command-line
/// usage message) is not part of the identity; the message of a failed
/// open is, because it arrives with the file source itself.
pub enum BuildIssueV {
    FileOpen { path: Seq<char>, message: Seq<char> },
    FileParse { path: Seq<char> },
    FileField { path: Seq<char>, field: Seq<char> },
    CliParse,
    CliField { field: Seq<char> },
    CliMissing { field: Seq<char> },
}

/// The identity of a pipeline error.
pub open spec fn issue_of(e: BuildErrorV) -> BuildIssueV {
    match e {
        BuildErrorV::FileOpen { path, message } => BuildIssueV::FileOpen { path, message },
        BuildErrorV::FileParse { path, .. } => BuildIssueV::FileParse { path },
        BuildErrorV::FileField { path, field } => BuildIssueV::FileField { path, field },
        BuildErrorV::CliParse { .. } => BuildIssueV::CliParse,
        BuildErrorV::CliField { field } => BuildIssueV::CliField { field },
        BuildErrorV::CliMissing { field } => BuildIssueV::CliMissing { field },
    }
}

/// The baseline configuration of a schema: every field's declared default
/// value if present, else its type's zero value.
pub open spec fn spec_default(fs: Seq<FieldSpecV>) -> Seq<FieldValueV> {
    Seq::new(
        fs.len(),
        |i: int|
            match fs[i].default_value {
                Some(v) => v,
                None => type_default_v(fs[i].ty),
            },
    )
}

/// Construct the baseline configuration: every field takes its declared
/// default value if present, else its type's zero value — independent of
/// any file or command-line input.
#[verifier::loop_isolation(false)]
pub fn default_config(schema: &SchemaSpec) -> (r: Config)
    ensures
        r@ == spec_default(schema@.fields),
        crate::schema::fields_wf(schema@.fields) ==> config_wf(r@, schema@.fields),
{
    let mut values: Vec<FieldValue> = Vec::new();
    let mut i: usize = 0;
    while i < schema.fields.len()
        invariant
            i <= schema.fields.len(),
            values.deep_view() =~= spec_default(schema@.fields).take(i as int),
        decreases schema.fields.len() - i,
    {
        let f = &schema.fields[i];
        proof {
            assert(f@ == schema@.fields[i as int]);
        }
        let v = match &f.default_value {
            Some(v) => dup_value(v),
            None => type_default(f.ty),
        };
        let ghost r0 = values.deep_view();
        proof {
            assert(r0.len() == i as int);
        }
        values.push(v);
        proof {
            assert(values.deep_view() =~= spec_default(schema@.fields).take(i as int + 1));
        }
        i += 1;
    }
    proof {
        assert(spec_default(schema@.fields).take(schema@.fields.len() as int) =~= spec_default(
            schema@.fields,
        ));
    }
    let r = Config { values };
    proof {
        if crate::schema::fields_wf(schema@.fields) {
            assert forall|j: int| 0 <= j < r@.len() implies tag_of(#[trigger] r@[j])
                == schema@.fields[j].ty by {
                assert(crate::schema::field_wf(schema@.fields[j]));
            }
        }
    }
    r
}

/// Interpret one parsed YAML node as a value of a field's type: a null
/// means "not set"; an integer, boolean or string must match the field's
/// type (an unsigned integer must also fit it); anything else is a
/// malformed field value.
pub open spec fn scalar_to_value(s: YamlScalarV, t: TypeTag) -> Result<Option<FieldValueV>, ()> {
    match s {
        YamlScalarV::Null => Ok(None),
        YamlScalarV::UInt(x) => match t {
            TypeTag::U32 => if x <= u32::MAX as u64 {
                Ok(Some(FieldValueV::U32(x as u32)))
            } else {
                Err(())
            },
            TypeTag::U64 => Ok(Some(FieldValueV::U64(x))),
            TypeTag::I64 => if x <= i64::MAX as u64 {
                Ok(Some(FieldValueV::I64(x as i64)))
            } else {
                Err(())
            },
            _ => Err(()),
        },
        YamlScalarV::NegInt(x) => if t == TypeTag::I64 {
            Ok(Some(FieldValueV::I64(x)))
        } else {
            Err(())
        },
        YamlScalarV::Boolean(b) => if t == TypeTag::Bool {
            Ok(Some(FieldValueV::Bool(b)))
        } else {
            Err(())
        },
        YamlScalarV::Text(txt) => if t == TypeTag::Text {
            Ok(Some(FieldValueV::Text(txt)))
        } else {
            Err(())
        },
        YamlScalarV::Mapping => Err(()),
        YamlScalarV::Other => Err(()),
    }
}

/// Interpret one parsed YAML node as a value of a field's type.
fn node_to_value(node: &serde_yaml::Value, t: TypeTag) -> (r: Result<Option<FieldValue>, ()>)
    ensures
        match r {
            Ok(ov) => scalar_to_value(yaml_scalar(*node), t) == Ok::<Option<FieldValueV>, ()>(
                ov.deep_view(),
            ),
            Err(_) => scalar_to_value(yaml_scalar(*node), t) == Err::<Option<FieldValueV>, ()>(()),
        },
{
    if yaml_is_null(node) {
        return Ok(None);
    }
    match t {
        TypeTag::U32 => match yaml_as_u64(node) {
            Some(x) => if x <= u32::MAX as u64 {
                Ok(Some(FieldValue::U32(x as u32)))
            } else {
                Err(())
            },
            None => Err(()),
        },
        TypeTag::U64 => match yaml_as_u64(node) {
            Some(x) => Ok(Some(FieldValue::U64(x))),
            None => Err(()),
        },
        TypeTag::I64 => match yaml_as_i64(node) {
            Some(x) => Ok(Some(FieldValue::I64(x))),
            None => Err(()),
        },
        TypeTag::Bool => match yaml_as_bool(node) {
            Some(b) => Ok(Some(FieldValue::Bool(b))),
            None => Err(()),
        },
        TypeTag::Text => match yaml_as_text(node) {
            Some(s) => Ok(Some(FieldValue::Text(s))),
            None => Err(()),
        },
    }
}

/// The overlay that a parsed file mapping specifies for a file
/// projection: for each projected field in order, the interpreted value
/// of the mapping's entry under the field's name, or "not set" when the
/// mapping has no such entry.  A value of the wrong shape is an error
/// naming the field.
pub open spec fn spec_file_overlay(
    ps: Seq<ProjectedFieldV>,
    fields: Map<Seq<char>, YamlScalarV>,
) -> Result<Seq<Option<FieldValueV>>, Seq<char>>
    decreases ps.len(),
{
    if ps.len() == 0 {
        Ok(Seq::empty())
    } else {
        match spec_file_overlay(ps.drop_last(), fields) {
            Err(e) => Err(e),
            Ok(o) => {
                let f = ps.last();
                if !fields.dom().contains(f.name) {
                    Ok(o.push(None))
                } else {
                    match scalar_to_value(fields[f.name], f.ty) {
                        Ok(ov) => Ok(o.push(ov)),
                        Err(_) => Err(f.name),
                    }
                }
            },
        }
    }
}

/// An error on a prefix of the projected fields is the error of the whole
/// list.
proof fn lemma_file_overlay_err_prefix(
    ps: Seq<ProjectedFieldV>,
    fields: Map<Seq<char>, YamlScalarV>,
    j: int,
)
    requires
        0 <= j <= ps.len(),
        spec_file_overlay(ps.take(j), fields) is Err,
    ensures
        spec_file_overlay(ps, fields) == spec_file_overlay(ps.take(j), fields),
    decreases ps.len() - j,
{
    if j == ps.len() {
        assert(ps.take(j) =~= ps);
    } else {
        assert(ps.drop_last().take(j) =~= ps.take(j));
        lemma_file_overlay_err_prefix(ps.drop_last(), fields, j);
    }
}

/// A successfully interpreted file overlay is well-formed for its
/// projection.
proof fn lemma_file_overlay_wf(ps: Seq<ProjectedFieldV>, fields: Map<Seq<char>, YamlScalarV>)
    ensures
        spec_file_overlay(ps, fields) matches Ok(o) ==> overlay_wf(o, ps),
    decreases ps.len(),
{
    if ps.len() > 0 {
        lemma_file_overlay_wf(ps.drop_last(), fields);
        let r = spec_file_overlay(ps, fields);
        if r is Ok {
            let o = r->Ok_0;
            let rest = spec_file_overlay(ps.drop_last(), fields)->Ok_0;
            assert(overlay_wf(rest, ps.drop_last()));
            assert forall|k: int| 0 <= k < o.len() implies ((#[trigger] o[k]) matches Some(v)
                ==> tag_of(v) == ps[k].ty) by {
                if k < o.len() - 1 {
                    assert(o[k] == rest[k]);
                    assert(ps.drop_last()[k] == ps[k]);
                }
            }
        }
    }
}

/// Build the overlay that one parsed file mapping specifies.
#[verifier::loop_isolation(false)]
fn file_overlay_from_doc(proj: &ProjectedSchema, doc: &serde_yaml::Value) -> (r: Result<
    Overlay,
    String,
>)
    ensures
        match r {
            Ok(o) => spec_file_overlay(proj@.fields, yaml_fields(*doc)) == Ok::<
                Seq<Option<FieldValueV>>,
                Seq<char>,
            >(o@),
            Err(name) => spec_file_overlay(proj@.fields, yaml_fields(*doc)) == Err::<
                Seq<Option<FieldValueV>>,
                Seq<char>,
            >(name@),
        },
{
    let ghost ps = proj@.fields;
    let ghost fm = yaml_fields(*doc);
    let mut values: Vec<Option<FieldValue>> = Vec::new();
    proof {
        assert(ps.take(0) =~= Seq::<ProjectedFieldV>::empty());
        assert(values.deep_view() =~= Seq::<Option<FieldValueV>>::empty());
    }
    let mut i: usize = 0;
    while i < proj.fields.len()
        invariant
            i <= proj.fields.len(),
            spec_file_overlay(ps.take(i as int), fm) == Ok::<Seq<Option<FieldValueV>>, Seq<char>>(
                values.deep_view(),
            ),
        decreases proj.fields.len() - i,
    {
        let f = &proj.fields[i];
        proof {
            assert(f@ == ps[i as int]);
            assert(ps.take(i as int + 1).drop_last() =~= ps.take(i as int));
            assert(ps.take(i as int + 1).last() == ps[i as int]);
        }
        let entry = match yaml_get(doc, f.name.as_str()) {
            None => None,
            Some(node) => {
                match node_to_value(&node, f.ty) {
                    Ok(ov) => ov,
                    Err(_) => {
                        proof {
                            assert(spec_file_overlay(ps.take(i as int + 1), fm) == Err::<
                                Seq<Option<FieldValueV>>,
                                Seq<char>,
                            >(ps[i as int].name));
                            lemma_file_overlay_err_prefix(ps, fm, i as int + 1);
                        }
                        return Err(f.name.clone());
                    },
                }
            },
        };
        let ghost o0 = values.deep_view();
        proof {
            lemma_file_overlay_wf(ps.take(i as int), fm);
            assert(o0.len() == i as int);
        }
        values.push(entry);
        proof {
            assert(values.deep_view() =~= o0.push(entry.deep_view()));
        }
        i += 1;
    }
    proof {
        assert(ps.take(ps.len() as int) =~= ps);
    }
    Ok(Overlay { values })
}

/// What processing one file source does to the configuration: a missing
/// file changes nothing; a file that exists but could not be opened, a
/// file that is not one YAML mapping, and a field value of the wrong
/// shape each abort; otherwise the file's overlay is applied.
pub open spec fn spec_load_file(
    ps: Seq<ProjectedFieldV>,
    src: FileSourceV,
    c: Seq<FieldValueV>,
) -> Result<Seq<FieldValueV>, BuildIssueV> {
    match src.outcome {
        FileOutcomeV::Missing => Ok(c),
        FileOutcomeV::OpenFailed(m) => Err(BuildIssueV::FileOpen { path: src.path, message: m }),
        FileOutcomeV::Content(bytes) => match yaml_doc_model(bytes) {
            None => Err(BuildIssueV::FileParse { path: src.path }),
            Some(m) => if !(m.kind is Mapping) {
                Err(BuildIssueV::FileParse { path: src.path })
            } else {
                match spec_file_overlay(ps, m.fields) {
                    Err(name) => Err(BuildIssueV::FileField { path: src.path, field: name }),
                    Ok(o) => Ok(spec_apply(ps, o, c)),
                }
            },
        },
    }
}

/// Process one configuration-file source: skip a missing file; abort on a
/// file that could not be opened or whose content is not one YAML mapping
/// with well-shaped values; otherwise apply the file's overlay onto the
/// configuration.  On an error the configuration is unchanged.
pub fn load_file(cs: &CompiledSettings, src: &FileSource, cfg: &mut Config) -> (r: Result<
    (),
    BuildError,
>)
    requires
        cs_wf(cs@),
        config_wf(old(cfg)@, cs@.schema.fields),
    ensures
        config_wf(final(cfg)@, cs@.schema.fields),
        match r {
            Ok(_) => spec_load_file(cs@.file.fields, src@, old(cfg)@) == Ok::<
                Seq<FieldValueV>,
                BuildIssueV,
            >(final(cfg)@),
            Err(e) => {
                &&& spec_load_file(cs@.file.fields, src@, old(cfg)@) == Err::<
                    Seq<FieldValueV>,
                    BuildIssueV,
                >(issue_of(e@))
                &&& final(cfg)@ == old(cfg)@
            },
        },
{
    let ghost ps = cs@.file.fields;
    match &src.outcome {
        FileOutcome::Missing => Ok(()),
        FileOutcome::OpenFailed(m) => Err(
            BuildError::FileOpen { path: src.path.clone(), message: m.clone() },
        ),
        FileOutcome::Content(bytes) => {
            let doc = match yaml_parse(bytes) {
                Ok(d) => d,
                Err(m) => {
                    return Err(BuildError::FileParse { path: src.path.clone(), message: m });
                },
            };
            if !yaml_is_mapping(&doc) {
                return Err(
                    BuildError::FileParse {
                        path: src.path.clone(),
                        message: "the file is not a mapping of fields to values".to_owned(),
                    },
                );
            }
            let overlay = match file_overlay_from_doc(&cs.file, &doc) {
                Ok(o) => o,
                Err(name) => {
                    return Err(BuildError::FileField { path: src.path.clone(), field: name });
                },
            };
            let ghost o = overlay@;
            proof {
                lemma_file_overlay_wf(ps, yaml_fields(doc));
                lemma_apply_preserves_wf(ps, cs@.schema.fields, o, cfg@);
            }
            apply_overlay(&cs.file, overlay, cfg);
            Ok(())
        },
    }
}

/// The overlay that received command-line values specify for the first
/// `n` fields of the command-line projection: a received string must
/// parse as its field's type; a field that received nothing is "not set",
/// unless it is mandatory, which aborts.
pub open spec fn spec_cli_overlay_prefix(
    ps: Seq<ProjectedFieldV>,
    vals: Seq<Option<Seq<char>>>,
    n: int,
) -> Result<Seq<Option<FieldValueV>>, BuildIssueV>
    decreases n,
{
    if n <= 0 {
        Ok(Seq::empty())
    } else {
        match spec_cli_overlay_prefix(ps, vals, n - 1) {
            Err(e) => Err(e),
            Ok(o) => match vals[n - 1] {
                None => if ps[n - 1].mandatory {
                    Err(BuildIssueV::CliMissing { field: ps[n - 1].name })
                } else {
                    Ok(o.push(None))
                },
                Some(s) => match spec_parse_value(s, ps[n - 1].ty) {
                    Some(v) => Ok(o.push(Some(v))),
                    None => Err(BuildIssueV::CliField { field: ps[n - 1].name }),
                },
            },
        }
    }
}

/// The overlay that received command-line values specify.
pub open spec fn spec_cli_overlay(
    ps: Seq<ProjectedFieldV>,
    vals: Seq<Option<Seq<char>>>,
) -> Result<Seq<Option<FieldValueV>>, BuildIssueV> {
    spec_cli_overlay_prefix(ps, vals, ps.len() as int)
}

/// An error on a prefix of the fields is the error of the whole list.
proof fn lemma_cli_overlay_err_prefix(
    ps: Seq<ProjectedFieldV>,
    vals: Seq<Option<Seq<char>>>,
    n: int,
    m: int,
)
    requires
        0 <= n <= m,
        spec_cli_overlay_prefix(ps, vals, n) is Err,
    ensures
        spec_cli_overlay_prefix(ps, vals, m) == spec_cli_overlay_prefix(ps, vals, n),
    decreases m - n,
{
    if m > n {
        lemma_cli_overlay_err_prefix(ps, vals, n, m - 1);
    }
}

/// A successfully interpreted command-line overlay is well-formed for its
/// projection prefix.
proof fn lemma_cli_overlay_wf(ps: Seq<ProjectedFieldV>, vals: Seq<Option<Seq<char>>>, n: int)
    requires
        0 <= n <= ps.len(),
    ensures
        spec_cli_overlay_prefix(ps, vals, n) matches Ok(o) ==> {
            &&& o.len() == n
            &&& forall|k: int|
                0 <= k < n ==> ((#[trigger] o[k]) matches Some(v) ==> tag_of(v) == ps[k].ty)
        },
    decreases n,
{
    if n > 0 {
        lemma_cli_overlay_wf(ps, vals, n - 1);
    }
}

/// Mandatory fields are enforced on a prefix of the command-line
/// projection.
proof fn lemma_mandatory_enforced_prefix(
    ps: Seq<ProjectedFieldV>,
    vals: Seq<Option<Seq<char>>>,
    n: int,
)
    requires
        0 <= n <= ps.len(),
    ensures
        spec_cli_overlay_prefix(ps, vals, n) is Ok ==> forall|k: int|
            0 <= k < n && (#[trigger] ps[k]).mandatory ==> vals[k] is Some,
    decreases n,
{
    if n > 0 {
        lemma_mandatory_enforced_prefix(ps, vals, n - 1);
    }
}

/// Mandatory fields are enforced: the command-line stage produces an
/// overlay only when every mandatory field received a value, so a
/// mandatory field omitted from the command line fails the pipeline
/// before any configuration is returned.
pub proof fn lemma_mandatory_enforced(ps: Seq<ProjectedFieldV>, vals: Seq<Option<Seq<char>>>)
    ensures
        spec_cli_overlay(ps, vals) is Ok ==> forall|k: int|
            0 <= k < ps.len() && (#[trigger] ps[k]).mandatory ==> vals[k] is Some,
{
    lemma_mandatory_enforced_prefix(ps, vals, ps.len() as int);
}

/// Build the overlay that the received command-line values specify: each
/// received string must parse as its field's type, and every mandatory
/// field must have received a value.
#[verifier::loop_isolation(false)]
pub fn cli_overlay_from_values(proj: &ProjectedSchema, vals: &Vec<Option<String>>) -> (r: Result<
    Overlay,
    BuildError,
>)
    requires
        vals.deep_view().len() == proj@.fields.len(),
    ensures
        match r {
            Ok(o) => spec_cli_overlay(proj@.fields, vals.deep_view()) == Ok::<
                Seq<Option<FieldValueV>>,
                BuildIssueV,
            >(o@),
            Err(e) => spec_cli_overlay(proj@.fields, vals.deep_view()) == Err::<
                Seq<Option<FieldValueV>>,
                BuildIssueV,
            >(issue_of(e@)),
        },
{
    let ghost ps = proj@.fields;
    let ghost vs = vals.deep_view();
    let mut values: Vec<Option<FieldValue>> = Vec::new();
    proof {
        assert(values.deep_view() =~= Seq::<Option<FieldValueV>>::empty());
    }
    let mut i: usize = 0;
    while i < proj.fields.len()
        invariant
            i <= proj.fields.len(),
            spec_cli_overlay_prefix(ps, vs, i as int) == Ok::<
                Seq<Option<FieldValueV>>,
                BuildIssueV,
            >(values.deep_view()),
        decreases proj.fields.len() - i,
    {
        let f = &proj.fields[i];
        proof {
            assert(f@ == ps[i as int]);
            assert(vals.deep_view()[i as int] == vs[i as int]);
        }
        let entry = match &vals[i] {
            None => {
                if f.mandatory {
                    proof {
                        lemma_cli_overlay_err_prefix(ps, vs, i as int + 1, ps.len() as int);
                    }
                    return Err(BuildError::CliMissing { field: f.name.clone() });
                }
                None
            },
            Some(s) => {
                match parse_value(s.as_str(), f.ty) {
                    Some(v) => Some(v),
                    None => {
                        proof {
                            lemma_cli_overlay_err_prefix(ps, vs, i as int + 1, ps.len() as int);
                        }
                        return Err(BuildError::CliField { field: f.name.clone() });
                    },
                }
            },
        };
        let ghost o0 = values.deep_view();
        proof {
            lemma_cli_overlay_wf(ps, vs, i as int);
            assert(o0.len() == i as int);
        }
        values.push(entry);
        proof {
            assert(values.deep_view() =~= o0.push(entry.deep_view()));
        }
        i += 1;
    }
    Ok(Overlay { values })
}

/// The command-line grammar that a projection declares: each field's
/// name (its identifier and `--name` flag) with its short flag, in
/// declaration order.
pub open spec fn cli_decl(ps: Seq<ProjectedFieldV>) -> Seq<(Seq<char>, Option<char>)> {
    ps.map_values(|f: ProjectedFieldV| (f.name, f.short))
}

/// Parse the command-line arguments and apply what they specify onto the
/// configuration.
///
/// One `--name` flag (plus the declared one-letter short flag, if any) is
/// declared per command-line field; the token grammar itself — flags,
/// `=`-values, token order — is the command-line collaborator's, and
/// `cli_parse_model` names its verdict on the actual tokens (the first
/// token is the binary name).  This succeeds exactly when the grammar
/// accepts the tokens and every received value is well-shaped, and then
/// applies exactly the overlay the tokens specify.  On any error the
/// configuration is unchanged: a grammar-level rejection carries the
/// collaborator's usage-style message; a value of the wrong shape and a
/// missing mandatory field are detected here and name their field.
#[verifier::loop_isolation(false)]
pub fn parse_cli_args(cs: &CompiledSettings, args: Vec<String>, cfg: &mut Config) -> (r: Result<
    (),
    BuildError,
>)
    requires
        cs_wf(cs@),
        config_wf(old(cfg)@, cs@.schema.fields),
    ensures
        config_wf(final(cfg)@, cs@.schema.fields),
        match r {
            Ok(_) => cli_parse_model(cli_decl(cs@.cli.fields), args.deep_view()) matches Some(
                vals,
            ) && spec_cli_overlay(cs@.cli.fields, vals) matches Ok(o) && final(cfg)@ == spec_apply(
                cs@.cli.fields,
                o,
                old(cfg)@,
            ),
            Err(e) => {
                &&& final(cfg)@ == old(cfg)@
                &&& match cli_parse_model(cli_decl(cs@.cli.fields), args.deep_view()) {
                    None => issue_of(e@) is CliParse,
                    Some(vals) => spec_cli_overlay(cs@.cli.fields, vals) == Err::<
                        Seq<Option<FieldValueV>>,
                        BuildIssueV,
                    >(issue_of(e@)),
                }
            },
        },
{
    let ghost ps = cs@.cli.fields;
    let ghost fs = cs@.schema.fields;
    let ghost decl = cli_decl(ps);
    proof {
        assert forall|k1: int, k2: int| 0 <= k1 < k2 < ps.len() implies (
        #[trigger] ps[k1]).name != (#[trigger] ps[k2]).name by {
            assert(crate::schema::fields_wf(fs));
            assert(ps[k1].main_index < ps[k2].main_index);
            assert(fs[ps[k1].main_index].name != fs[ps[k2].main_index].name);
        }
        assert forall|k1: int, k2: int|
            0 <= k1 < k2 < ps.len() && (#[trigger] ps[k1]).short is Some implies ps[k1].short != (
        #[trigger] ps[k2]).short by {
            assert(ps[k1].main_index < ps[k2].main_index);
            assert(crate::schema::field_wf(fs[ps[k1].main_index]));
        }
        assert forall|k: int| 0 <= k < ps.len() implies (#[trigger] ps[k]).name.len() > 0
            && ps[k].name[0] != '-' && (ps[k].short is Some ==> ps[k].short != Some('-')) by {
            assert(crate::schema::field_wf(fs[ps[k].main_index]));
        }
    }
    let mut cmd = cmd_new(cs.schema.name.as_str());
    proof {
        assert(cmd_args_list(cmd) =~= decl.take(0));
    }
    let mut i: usize = 0;
    while i < cs.cli.fields.len()
        invariant
            i <= cs.cli.fields.len(),
            cmd_ok(cmd),
            cmd_args_list(cmd) == decl.take(i as int),
        decreases cs.cli.fields.len() - i,
    {
        let f = &cs.cli.fields[i];
        proof {
            assert(f@ == ps[i as int]);
            assert(decl[i as int] == (ps[i as int].name, ps[i as int].short));
            assert forall|k: int| 0 <= k < cmd_args_list(cmd).len() implies (
            #[trigger] cmd_args_list(cmd)[k]).0 != ps[i as int].name by {
                assert(cmd_args_list(cmd)[k] == decl[k]);
                assert(decl[k].0 == ps[k].name);
            }
            match ps[i as int].short {
                Some(sh) => {
                    assert forall|k: int| 0 <= k < cmd_args_list(cmd).len() implies (
                    #[trigger] cmd_args_list(cmd)[k]).1 != Some(sh) by {
                        assert(cmd_args_list(cmd)[k] == decl[k]);
                        assert(decl[k].1 == ps[k].short);
                    }
                },
                None => {},
            }
        }
        let mut arg = arg_flag(f.name.as_str());
        match f.short {
            Some(c) => {
                arg = arg_with_short(arg, c);
            },
            None => {},
        }
        cmd = cmd_arg(cmd, arg);
        proof {
            assert(cmd_args_list(cmd) =~= decl.take(i as int + 1));
        }
        i += 1;
    }
    proof {
        assert(decl.take(decl.len() as int) =~= decl);
    }
    let m = match cmd_try_parse(cmd, args) {
        Ok(m) => m,
        Err(message) => {
            return Err(BuildError::CliParse { message });
        },
    };
    let ghost model = cli_parse_model(decl, args.deep_view())->Some_0;
    let mut vals: Vec<Option<String>> = Vec::new();
    proof {
        assert(vals.deep_view() =~= Seq::<Option<Seq<char>>>::empty());
    }
    let mut i: usize = 0;
    while i < cs.cli.fields.len()
        invariant
            i <= cs.cli.fields.len(),
            vals.deep_view().len() == i,
            forall|k: int|
                0 <= k < i ==> #[trigger] vals.deep_view()[k] == matches_value(m, ps[k].name),
        decreases cs.cli.fields.len() - i,
    {
        let f = &cs.cli.fields[i];
        proof {
            assert(f@ == ps[i as int]);
            assert(matches_decl(m)[i as int].0 == ps[i as int].name);
        }
        let v = matches_get(&m, f.name.as_str());
        let ghost vs0 = vals.deep_view();
        vals.push(v);
        proof {
            assert(vals.deep_view() =~= vs0.push(v.deep_view()));
        }
        i += 1;
    }
    let ghost vsv = vals.deep_view();
    proof {
        assert forall|k: int| 0 <= k < ps.len() implies vsv[k] == model[k] by {
            assert(vsv[k] == matches_value(m, ps[k].name));
            assert(decl[k].0 == ps[k].name);
            assert(matches_value(m, decl[k].0) == model[k]);
        }
        assert(vsv =~= model);
    }
    let overlay = match cli_overlay_from_values(&cs.cli, &vals) {
        Ok(o) => o,
        Err(e) => {
            proof {
                assert(spec_cli_overlay(ps, model) == Err::<Seq<Option<FieldValueV>>, BuildIssueV>(
                    issue_of(e@),
                ));
            }
            return Err(e);
        },
    };
    let ghost o = overlay@;
    proof {
        lemma_cli_overlay_wf(ps, vsv, ps.len() as int);
        lemma_apply_preserves_wf(ps, fs, o, cfg@);
    }
    apply_overlay(&cs.cli, overlay, cfg);
    proof {
        assert(spec_cli_overlay(cs@.cli.fields, model) matches Ok(oo) && final(cfg)@ == spec_apply(
            cs@.cli.fields,
            oo,
            old(cfg)@,
        ));
    }
    Ok(())
}


/// What processing a list of file sources, in order, does to the
/// configuration.
pub open spec fn spec_apply_files(
    ps: Seq<ProjectedFieldV>,
    files: Seq<FileSourceV>,
    c: Seq<FieldValueV>,
) -> Result<Seq<FieldValueV>, BuildIssueV>
    decreases files.len(),
{
    if files.len() == 0 {
        Ok(c)
    } else {
        match spec_load_file(ps, files[0], c) {
            Err(e) => Err(e),
            Ok(c2) => spec_apply_files(ps, files.drop_first(), c2),
        }
    }
}

/// Build the final configuration value: start from the defaults, apply
/// each file source in the order given (a missing file contributes
/// nothing), then parse the command-line arguments and apply them.
///
/// Precedence is strict and total: later file sources override earlier
/// ones, and the command line overrides every file; a field absent from
/// every source keeps its constructed default.
#[verifier::loop_isolation(false)]
pub fn build(cs: &CompiledSettings, files: &Vec<FileSource>, args: Vec<String>) -> (r: Result<
    Config,
    BuildError,
>)
    requires
        cs_wf(cs@),
    ensures
        match r {
            Ok(cfg) => {
                &&& config_wf(cfg@, cs@.schema.fields)
                &&& spec_apply_files(
                    cs@.file.fields,
                    files.deep_view(),
                    spec_default(cs@.schema.fields),
                ) matches Ok(mid) && cli_parse_model(cli_decl(cs@.cli.fields), args.deep_view())
                    matches Some(vals) && spec_cli_overlay(cs@.cli.fields, vals) matches Ok(o)
                    && cfg@ == spec_apply(cs@.cli.fields, o, mid)
            },
            Err(e) => {
                let files_r = spec_apply_files(
                    cs@.file.fields,
                    files.deep_view(),
                    spec_default(cs@.schema.fields),
                );
                ||| files_r == Err::<Seq<FieldValueV>, BuildIssueV>(issue_of(e@))
                ||| (files_r is Ok && match cli_parse_model(
                    cli_decl(cs@.cli.fields),
                    args.deep_view(),
                ) {
                    None => issue_of(e@) is CliParse,
                    Some(vals) => spec_cli_overlay(cs@.cli.fields, vals) == Err::<
                        Seq<Option<FieldValueV>>,
                        BuildIssueV,
                    >(issue_of(e@)),
                })
            },
        },
{
    let ghost psf = cs@.file.fields;
    let ghost fsv = files.deep_view();
    let ghost c0 = spec_default(cs@.schema.fields);
    let mut cfg = default_config(&cs.schema);
    proof {
        assert(fsv.skip(0) =~= fsv);
    }
    let mut i: usize = 0;
    while i < files.len()
        invariant
            i <= files.len(),
            config_wf(cfg@, cs@.schema.fields),
            spec_apply_files(psf, fsv.skip(i as int), cfg@) == spec_apply_files(psf, fsv, c0),
        decreases files.len() - i,
    {
        proof {
            assert(fsv.skip(i as int)[0] == fsv[i as int]);
            assert(files[i as int]@ == fsv[i as int]);
            assert(fsv.skip(i as int).drop_first() =~= fsv.skip(i as int + 1));
        }
        match load_file(cs, &files[i], &mut cfg) {
            Ok(_) => {},
            Err(e) => {
                return Err(e);
            },
        }
        i += 1;
    }
    proof {
        assert(fsv.skip(fsv.len() as int) =~= Seq::<FileSourceV>::empty());
    }
    match parse_cli_args(cs, args, &mut cfg) {
        Ok(_) => Ok(cfg),
        Err(e) => Err(e),
    }
}

/// Missing-file tolerance: a file source that does not exist can be
/// dropped from the list without changing what the pipeline produces —
/// it sets no field and raises no error.
pub proof fn lemma_missing_file_tolerance(
    ps: Seq<ProjectedFieldV>,
    files: Seq<FileSourceV>,
    c: Seq<FieldValueV>,
    i: int,
)
    requires
        0 <= i < files.len(),
        files[i].outcome is Missing,
    ensures
        spec_apply_files(ps, files, c) == spec_apply_files(ps, files.remove(i), c),
    decreases i,
{
    if i == 0 {
        assert(spec_load_file(ps, files[0], c) == Ok::<Seq<FieldValueV>, BuildIssueV>(c));
        assert(files.remove(0) =~= files.drop_first());
    } else {
        assert(files.remove(i)[0] == files[0]);
        match spec_load_file(ps, files[0], c) {
            Err(_) => {
            },
            Ok(c2) => {
                assert(files.drop_first()[i - 1].outcome is Missing);
                lemma_missing_file_tolerance(ps, files.drop_first(), c2, i - 1);
                assert(files.remove(i).drop_first() =~= files.drop_first().remove(i - 1));
            },
        }
    }
}

/// Command-line precedence: a field that the command line sets ends at
/// the command line's value, whatever the defaults held and whatever the
/// files set before.
pub proof fn lemma_cli_precedence(
    ps_cli: Seq<ProjectedFieldV>,
    o_cli: Seq<Option<FieldValueV>>,
    mid: Seq<FieldValueV>,
    k: int,
)
    requires
        o_cli.len() == ps_cli.len(),
        forall|k1: int, k2: int|
            0 <= k1 < k2 < ps_cli.len() ==> (#[trigger] ps_cli[k1]).main_index != (
            #[trigger] ps_cli[k2]).main_index,
        0 <= k < ps_cli.len(),
        0 <= ps_cli[k].main_index < mid.len(),
        o_cli[k] is Some,
    ensures
        spec_apply(ps_cli, o_cli, mid)[ps_cli[k].main_index] == o_cli[k]->Some_0,
{
    crate::merge::lemma_overlay_overrides(ps_cli, o_cli, mid, k);
}

} // verus!
