//! Compiling a schema declaration: classify and validate the declaration,
//! then derive the three synchronized projections — the main value schema,
//! the file-overlay schema and the command-line-overlay schema.

use vstd::prelude::*;

use crate::project::{
    proj_fields_wf, project, spec_project, Dest, ProjectedSchema, ProjectedSchemaV,
};
use crate::schema::{
    build_schema, schema_wf, spec_build_schema, SchemaDecl, SchemaSpec, SchemaSpecV,
};
use crate::directives::{SchemaError, SchemaErrorV};

verus! {

/// A compiled schema: the validated model and its three projections.
///
/// The projections are structurally derived from the one field list and
/// cannot drift from each other: each one equals `spec_project` of the
/// same schema model.
pub struct CompiledSettings {
    /// The classified, validated schema model.
    pub schema: SchemaSpec,
    /// The main-value projection: every field, with its configured type.
    pub main: ProjectedSchema,
    /// The file-overlay projection.
    pub file: ProjectedSchema,
    /// The command-line-overlay projection.
    pub cli: ProjectedSchema,
}

/// Mathematical model of a `CompiledSettings`.
#[verifier::ext_equal]
pub struct CompiledSettingsV {
    pub schema: SchemaSpecV,
    pub main: ProjectedSchemaV,
    pub file: ProjectedSchemaV,
    pub cli: ProjectedSchemaV,
}

impl View for CompiledSettings {
    type V = CompiledSettingsV;

    open spec fn view(&self) -> CompiledSettingsV {
        CompiledSettingsV {
            schema: self.schema@,
            main: self.main@,
            file: self.file@,
            cli: self.cli@,
        }
    }
}

/// Validity of a compiled schema: the model is valid and each projection
/// is exactly the model's projection for its destination.
pub open spec fn cs_wf(cs: CompiledSettingsV) -> bool {
    &&& schema_wf(cs.schema)
    &&& cs.main == spec_project(cs.schema, Dest::Main)
    &&& cs.file == spec_project(cs.schema, Dest::File)
    &&& cs.cli == spec_project(cs.schema, Dest::Cli)
    &&& proj_fields_wf(cs.main.fields, cs.schema.fields, Dest::Main)
    &&& proj_fields_wf(cs.file.fields, cs.schema.fields, Dest::File)
    &&& proj_fields_wf(cs.cli.fields, cs.schema.fields, Dest::Cli)
}

/// The three projections cannot drift from each other: they are derived
/// from the one field list of the schema model.  The main projection
/// carries every schema field, in order and in place; every field of an
/// overlay projection points at a main-projection field that carries the
/// same name and the same type.
pub proof fn lemma_projections_synchronized(cs: CompiledSettingsV)
    requires
        cs_wf(cs),
    ensures
        cs.main.fields.len() == cs.schema.fields.len(),
        forall|j: int|
            0 <= j < cs.schema.fields.len() ==> {
                &&& (#[trigger] cs.main.fields[j]).main_index == j
                &&& cs.main.fields[j].name == cs.schema.fields[j].name
                &&& cs.main.fields[j].ty == cs.schema.fields[j].ty
            },
        forall|k: int|
            0 <= k < cs.file.fields.len() ==> {
                let j = (#[trigger] cs.file.fields[k]).main_index;
                &&& 0 <= j < cs.main.fields.len()
                &&& cs.file.fields[k].name == cs.main.fields[j].name
                &&& cs.file.fields[k].ty == cs.main.fields[j].ty
            },
        forall|k: int|
            0 <= k < cs.cli.fields.len() ==> {
                let j = (#[trigger] cs.cli.fields[k]).main_index;
                &&& 0 <= j < cs.main.fields.len()
                &&& cs.cli.fields[k].name == cs.main.fields[j].name
                &&& cs.cli.fields[k].ty == cs.main.fields[j].ty
            },
{
    crate::project::lemma_main_projects_all(cs.schema.fields);
}

/// Compile one declarative schema description.
///
/// The directives of the schema and of each field are classified and
/// validated; a malformed directive, a duplicate field name, a duplicate
/// short flag, an ill-typed default and the other schema errors abort the
/// compilation.  On success, the three projections are derived from the
/// validated model.
pub fn cli_settings(decl: &SchemaDecl) -> (r: Result<CompiledSettings, SchemaError>)
    ensures
        match r {
            Ok(cs) => {
                &&& spec_build_schema(decl@) == Ok::<SchemaSpecV, SchemaErrorV>(cs@.schema)
                &&& cs_wf(cs@)
            },
            Err(e) => spec_build_schema(decl@) == Err::<SchemaSpecV, SchemaErrorV>(e@),
        },
{
    let schema = match build_schema(decl) {
        Ok(s) => s,
        Err(e) => {
            return Err(e);
        },
    };
    let main = project(&schema, Dest::Main);
    let file = project(&schema, Dest::File);
    let cli = project(&schema, Dest::Cli);
    Ok(CompiledSettings { schema, main, file, cli })
}

} // verus!
