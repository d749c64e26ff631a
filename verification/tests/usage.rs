//! Usage of the settings pipeline with a simple but exhaustive example.

use cli_settings::compile::{cli_settings, CompiledSettings};
use cli_settings::directives::{Payload, RawDirective};
use cli_settings::model::{FieldValue, TypeTag};
use cli_settings::pipeline::{default_config, FileOutcome, FileSource};
use cli_settings::schema::{FieldDecl, SchemaDecl};

fn dir(name: &str, payload: Payload) -> RawDirective {
    RawDirective {
        name: name.to_string(),
        payload,
    }
}

fn field(
    name: &str,
    ty: TypeTag,
    directives: Vec<RawDirective>,
    short: Option<char>,
    mandatory: bool,
) -> FieldDecl {
    FieldDecl {
        name: name.to_string(),
        ty,
        public: true,
        directives,
        short,
        mandatory,
    }
}

/// The schema of the example: five fields of mixed provenance.
fn settings_schema() -> CompiledSettings {
    let decl = SchemaDecl {
        name: "Settings".to_string(),
        public: true,
        directives: vec![
            dir("file", Payload::Text("#[serde_with::serde_as]#[derive(serde::Deserialize)]".to_string())),
            dir("cli", Payload::Text("#[derive(clap::Parser)]#[command(version)]".to_string())),
        ],
        fields: vec![
            field(
                "alpha",
                TypeTag::Bool,
                vec![
                    dir("doc", Payload::Text("alpha setting explanation".to_string())),
                    dir("file", Payload::Empty),
                    dir("cli", Payload::Text("#[arg(long)]".to_string())),
                ],
                None,
                false,
            ),
            field(
                "beta",
                TypeTag::Text,
                vec![
                    dir("doc", Payload::Text("beta setting explanation".to_string())),
                    dir(
                        "default",
                        Payload::FieldValue(FieldValue::Text("beta default value".to_string())),
                    ),
                    dir("cli", Payload::Text("#[arg(long)]".to_string())),
                ],
                None,
                false,
            ),
            field(
                "gamma",
                TypeTag::U64,
                vec![
                    dir("doc", Payload::Text("gamma setting explanation".to_string())),
                    dir("default", Payload::FieldValue(FieldValue::U64(1 << 63))),
                    dir("file", Payload::Empty),
                ],
                None,
                false,
            ),
            field(
                "delta",
                TypeTag::U32,
                vec![
                    dir("doc", Payload::Text("delta setting explanation".to_string())),
                    dir("default", Payload::FieldValue(FieldValue::U32(42))),
                    dir("file", Payload::Empty),
                ],
                None,
                false,
            ),
            field(
                "epsilon",
                TypeTag::U32,
                vec![
                    dir("doc", Payload::Text("epsilon setting explanation".to_string())),
                    dir("file", Payload::Empty),
                    dir("cli", Payload::Text("#[arg(short, long)]".to_string())),
                ],
                Some('e'),
                false,
            ),
        ],
    };
    cli_settings(&decl).expect("the example schema is well-formed")
}

/// Test the baseline value: every field at its declared default, else the
/// type's zero value.
#[test]
pub fn default() {
    let cs = settings_schema();
    let cfg = default_config(&cs.schema);
    let expected = vec![
        FieldValue::Bool(false),
        FieldValue::Text("beta default value".to_string()),
        FieldValue::U64(1 << 63),
        FieldValue::U32(42),
        FieldValue::U32(0),
    ];
    assert_eq!(cfg.values, expected);
}

fn content(path: &str, text: &str) -> FileSource {
    FileSource {
        path: path.to_string(),
        outcome: FileOutcome::Content(text.as_bytes().to_vec()),
    }
}

fn missing(path: &str) -> FileSource {
    FileSource {
        path: path.to_string(),
        outcome: FileOutcome::Missing,
    }
}

fn args(tokens: &[&str]) -> Vec<String> {
    tokens.iter().map(|t| t.to_string()).collect()
}

/// Load several files, then command-line arguments, and check that the
/// overall configuration is the expected one.
#[test]
pub fn build() {
    let cs = settings_schema();
    let files = vec![
        content("usage1.yml", "gamma: 728\ndelta: 99\nepsilon: 500\n"),
        missing("usage-does-not-exist.yml"),
        content("usage2.yml", "delta: 32\nepsilon: 1024\n"),
    ];
    let cfg = cli_settings::pipeline::build(
        &cs,
        &files,
        args(&["test-bin", "--beta=something", "-e", "1024"]),
    )
    .expect("the pipeline succeeds");
    let expected = vec![
        FieldValue::Bool(false),                         // default value
        FieldValue::Text("something".to_string()),       // set by command line
        FieldValue::U64(728),                            // set by one config file
        FieldValue::U32(32),                             // set by several config files
        FieldValue::U32(1024),                           // set by config file and command line
    ];
    assert_eq!(cfg.values, expected);
}
