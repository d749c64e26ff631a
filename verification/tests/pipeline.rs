//! The resolution pipeline: precedence, tolerance and error reporting.

use cli_settings::compile::{cli_settings, CompiledSettings};
use cli_settings::directives::{Payload, RawDirective};
use cli_settings::model::{FieldValue, TypeTag};
use cli_settings::pipeline::{build, cli_overlay_from_values, BuildError, FileOutcome, FileSource};
use cli_settings::schema::{FieldDecl, SchemaDecl};

fn dir(name: &str, payload: Payload) -> RawDirective {
    RawDirective {
        name: name.to_string(),
        payload,
    }
}

fn field(
    name: &str,
    ty: TypeTag,
    directives: Vec<RawDirective>,
    short: Option<char>,
    mandatory: bool,
) -> FieldDecl {
    FieldDecl {
        name: name.to_string(),
        ty,
        public: true,
        directives,
        short,
        mandatory,
    }
}

/// The scenario schema: `alpha: u32 (file+cli)`, `beta: string (cli only,
/// default "beta default value")`, `gamma: u64 (file only, default
/// 1<<63)`, `delta: u32 (file only, default 42)`, `epsilon: u32
/// (file+cli, default 0)`.
fn scenario_schema() -> CompiledSettings {
    let decl = SchemaDecl {
        name: "Settings".to_string(),
        public: true,
        directives: vec![],
        fields: vec![
            field(
                "alpha",
                TypeTag::U32,
                vec![dir("file", Payload::Empty), dir("cli", Payload::Empty)],
                None,
                false,
            ),
            field(
                "beta",
                TypeTag::Text,
                vec![
                    dir(
                        "default",
                        Payload::FieldValue(FieldValue::Text("beta default value".to_string())),
                    ),
                    dir("cli", Payload::Empty),
                ],
                None,
                false,
            ),
            field(
                "gamma",
                TypeTag::U64,
                vec![
                    dir("default", Payload::FieldValue(FieldValue::U64(1 << 63))),
                    dir("file", Payload::Empty),
                ],
                None,
                false,
            ),
            field(
                "delta",
                TypeTag::U32,
                vec![
                    dir("default", Payload::FieldValue(FieldValue::U32(42))),
                    dir("file", Payload::Empty),
                ],
                None,
                false,
            ),
            field(
                "epsilon",
                TypeTag::U32,
                vec![
                    dir("default", Payload::FieldValue(FieldValue::U32(0))),
                    dir("file", Payload::Empty),
                    dir("cli", Payload::Empty),
                ],
                Some('e'),
                false,
            ),
        ],
    };
    cli_settings(&decl).expect("the scenario schema is well-formed")
}

fn content(path: &str, text: &str) -> FileSource {
    FileSource {
        path: path.to_string(),
        outcome: FileOutcome::Content(text.as_bytes().to_vec()),
    }
}

fn missing(path: &str) -> FileSource {
    FileSource {
        path: path.to_string(),
        outcome: FileOutcome::Missing,
    }
}

fn args(tokens: &[&str]) -> Vec<String> {
    tokens.iter().map(|t| t.to_string()).collect()
}

fn file1() -> FileSource {
    content("file1.yml", "gamma: 728\ndelta: 99\nepsilon: 500\n")
}

fn file3() -> FileSource {
    content("file3.yml", "delta: 32\nepsilon: 1024\n")
}

/// The concrete end-to-end scenario: two files (one of them missing in
/// between) and command-line arguments.
#[test]
fn scenario_three_sources() {
    let cs = scenario_schema();
    let files = vec![file1(), missing("file2.yml"), file3()];
    let cfg = build(&cs, &files, args(&["test-bin", "--beta=something", "-e", "1024"]))
        .expect("the pipeline succeeds");
    let expected = vec![
        FieldValue::U32(0),
        FieldValue::Text("something".to_string()),
        FieldValue::U64(728),
        FieldValue::U32(32),
        FieldValue::U32(1024),
    ];
    assert_eq!(cfg.values, expected);
}

/// Missing-file tolerance: a nonexistent path changes no field and
/// produces no error.
#[test]
fn missing_file_changes_nothing() {
    let cs = scenario_schema();
    let none: Vec<FileSource> = vec![];
    let base = build(&cs, &none, args(&["bin"])).expect("no sources");
    let with_missing = build(&cs, &vec![missing("ghost.yml")], args(&["bin"]))
        .expect("a missing file is not an error");
    assert_eq!(base.values, with_missing.values);
    assert_eq!(
        base.values,
        vec![
            FieldValue::U32(0),
            FieldValue::Text("beta default value".to_string()),
            FieldValue::U64(1 << 63),
            FieldValue::U32(42),
            FieldValue::U32(0),
        ]
    );
}

/// Idempotence: applying the same file overlay twice yields the same
/// result as applying it once.
#[test]
fn same_file_twice_is_once() {
    let cs = scenario_schema();
    let once = build(&cs, &vec![file1()], args(&["bin"])).expect("once");
    let twice = build(&cs, &vec![file1(), file1()], args(&["bin"])).expect("twice");
    assert_eq!(once.values, twice.values);
}

/// Order sensitivity: when two files both set one field, the later file
/// wins.
#[test]
fn later_file_wins() {
    let cs = scenario_schema();
    let forward = build(&cs, &vec![file1(), file3()], args(&["bin"])).expect("forward");
    let backward = build(&cs, &vec![file3(), file1()], args(&["bin"])).expect("backward");
    assert_eq!(forward.values[3], FieldValue::U32(32));
    assert_eq!(backward.values[3], FieldValue::U32(99));
}

/// Command-line precedence: a field set by both a file and the command
/// line ends at the command-line value.
#[test]
fn cli_overrides_files() {
    let cs = scenario_schema();
    let cfg = build(&cs, &vec![file1()], args(&["bin", "-e", "7"])).expect("cli wins");
    assert_eq!(cfg.values[4], FieldValue::U32(7));
}

/// Partial overlays: a file that sets a subset of its eligible fields
/// leaves the others at their pre-existing values.
#[test]
fn partial_overlay_keeps_other_fields() {
    let cs = scenario_schema();
    let cfg = build(&cs, &vec![content("only-delta.yml", "delta: 7\n")], args(&["bin"]))
        .expect("partial file");
    assert_eq!(
        cfg.values,
        vec![
            FieldValue::U32(0),
            FieldValue::Text("beta default value".to_string()),
            FieldValue::U64(1 << 63),
            FieldValue::U32(7),
            FieldValue::U32(0),
        ]
    );
}

/// Mandatory-field scenario: a cli-only mandatory field omitted from the
/// arguments fails the build before any value is returned.
#[test]
fn mandatory_field_missing_fails() {
    let decl = SchemaDecl {
        name: "S".to_string(),
        public: true,
        directives: vec![],
        fields: vec![field("token", TypeTag::Text, vec![dir("cli", Payload::Empty)], None, true)],
    };
    let cs = cli_settings(&decl).expect("well-formed");
    let r = build(&cs, &vec![], args(&["bin"]));
    assert!(matches!(r, Err(BuildError::CliMissing { ref field }) if field == "token"));
    let ok = build(&cs, &vec![], args(&["bin", "--token", "abc"])).expect("supplied");
    assert_eq!(ok.values, vec![FieldValue::Text("abc".to_string())]);
}

/// A file that exists but cannot be opened fails the pipeline with the
/// path and the reader's message.
#[test]
fn open_failure_is_fatal() {
    let cs = scenario_schema();
    let src = FileSource {
        path: "locked.yml".to_string(),
        outcome: FileOutcome::OpenFailed("permission denied".to_string()),
    };
    let r = build(&cs, &vec![src], args(&["bin"]));
    assert!(matches!(
        r,
        Err(BuildError::FileOpen { ref path, ref message })
            if path == "locked.yml" && message == "permission denied"
    ));
}

/// Malformed file content fails the pipeline with the path.
#[test]
fn malformed_yaml_is_fatal() {
    let cs = scenario_schema();
    let r = build(&cs, &vec![content("bad.yml", "delta: [unclosed\n")], args(&["bin"]));
    assert!(matches!(r, Err(BuildError::FileParse { ref path, .. }) if path == "bad.yml"));
}

/// File content that is not a mapping of fields fails the pipeline.
#[test]
fn non_mapping_yaml_is_fatal() {
    let cs = scenario_schema();
    let r = build(&cs, &vec![content("scalar.yml", "42\n")], args(&["bin"]));
    assert!(matches!(r, Err(BuildError::FileParse { ref path, .. }) if path == "scalar.yml"));
}

/// A file value of the wrong shape fails the pipeline and names the
/// field.
#[test]
fn wrong_typed_file_value_is_fatal() {
    let cs = scenario_schema();
    let r = build(&cs, &vec![content("bad-delta.yml", "delta: hello\n")], args(&["bin"]));
    assert!(matches!(
        r,
        Err(BuildError::FileField { ref path, ref field })
            if path == "bad-delta.yml" && field == "delta"
    ));
}

/// A file value past the field's range fails the pipeline and names the
/// field.
#[test]
fn out_of_range_file_value_is_fatal() {
    let cs = scenario_schema();
    let r = build(&cs, &vec![content("big.yml", "delta: 4294967296\n")], args(&["bin"]));
    assert!(matches!(
        r,
        Err(BuildError::FileField { ref field, .. }) if field == "delta"
    ));
}

/// An explicit null in a file means "not set", as an absent key does.
#[test]
fn null_file_value_means_absent() {
    let cs = scenario_schema();
    let cfg = build(&cs, &vec![content("null.yml", "delta: null\n")], args(&["bin"]))
        .expect("null is not an error");
    assert_eq!(cfg.values[3], FieldValue::U32(42));
}

/// A file may set a key the file schema does not know; it is ignored.
#[test]
fn unknown_file_key_is_ignored() {
    let cs = scenario_schema();
    // beta participates only in the command line; zeta does not exist.
    let cfg = build(
        &cs,
        &vec![content("extra.yml", "beta: sneaky\nzeta: 3\ndelta: 5\n")],
        args(&["bin"]),
    )
    .expect("unknown keys are ignored");
    assert_eq!(cfg.values[1], FieldValue::Text("beta default value".to_string()));
    assert_eq!(cfg.values[3], FieldValue::U32(5));
}

/// An unknown command-line flag fails the pipeline with a usage-style
/// message.
#[test]
fn unknown_cli_flag_is_fatal() {
    let cs = scenario_schema();
    let r = build(&cs, &vec![], args(&["bin", "--nonsense", "1"]));
    match r {
        Err(BuildError::CliParse { message }) => assert!(!message.is_empty()),
        other => panic!("expected a command-line parse error, got {:?}", other.is_ok()),
    }
}

/// A command-line value of the wrong shape fails the pipeline and names
/// the field.
#[test]
fn wrong_typed_cli_value_is_fatal() {
    let cs = scenario_schema();
    let r = build(&cs, &vec![], args(&["bin", "--alpha", "many"]));
    assert!(matches!(r, Err(BuildError::CliField { ref field }) if field == "alpha"));
}

/// The command-line overlay interpreter, applied to received values
/// directly: present strings parse per field type, absent optional fields
/// stay unset, and a wrong-shaped string names its field.
#[test]
fn cli_overlay_interpretation() {
    let cs = scenario_schema();
    // The command-line projection holds alpha, beta and epsilon.
    let vals = vec![Some("12".to_string()), None, Some("1024".to_string())];
    let o = cli_overlay_from_values(&cs.cli, &vals).expect("well-shaped values");
    assert_eq!(
        o.values,
        vec![Some(FieldValue::U32(12)), None, Some(FieldValue::U32(1024))]
    );
    let bad = cli_overlay_from_values(&cs.cli, &vec![Some("x".to_string()), None, None]);
    assert!(matches!(bad, Err(BuildError::CliField { ref field }) if field == "alpha"));
}

/// No automatic flags stand beside the declared grammar: a field named
/// `version` (or carrying the short flag `V`) is an ordinary field, and
/// the tokens `--version`/`-V` mean that field and nothing else.
#[test]
fn version_named_field_is_ordinary() {
    let decl = SchemaDecl {
        name: "S".to_string(),
        public: true,
        directives: vec![],
        fields: vec![field(
            "version",
            TypeTag::Text,
            vec![dir("cli", Payload::Empty)],
            Some('V'),
            false,
        )],
    };
    let cs = cli_settings(&decl).expect("well-formed");
    let cfg = build(&cs, &vec![], args(&["bin", "--version", "1.2.3"])).expect("ordinary flag");
    assert_eq!(cfg.values, vec![FieldValue::Text("1.2.3".to_string())]);
    let cfg = build(&cs, &vec![], args(&["bin", "-V", "2.0"])).expect("ordinary short flag");
    assert_eq!(cfg.values, vec![FieldValue::Text("2.0".to_string())]);
}

/// A signed field takes negative values from a file and from the command
/// line; a negative value for an unsigned field is rejected with the
/// field's name.
#[test]
fn signed_field_values() {
    let decl = SchemaDecl {
        name: "S".to_string(),
        public: true,
        directives: vec![],
        fields: vec![
            field(
                "temp",
                TypeTag::I64,
                vec![dir("file", Payload::Empty), dir("cli", Payload::Empty)],
                None,
                false,
            ),
            field("count", TypeTag::U32, vec![dir("file", Payload::Empty)], None, false),
        ],
    };
    let cs = cli_settings(&decl).expect("well-formed");
    let cfg = build(&cs, &vec![content("s.yml", "temp: -40\ncount: 3\n")], args(&["bin"]))
        .expect("file applies");
    assert_eq!(cfg.values, vec![FieldValue::I64(-40), FieldValue::U32(3)]);

    let cfg = build(&cs, &vec![], args(&["bin", "--temp=-5"])).expect("cli applies");
    assert_eq!(cfg.values[0], FieldValue::I64(-5));

    let r = build(&cs, &vec![content("bad.yml", "count: -1\n")], args(&["bin"]));
    assert!(matches!(r, Err(BuildError::FileField { ref field, .. }) if field == "count"));
}

/// A boolean and a string field can be set from a file.
#[test]
fn file_sets_bool_and_text() {
    let decl = SchemaDecl {
        name: "S".to_string(),
        public: true,
        directives: vec![],
        fields: vec![
            field("verbose", TypeTag::Bool, vec![dir("file", Payload::Empty)], None, false),
            field("label", TypeTag::Text, vec![dir("file", Payload::Empty)], None, false),
        ],
    };
    let cs = cli_settings(&decl).expect("well-formed");
    let cfg = build(
        &cs,
        &vec![content("s.yml", "verbose: true\nlabel: hello world\n")],
        args(&["bin"]),
    )
    .expect("file applies");
    assert_eq!(
        cfg.values,
        vec![FieldValue::Bool(true), FieldValue::Text("hello world".to_string())]
    );
}

/// A boolean field can be set from the command line with the words `true`
/// and `false`.
#[test]
fn cli_sets_bool() {
    let decl = SchemaDecl {
        name: "S".to_string(),
        public: true,
        directives: vec![],
        fields: vec![field("verbose", TypeTag::Bool, vec![dir("cli", Payload::Empty)], None, false)],
    };
    let cs = cli_settings(&decl).expect("well-formed");
    let cfg = build(&cs, &vec![], args(&["bin", "--verbose", "true"])).expect("bool value");
    assert_eq!(cfg.values, vec![FieldValue::Bool(true)]);
}
