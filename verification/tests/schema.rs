//! Schema building: classification, validation and projection.

use cli_settings::compile::cli_settings;
use cli_settings::directives::{classify_directives, Payload, RawDirective, SchemaError};
use cli_settings::model::{FieldValue, TypeTag};
use cli_settings::project::Dest;
use cli_settings::schema::{build_schema, FieldDecl, SchemaDecl};

fn dir(name: &str, payload: Payload) -> RawDirective {
    RawDirective {
        name: name.to_string(),
        payload,
    }
}

fn field(
    name: &str,
    ty: TypeTag,
    directives: Vec<RawDirective>,
    short: Option<char>,
    mandatory: bool,
) -> FieldDecl {
    FieldDecl {
        name: name.to_string(),
        ty,
        public: true,
        directives,
        short,
        mandatory,
    }
}

fn schema_of(fields: Vec<FieldDecl>) -> SchemaDecl {
    SchemaDecl {
        name: "S".to_string(),
        public: true,
        directives: vec![],
        fields,
    }
}

/// Directives accumulate per category, in order; unrecognized directives
/// are preserved unchanged.
#[test]
fn classifier_routes_and_accumulates() {
    let dirs = vec![
        dir("doc", Payload::Text("first line".to_string())),
        dir("doc", Payload::Text("second line".to_string())),
        dir("file", Payload::Text("hint-a".to_string())),
        dir("file", Payload::Text("hint-b".to_string())),
        dir("cli", Payload::Empty),
        dir("default", Payload::FieldValue(FieldValue::U32(5))),
        dir("derive", Payload::Text("Debug".to_string())),
    ];
    let cats = classify_directives(&dirs).expect("well-formed directives");
    assert_eq!(cats.doc_lines, vec!["first line".to_string(), "second line".to_string()]);
    assert!(cats.file_seen);
    assert_eq!(cats.file_decorations, vec!["hint-a".to_string(), "hint-b".to_string()]);
    assert!(cats.cli_seen);
    assert!(cats.cli_decorations.is_empty());
    assert_eq!(cats.defaults, vec![FieldValue::U32(5)]);
    assert_eq!(cats.other.len(), 1);
    assert_eq!(cats.other[0].name, "derive");
}

/// A plain participation directive marks the category without decoration.
#[test]
fn classifier_bare_participation() {
    let cats = classify_directives(&vec![dir("file", Payload::Empty)]).expect("well-formed");
    assert!(cats.file_seen);
    assert!(cats.file_decorations.is_empty());
    assert!(!cats.cli_seen);
}

/// A malformed payload on a recognized category is a classification
/// error.
#[test]
fn classifier_rejects_invalid_payload() {
    let r = classify_directives(&vec![dir("file", Payload::Invalid)]);
    assert!(matches!(r, Err(SchemaError::InvalidDirective { ref name }) if name == "file"));
    let r = classify_directives(&vec![dir("default", Payload::Empty)]);
    assert!(matches!(r, Err(SchemaError::InvalidDirective { ref name }) if name == "default"));
    let r = classify_directives(&vec![dir("cli", Payload::FieldValue(FieldValue::U32(1)))]);
    assert!(matches!(r, Err(SchemaError::InvalidDirective { ref name }) if name == "cli"));
}

/// Duplicate field names abort the schema build.
#[test]
fn duplicate_field_name_rejected() {
    let decl = schema_of(vec![
        field("x", TypeTag::U32, vec![], None, false),
        field("x", TypeTag::U64, vec![], None, false),
    ]);
    let r = build_schema(&decl);
    assert!(matches!(r, Err(SchemaError::DuplicateFieldName { ref name }) if name == "x"));
}

/// Two defaults on one field abort the schema build.
#[test]
fn conflicting_defaults_rejected() {
    let decl = schema_of(vec![field(
        "x",
        TypeTag::U32,
        vec![
            dir("default", Payload::FieldValue(FieldValue::U32(1))),
            dir("default", Payload::FieldValue(FieldValue::U32(2))),
        ],
        None,
        false,
    )]);
    let r = build_schema(&decl);
    assert!(matches!(r, Err(SchemaError::ConflictingDefaults { ref field }) if field == "x"));
}

/// A default value of the wrong type aborts the schema build.
#[test]
fn ill_typed_default_rejected() {
    let decl = schema_of(vec![field(
        "x",
        TypeTag::U32,
        vec![dir("default", Payload::FieldValue(FieldValue::Bool(true)))],
        None,
        false,
    )]);
    let r = build_schema(&decl);
    assert!(matches!(r, Err(SchemaError::DefaultTypeMismatch { ref field }) if field == "x"));
}

/// A mandatory field must participate in the command line.
#[test]
fn mandatory_without_cli_rejected() {
    let decl = schema_of(vec![field("x", TypeTag::U32, vec![dir("file", Payload::Empty)], None, true)]);
    let r = build_schema(&decl);
    assert!(matches!(r, Err(SchemaError::MandatoryWithoutCli { ref field }) if field == "x"));
}

/// A short flag requires command-line participation, may not be `-`, and
/// may not repeat.
#[test]
fn short_flag_validation() {
    let decl = schema_of(vec![field("x", TypeTag::U32, vec![], Some('x'), false)]);
    assert!(matches!(
        build_schema(&decl),
        Err(SchemaError::ShortWithoutCli { ref field }) if field == "x"
    ));

    let decl = schema_of(vec![field(
        "x",
        TypeTag::U32,
        vec![dir("cli", Payload::Empty)],
        Some('-'),
        false,
    )]);
    assert!(matches!(
        build_schema(&decl),
        Err(SchemaError::InvalidShortFlag { ref field }) if field == "x"
    ));

    let decl = schema_of(vec![
        field("x", TypeTag::U32, vec![dir("cli", Payload::Empty)], Some('z'), false),
        field("y", TypeTag::U32, vec![dir("cli", Payload::Empty)], Some('z'), false),
    ]);
    assert!(matches!(
        build_schema(&decl),
        Err(SchemaError::DuplicateShortFlag { ref field }) if field == "y"
    ));
}

/// An empty field name aborts the schema build.
#[test]
fn empty_field_name_rejected() {
    let decl = schema_of(vec![field("", TypeTag::U32, vec![], None, false)]);
    assert!(matches!(build_schema(&decl), Err(SchemaError::EmptyFieldName)));
}

/// A field name with a leading `-` aborts the schema build: the
/// command-line collaborator strips it from long flags, which could fuse
/// two distinct names into one flag.
#[test]
fn dash_led_field_name_rejected() {
    let decl = schema_of(vec![field("-x", TypeTag::U32, vec![], None, false)]);
    assert!(matches!(
        build_schema(&decl),
        Err(SchemaError::InvalidFieldName { ref field }) if field == "-x"
    ));
}

/// The projections select the participating fields in declaration order,
/// optional-wrap overlay fields, and route decorations and documentation
/// by destination.
#[test]
fn projections_select_and_decorate() {
    let decl = SchemaDecl {
        name: "Settings".to_string(),
        public: true,
        directives: vec![
            dir("doc", Payload::Text("entity docs".to_string())),
            dir("file", Payload::Text("file-deco".to_string())),
            dir("cli", Payload::Text("cli-deco".to_string())),
            dir("custom", Payload::Empty),
        ],
        fields: vec![
            field(
                "a",
                TypeTag::U32,
                vec![
                    dir("doc", Payload::Text("a docs".to_string())),
                    dir("file", Payload::Text("a-file-deco".to_string())),
                ],
                None,
                false,
            ),
            field("b", TypeTag::Text, vec![dir("cli", Payload::Empty)], None, false),
            field("c", TypeTag::U64, vec![dir("file", Payload::Empty), dir("cli", Payload::Empty)], None, false),
        ],
    };
    let cs = cli_settings(&decl).expect("well-formed");

    assert_eq!(cs.main.name, "Settings");
    assert!(matches!(cs.main.dest, Dest::Main));
    assert_eq!(cs.main.fields.len(), 3);
    assert!(!cs.main.fields[0].optional);
    assert_eq!(cs.main.doc, vec!["entity docs".to_string()]);
    assert!(cs.main.decorations.is_empty());
    assert_eq!(cs.main.other.len(), 1);
    assert_eq!(cs.main.other[0].name, "custom");

    assert_eq!(cs.file.name, "FileSettings");
    assert_eq!(cs.file.fields.len(), 2);
    assert_eq!(cs.file.fields[0].name, "a");
    assert_eq!(cs.file.fields[0].main_index, 0);
    assert_eq!(cs.file.fields[1].name, "c");
    assert_eq!(cs.file.fields[1].main_index, 2);
    assert!(cs.file.fields[0].optional);
    assert_eq!(cs.file.fields[0].decorations, vec!["a-file-deco".to_string()]);
    assert!(cs.file.fields[0].doc.is_empty(), "file schemas carry no documentation");
    assert!(cs.file.doc.is_empty());
    assert_eq!(cs.file.decorations, vec!["file-deco".to_string()]);

    assert_eq!(cs.cli.name, "CliSettings");
    assert_eq!(cs.cli.fields.len(), 2);
    assert_eq!(cs.cli.fields[0].name, "b");
    assert_eq!(cs.cli.fields[0].main_index, 1);
    assert_eq!(cs.cli.fields[1].name, "c");
    assert_eq!(cs.cli.fields[1].main_index, 2);
    assert!(cs.cli.fields[0].optional);
    assert_eq!(cs.cli.doc, vec!["entity docs".to_string()]);
    assert_eq!(cs.cli.decorations, vec!["cli-deco".to_string()]);

    // The field documentation reaches the main and command-line
    // projections verbatim.
    assert_eq!(cs.main.fields[0].doc, vec!["a docs".to_string()]);
    let cli_a: Vec<_> = cs.cli.fields.iter().filter(|f| f.name == "a").collect();
    assert!(cli_a.is_empty(), "a does not participate in the command line");
}

/// Projection is deterministic: compiling the same declaration twice
/// yields projections that agree field by field.
#[test]
fn projection_deterministic() {
    let make = || {
        schema_of(vec![
            field("a", TypeTag::U32, vec![dir("file", Payload::Empty)], None, false),
            field("b", TypeTag::U64, vec![dir("cli", Payload::Empty)], None, false),
        ])
    };
    let cs1 = cli_settings(&make()).expect("well-formed");
    let cs2 = cli_settings(&make()).expect("well-formed");
    assert_eq!(cs1.file.fields.len(), cs2.file.fields.len());
    for (f1, f2) in cs1.file.fields.iter().zip(cs2.file.fields.iter()) {
        assert_eq!(f1.name, f2.name);
        assert_eq!(f1.main_index, f2.main_index);
        assert_eq!(f1.ty, f2.ty);
        assert_eq!(f1.optional, f2.optional);
    }
}
