use builder_derive::attr::{try_parse_builder_each, parse_each, AttrError};
use builder_derive::classify::try_optional;
use builder_derive::plan::{generate, GenError, SetterKind};
use builder_derive::staging::{FieldValue, Item, Staging, StagingError, Value};
use builder_derive::syntax::{
    Annotation, AnnotationArgs, FieldDecl, GenericArg, NestedItem, NestedValue, PathSegment,
    RecordBody, RecordDecl, SegmentArgs, TypeExpr, TypeShape,
};

fn seg(ident: &str, args: SegmentArgs) -> PathSegment {
    PathSegment { ident: ident.to_string(), args }
}

fn plain(text: &str) -> TypeExpr {
    TypeExpr { text: text.to_string(), shape: TypeShape::Path(vec![seg(text, SegmentArgs::Plain)]) }
}

fn generic(text: &str, head: &str, args: &[&str]) -> TypeExpr {
    let args = args.iter().map(|a| GenericArg::Type(a.to_string())).collect();
    TypeExpr { text: text.to_string(), shape: TypeShape::Path(vec![seg(head, SegmentArgs::Angle(args))]) }
}

fn each(alias: &str) -> Annotation {
    Annotation {
        path: "builder".to_string(),
        args: AnnotationArgs::List(vec![NestedItem {
            key: "each".to_string(),
            value: NestedValue::Str(alias.to_string()),
        }]),
    }
}

fn field(ident: &str, ty: TypeExpr, annotations: Vec<Annotation>) -> FieldDecl {
    FieldDecl { ident: ident.to_string(), ty, annotations }
}

fn record(name: &str, fields: Vec<FieldDecl>) -> RecordDecl {
    RecordDecl { name: name.to_string(), body: RecordBody::Named(fields) }
}

fn command() -> RecordDecl {
    record(
        "Command",
        vec![
            field("executable", plain("String"), vec![]),
            field("args", generic("Option<Vec<String>>", "Option", &["Vec<String>"]), vec![]),
            field("env", generic("Vec<String>", "Vec", &["String"]), vec![each("env_var")]),
        ],
    )
}

fn text(s: &str) -> Item {
    Item::Text(s.to_string())
}

#[test]
fn option_type_is_optional() {
    let ty = generic("Option<Vec<String>>", "Option", &["Vec<String>"]);
    assert_eq!(try_optional(&ty), Some("Vec<String>".to_string()));
}

#[test]
fn plain_and_other_generic_types_are_not_optional() {
    assert_eq!(try_optional(&plain("String")), None);
    assert_eq!(try_optional(&generic("Vec<u8>", "Vec", &["u8"])), None);
    assert_eq!(try_optional(&plain("Option")), None);
}

#[test]
fn option_with_two_arguments_is_not_optional() {
    assert_eq!(try_optional(&generic("Option<u8, u8>", "Option", &["u8", "u8"])), None);
}

#[test]
fn qualified_option_path_is_not_optional() {
    let ty = TypeExpr {
        text: "std::option::Option<u8>".to_string(),
        shape: TypeShape::Path(vec![
            seg("std", SegmentArgs::Plain),
            seg("option", SegmentArgs::Plain),
            seg("Option", SegmentArgs::Angle(vec![GenericArg::Type("u8".to_string())])),
        ]),
    };
    assert_eq!(try_optional(&ty), None);
}

#[test]
fn non_path_and_alias_types_are_not_optional() {
    let tuple = TypeExpr { text: "(u8, u8)".to_string(), shape: TypeShape::Other };
    assert_eq!(try_optional(&tuple), None);
    assert_eq!(try_optional(&generic("MaybeOption<u8>", "MaybeOption", &["u8"])), None);
    let lifetime = TypeExpr {
        text: "Option<'a>".to_string(),
        shape: TypeShape::Path(vec![seg(
            "Option",
            SegmentArgs::Angle(vec![GenericArg::Other("'a".to_string())]),
        )]),
    };
    assert_eq!(try_optional(&lifetime), None);
}

#[test]
fn each_directive_gives_alias() {
    let f = field("env", plain("Vec<String>"), vec![each("env_var")]);
    assert_eq!(try_parse_builder_each(&f), Ok(Some("env_var".to_string())));
}

#[test]
fn no_directive_gives_no_alias() {
    let other = Annotation { path: "serde".to_string(), args: AnnotationArgs::Bare };
    let f = field("env", plain("Vec<String>"), vec![other]);
    assert_eq!(try_parse_builder_each(&f), Ok(None));
}

#[test]
fn first_directive_wins() {
    let f = field("env", plain("Vec<String>"), vec![each("one"), each("two")]);
    assert_eq!(try_parse_builder_each(&f), Ok(Some("one".to_string())));
}

#[test]
fn unrecognized_key_is_rejected() {
    let args = AnnotationArgs::List(vec![NestedItem {
        key: "foo".to_string(),
        value: NestedValue::Str("x".to_string()),
    }]);
    assert_eq!(parse_each(&args), Err(AttrError::UnrecognizedKey("foo".to_string())));
}

#[test]
fn malformed_directives_are_rejected() {
    assert_eq!(parse_each(&AnnotationArgs::Bare), Err(AttrError::NotAList));
    assert_eq!(parse_each(&AnnotationArgs::Other), Err(AttrError::NotAList));
    assert_eq!(parse_each(&AnnotationArgs::List(vec![])), Err(AttrError::MissingKey));
    let not_str = AnnotationArgs::List(vec![NestedItem { key: "each".to_string(), value: NestedValue::Other }]);
    assert_eq!(parse_each(&not_str), Err(AttrError::ExpectedString));
    let bare_key = AnnotationArgs::List(vec![NestedItem { key: "each".to_string(), value: NestedValue::Absent }]);
    assert_eq!(parse_each(&bare_key), Err(AttrError::ExpectedString));
    let empty = AnnotationArgs::List(vec![NestedItem {
        key: "each".to_string(),
        value: NestedValue::Str(String::new()),
    }]);
    assert_eq!(parse_each(&empty), Err(AttrError::EmptyAlias));
}

#[test]
fn second_entry_is_rejected() {
    let item = |k: &str| NestedItem { key: k.to_string(), value: NestedValue::Str("a".to_string()) };
    assert_eq!(parse_each(&AnnotationArgs::List(vec![item("each"), item("each")])), Err(AttrError::RepeatedKey));
    assert_eq!(
        parse_each(&AnnotationArgs::List(vec![item("each"), item("bar")])),
        Err(AttrError::UnrecognizedKey("bar".to_string()))
    );
}

#[test]
fn non_named_record_is_rejected() {
    let decl = RecordDecl { name: "Pair".to_string(), body: RecordBody::Other };
    assert_eq!(generate(&decl), Err(GenError::NotNamedRecord));
}

#[test]
fn malformed_annotation_aborts_generation() {
    let bad = Annotation {
        path: "builder".to_string(),
        args: AnnotationArgs::List(vec![NestedItem {
            key: "foo".to_string(),
            value: NestedValue::Str("x".to_string()),
        }]),
    };
    let decl = record(
        "Command",
        vec![
            field("executable", plain("String"), vec![]),
            field("env", generic("Vec<String>", "Vec", &["String"]), vec![bad]),
        ],
    );
    assert_eq!(
        generate(&decl),
        Err(GenError::Attribute {
            field: "env".to_string(),
            error: AttrError::UnrecognizedKey("foo".to_string()),
        })
    );
}

#[test]
fn alias_equal_to_a_field_name_is_a_conflict() {
    let decl = record("R", vec![field("env", generic("Vec<String>", "Vec", &["String"]), vec![each("env")])]);
    assert_eq!(generate(&decl), Err(GenError::AliasConflict { field: "env".to_string() }));
}

#[test]
fn plan_of_command() {
    let plan = generate(&command()).unwrap();
    assert_eq!(plan.record, "Command");
    assert_eq!(plan.builder, "CommandBuilder");
    let d: Vec<(String, String, bool, Option<String>)> = plan
        .fields
        .iter()
        .map(|f| (f.ident.clone(), f.effective.clone(), f.is_optional, f.alias.clone()))
        .collect();
    assert_eq!(
        d,
        vec![
            ("executable".to_string(), "String".to_string(), false, None),
            ("args".to_string(), "Vec<String>".to_string(), true, None),
            ("env".to_string(), "Vec<String>".to_string(), false, Some("env_var".to_string())),
        ]
    );
    assert_eq!(plan.fields[1].declared, "Option<Vec<String>>");
    let storage: Vec<(String, String)> = plan.storage().into_iter().map(|m| (m.ident, m.ty)).collect();
    assert_eq!(
        storage,
        vec![
            ("executable".to_string(), "String".to_string()),
            ("args".to_string(), "Vec<String>".to_string()),
            ("env".to_string(), "Vec<String>".to_string()),
        ]
    );
    let setters: Vec<(String, String, SetterKind)> =
        plan.setters().into_iter().map(|s| (s.name, s.field, s.kind)).collect();
    assert_eq!(
        setters,
        vec![
            ("executable".to_string(), "executable".to_string(), SetterKind::Whole),
            ("args".to_string(), "args".to_string(), SetterKind::Whole),
            ("env".to_string(), "env".to_string(), SetterKind::Whole),
            ("env_var".to_string(), "env".to_string(), SetterKind::Append),
        ]
    );
    let checks: Vec<(String, String)> = plan.checks().into_iter().map(|c| (c.field, c.message)).collect();
    assert_eq!(
        checks,
        vec![
            ("executable".to_string(), "executable not found".to_string()),
            ("env".to_string(), "env not found".to_string()),
        ]
    );
}

#[test]
fn empty_record_builds_at_once() {
    let plan = generate(&record("Unit", vec![])).unwrap();
    assert!(plan.storage().is_empty());
    assert!(plan.setters().is_empty());
    let staging = Staging::new(&plan);
    assert_eq!(staging.build(&plan), Ok(vec![]));
}

#[test]
fn fresh_builder_fails_on_first_field() {
    let decl = record(
        "Point",
        vec![field("x", plain("i64"), vec![]), field("y", plain("i64"), vec![])],
    );
    let plan = generate(&decl).unwrap();
    let staging = Staging::new(&plan);
    let err = staging.build(&plan).unwrap_err();
    assert_eq!(err.field, "x");
    assert_eq!(err.message(), "x not found");
}

#[test]
fn first_missing_field_is_reported() {
    let decl = record(
        "Point",
        vec![field("x", plain("i64"), vec![]), field("y", plain("i64"), vec![]), field("z", plain("i64"), vec![])],
    );
    let plan = generate(&decl).unwrap();
    let mut staging = Staging::new(&plan);
    staging.set(0, Value::Single(Item::Int(1)));
    assert_eq!(staging.build(&plan).unwrap_err().field, "y");
}

#[test]
fn all_setters_then_build_gives_direct_record() {
    let plan = generate(&command()).unwrap();
    let mut staging = Staging::new(&plan);
    staging.set(0, Value::Single(text("ls")));
    staging.set(1, Value::List(vec![text("-l")]));
    staging.set(2, Value::List(vec![text("A=1")]));
    assert_eq!(
        staging.build(&plan),
        Ok(vec![
            FieldValue::Required(Value::Single(text("ls"))),
            FieldValue::Optional(Some(Value::List(vec![text("-l")]))),
            FieldValue::Required(Value::List(vec![text("A=1")])),
        ])
    );
}

#[test]
fn unset_optional_field_is_absent() {
    let plan = generate(&command()).unwrap();
    let mut staging = Staging::new(&plan);
    staging.set(0, Value::Single(text("ls")));
    staging.set(2, Value::List(vec![]));
    let rec = staging.build(&plan).unwrap();
    assert_eq!(rec[1], FieldValue::Optional(None));
}

#[test]
fn accumulator_keeps_call_order() {
    let plan = generate(&command()).unwrap();
    let mut staging = Staging::new(&plan);
    staging.set(0, Value::Single(text("ls")));
    for x in ["a", "b", "c"] {
        assert_eq!(staging.append(&plan, 2, text(x)), Ok(()));
    }
    let rec = staging.build(&plan).unwrap();
    assert_eq!(rec[2], FieldValue::Required(Value::List(vec![text("a"), text("b"), text("c")])));
}

#[test]
fn accumulator_appends_after_whole_value() {
    let plan = generate(&command()).unwrap();
    let mut staging = Staging::new(&plan);
    staging.set(0, Value::Single(text("ls")));
    staging.set(2, Value::List(vec![text("a")]));
    assert_eq!(staging.append(&plan, 2, text("b")), Ok(()));
    let rec = staging.build(&plan).unwrap();
    assert_eq!(rec[2], FieldValue::Required(Value::List(vec![text("a"), text("b")])));
}

#[test]
fn append_without_alias_is_refused() {
    let plan = generate(&command()).unwrap();
    let mut staging = Staging::new(&plan);
    assert_eq!(staging.append(&plan, 0, text("ls")), Err(StagingError::NoAccumulator));
    assert_eq!(staging.build(&plan).unwrap_err().field, "executable");
}

#[test]
fn append_to_scalar_is_refused() {
    let plan = generate(&command()).unwrap();
    let mut staging = Staging::new(&plan);
    staging.set(2, Value::Single(text("x")));
    assert_eq!(staging.append(&plan, 2, text("y")), Err(StagingError::NotASequence));
}

#[test]
fn build_twice_gives_equal_records() {
    let plan = generate(&command()).unwrap();
    let mut staging = Staging::new(&plan);
    staging.set(0, Value::Single(text("ls")));
    staging.set(1, Value::List(vec![text("-a")]));
    staging.set(2, Value::List(vec![text("A=1")]));
    let first = staging.build(&plan);
    let second = staging.build(&plan);
    assert!(first.is_ok());
    assert_eq!(first, second);
}

#[test]
fn command_scenario() {
    let plan = generate(&command()).unwrap();
    let mut staging = Staging::new(&plan);
    staging.set(0, Value::Single(text("cargo")));
    assert_eq!(staging.append(&plan, 2, text("PATH=/bin")), Ok(()));
    assert_eq!(staging.append(&plan, 2, text("PATH=/bin")), Ok(()));
    assert_eq!(
        staging.build(&plan),
        Ok(vec![
            FieldValue::Required(Value::Single(text("cargo"))),
            FieldValue::Optional(None),
            FieldValue::Required(Value::List(vec![text("PATH=/bin"), text("PATH=/bin")])),
        ])
    );
}
