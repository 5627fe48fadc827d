use rematch::error::{BindError, FieldId, ParseError};
use rematch::parser::Parser;
use rematch::schema::{Field, Shape, TypeDecl, TypeRef, Variant};
use rematch::value::{FieldValue, NamedValue, ShapeValue, Value};

fn variant(name: &str, shape: Shape, patterns: &[&str]) -> Variant {
    Variant {
        name: name.to_string(),
        shape,
        patterns: patterns.iter().map(|p| p.to_string()).collect(),
    }
}

fn test_enum_decl() -> TypeDecl {
    TypeDecl::Enum {
        variants: vec![
            variant("A", Shape::Unit, &[r"a"]),
            variant("B", Shape::Positional(vec![TypeRef::Uint]), &[r"b (\d+)"]),
            variant(
                "C",
                Shape::Named(vec![Field { name: "x".to_string(), ty: TypeRef::Uint }]),
                &[r"c = (\d+)"],
            ),
        ],
    }
}

fn test_struct_decl() -> TypeDecl {
    TypeDecl::Struct {
        shape: Shape::Named(vec![
            Field { name: "a".to_string(), ty: TypeRef::Uint },
            Field { name: "s".to_string(), ty: TypeRef::Text },
        ]),
        patterns: vec![r"a number (\d+) with some string ([abc]+)".to_string()],
    }
}

fn tagged(name: &str, value: ShapeValue) -> Value {
    Value::Variant { name: name.to_string(), value }
}

#[test]
fn test_enum() {
    let p = Parser::new(test_enum_decl()).unwrap();
    assert_eq!(p.parse("a").unwrap(), tagged("A", ShapeValue::Unit));
    assert_eq!(
        p.parse("b 42").unwrap(),
        tagged("B", ShapeValue::Positional(vec![FieldValue::Uint(42)])),
    );
    assert_eq!(
        p.parse("c = 123").unwrap(),
        tagged(
            "C",
            ShapeValue::Named(vec![NamedValue {
                name: "x".to_string(),
                value: FieldValue::Uint(123),
            }]),
        ),
    );
    assert_eq!(
        p.parse("foo").unwrap_err().message(),
        "Regex matching failed for: \"foo\"".to_owned(),
    );
    assert_eq!(
        p.parse("b 999999999999999999999999999").unwrap_err().message(),
        "Field 0 parsing error: number too large to fit in target type".to_owned(),
    );
}

#[test]
fn test_struct() {
    let p = Parser::new(test_struct_decl()).unwrap();
    assert_eq!(
        p.parse("a number 42 with some string cabab").unwrap(),
        Value::Struct(ShapeValue::Named(vec![
            NamedValue { name: "a".to_string(), value: FieldValue::Uint(42) },
            NamedValue { name: "s".to_string(), value: FieldValue::Text("cabab".to_string()) },
        ])),
    );
    assert_eq!(
        p.parse("foo").unwrap_err().message(),
        "Regex matching failed for: \"foo\"".to_owned(),
    );
    assert_eq!(
        p.parse("a number 999999999999999999999999999 with some string abc")
            .unwrap_err()
            .message(),
        "Field 'a' parsing error: number too large to fit in target type".to_owned(),
    );
}

#[test]
fn no_match_carries_input() {
    let p = Parser::new(test_enum_decl()).unwrap();
    match p.parse("zzz") {
        Err(ParseError::NoMatch { input }) => assert_eq!(input, "zzz"),
        other => panic!("expected NoMatch, got {:?}", other),
    }
}

#[test]
fn structured_conversion_error_names_the_field() {
    let p = Parser::new(test_struct_decl()).unwrap();
    match p.parse("a number 999999999999999999999999999 with some string abc") {
        Err(ParseError::Bind(BindError::FieldConversion { field, message })) => {
            assert_eq!(field, FieldId::Name("a".to_string()));
            assert_eq!(message, "number too large to fit in target type");
        },
        other => panic!("expected FieldConversion, got {:?}", other),
    }
}

#[test]
fn variant_without_patterns_is_never_selected() {
    let decl = TypeDecl::Enum {
        variants: vec![
            variant("Silent", Shape::Unit, &[]),
            variant("Loud", Shape::Unit, &[r".*"]),
        ],
    };
    let p = Parser::new(decl).unwrap();
    assert_eq!(p.parse("anything").unwrap(), tagged("Loud", ShapeValue::Unit));
    assert_eq!(p.parse("").unwrap(), tagged("Loud", ShapeValue::Unit));
}

#[test]
fn first_variant_wins_even_if_later_also_matches() {
    let decl = TypeDecl::Enum {
        variants: vec![
            variant("First", Shape::Unit, &[r"x"]),
            variant("Second", Shape::Unit, &[r"x"]),
        ],
    };
    let p = Parser::new(decl).unwrap();
    assert_eq!(p.parse("x").unwrap(), tagged("First", ShapeValue::Unit));
}

#[test]
fn binding_failure_does_not_fall_through_to_later_variant() {
    let decl = TypeDecl::Enum {
        variants: vec![
            variant("Num", Shape::Positional(vec![TypeRef::Uint]), &[r"v (\w+)"]),
            variant("Any", Shape::Unit, &[r"v"]),
        ],
    };
    let p = Parser::new(decl).unwrap();
    // "v beep" matches Num's pattern first; its conversion failure is final,
    // even though Any would also match.
    assert_eq!(
        p.parse("v beep").unwrap_err(),
        ParseError::Bind(BindError::FieldConversion {
            field: FieldId::Index(0),
            message: "invalid digit found in string".to_string(),
        }),
    );
}

#[test]
fn struct_patterns_tried_in_declaration_order() {
    let decl = TypeDecl::Struct {
        shape: Shape::Positional(vec![TypeRef::Text]),
        patterns: vec![r"id=(\w+)".to_string(), r"(\w+)".to_string()],
    };
    let p = Parser::new(decl).unwrap();
    assert_eq!(
        p.parse("id=alpha").unwrap(),
        Value::Struct(ShapeValue::Positional(vec![FieldValue::Text("alpha".to_string())])),
    );
    assert_eq!(
        p.parse("beta").unwrap(),
        Value::Struct(ShapeValue::Positional(vec![FieldValue::Text("beta".to_string())])),
    );
}

#[test]
fn matching_is_unanchored() {
    let p = Parser::new(test_enum_decl()).unwrap();
    assert_eq!(
        p.parse(">> b 42 <<").unwrap(),
        tagged("B", ShapeValue::Positional(vec![FieldValue::Uint(42)])),
    );
}

#[test]
fn missing_group_is_reported_by_position() {
    let decl = TypeDecl::Struct {
        shape: Shape::Positional(vec![TypeRef::Text, TypeRef::Text]),
        patterns: vec![r"q(?:(a)|(b))".to_string()],
    };
    let p = Parser::new(decl).unwrap();
    // On "qb" group 1 does not participate, so field 0 has no group.
    match p.parse("qb") {
        Err(ParseError::Bind(BindError::MissingGroup { index })) => assert_eq!(index, 0),
        other => panic!("expected MissingGroup, got {:?}", other),
    }
    assert_eq!(
        p.parse("qb").unwrap_err().message(),
        "Getting group 1 failed".to_owned(),
    );
}

#[test]
fn pattern_with_too_few_groups_yields_missing_group() {
    let decl = TypeDecl::Struct {
        shape: Shape::Positional(vec![TypeRef::Text, TypeRef::Text]),
        patterns: vec![r"only (\w+)".to_string()],
    };
    let p = Parser::new(decl).unwrap();
    assert_eq!(
        p.parse("only one").unwrap_err(),
        ParseError::Bind(BindError::MissingGroup { index: 1 }),
    );
    assert_eq!(
        p.parse("only one").unwrap_err().message(),
        "Getting group 2 failed".to_owned(),
    );
}

#[test]
fn extra_groups_are_ignored() {
    let decl = TypeDecl::Struct {
        shape: Shape::Positional(vec![TypeRef::Uint]),
        patterns: vec![r"(\d+)-(\d+)-(\d+)".to_string()],
    };
    let p = Parser::new(decl).unwrap();
    assert_eq!(
        p.parse("7-8-9").unwrap(),
        Value::Struct(ShapeValue::Positional(vec![FieldValue::Uint(7)])),
    );
}

#[test]
fn unit_struct_ignores_captures() {
    let decl = TypeDecl::Struct {
        shape: Shape::Unit,
        patterns: vec![r"go (\w+)".to_string()],
    };
    let p = Parser::new(decl).unwrap();
    assert_eq!(p.parse("go west").unwrap(), Value::Struct(ShapeValue::Unit));
}

#[test]
fn uint_boundaries() {
    let decl = TypeDecl::Struct {
        shape: Shape::Positional(vec![TypeRef::Uint]),
        patterns: vec![r"n=(\d*)".to_string()],
    };
    let p = Parser::new(decl).unwrap();
    assert_eq!(
        p.parse("n=18446744073709551615").unwrap(),
        Value::Struct(ShapeValue::Positional(vec![FieldValue::Uint(usize::MAX)])),
    );
    assert_eq!(
        p.parse("n=18446744073709551616").unwrap_err(),
        ParseError::Bind(BindError::FieldConversion {
            field: FieldId::Index(0),
            message: "number too large to fit in target type".to_string(),
        }),
    );
    // The group participates but captures empty text.
    assert_eq!(
        p.parse("n=").unwrap_err(),
        ParseError::Bind(BindError::FieldConversion {
            field: FieldId::Index(0),
            message: "cannot parse integer from empty string".to_string(),
        }),
    );
}

#[test]
fn malformed_pattern_is_a_compile_error() {
    let decl = TypeDecl::Struct {
        shape: Shape::Unit,
        patterns: vec![r"ok".to_string(), r"(".to_string()],
    };
    match Parser::new(decl) {
        Err(e) => assert_eq!(e.pattern, "("),
        Ok(_) => panic!("expected a compile error"),
    }
}

#[test]
fn parser_is_reused_across_calls() {
    // Patterns are compiled once, in Parser::new; parse only reads the
    // registry, so one parser answers many calls with consistent results.
    let p = Parser::new(test_enum_decl()).unwrap();
    let first = p.parse("b 42").unwrap();
    for _ in 0..100 {
        assert_eq!(p.parse("b 42").unwrap(), first);
    }
}

#[test]
fn no_match_message_escapes_the_input() {
    let p = Parser::new(test_enum_decl()).unwrap();
    assert_eq!(
        p.parse("s\"y\\z").unwrap_err().message(),
        "Regex matching failed for: \"s\\\"y\\\\z\"".to_owned(),
    );
}
