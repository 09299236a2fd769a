use typescript_definitions::compile::{compile, diagnostics};
use typescript_definitions::errors::SchemaError;
use typescript_definitions::options::{parse_check, parse_guard_flag};
use typescript_definitions::schema::{
    ContainerOptions, Field, GenericParam, Primitive, SchemaData, Style, TypeExpr, TypeSchema,
    Variant,
};

fn num() -> TypeExpr {
    TypeExpr::Prim(Primitive::Number)
}

fn schema(name: &str, data: SchemaData) -> TypeSchema {
    TypeSchema {
        name: name.to_string(),
        generics: vec![],
        docs: vec![],
        options: ContainerOptions::new(),
        data,
    }
}

#[test]
fn tag_clash_in_enum() {
    let mut s = schema(
        "A",
        SchemaData::Enum(vec![
            Variant { name: "Unit".to_string(), style: Style::Unit, fields: vec![], skip: false },
            Variant {
                name: "B".to_string(),
                style: Style::Named,
                fields: vec![
                    Field::new("kind", num()),
                    Field::new("b", TypeExpr::Prim(Primitive::Text)),
                ],
                skip: false,
            },
        ]),
    );
    s.options.tag = Some("kind".to_string());
    match compile(&s) {
        Ok(_) => panic!("expecting an error"),
        Err(es) => {
            assert_eq!(es.len(), 1);
            assert!(matches!(es[0], SchemaError::TagClash { .. }));
            assert_eq!(
                es[0].message(),
                "clash with field in \"A::B\". Maybe use a #[serde(content=\"...\")] attribute."
            );
        }
    }
}

#[test]
fn tag_with_content_key_does_not_clash() {
    let mut s = schema(
        "A",
        SchemaData::Enum(vec![Variant {
            name: "B".to_string(),
            style: Style::Named,
            fields: vec![Field::new("kind", num())],
            skip: false,
        }]),
    );
    s.options.tag = Some("kind".to_string());
    s.options.content = Some("c".to_string());
    assert!(compile(&s).is_ok());
}

#[test]
fn flatten_is_fail() {
    let mut c = Field::new("c", TypeExpr::Named("DDD".to_string(), vec![]));
    c.flatten = true;
    let s = schema(
        "SSS",
        SchemaData::Struct(
            Style::Named,
            vec![Field::new("a", num()), Field::new("b", num()), c],
        ),
    );
    match compile(&s) {
        Ok(_) => panic!("expecting an error"),
        Err(es) => {
            assert_eq!(es.len(), 1);
            assert_eq!(
                es[0].message(),
                "SSS: #[serde(flatten)] does not work for typescript-definitions."
            );
        }
    }
}

#[test]
fn verify_is_recognized() {
    let r = parse_guard_flag(&"S".to_string(), "blah");
    match r {
        Ok(_) => panic!("expecting an error"),
        Err(e) => {
            assert!(matches!(e, SchemaError::MalformedGuard { .. }));
            assert_eq!(e.message(), "S: guard must be true or false not \"\"blah\"\"");
        }
    }
    assert!(matches!(parse_guard_flag(&"S".to_string(), "true"), Ok(true)));
    assert!(matches!(parse_guard_flag(&"S".to_string(), "false"), Ok(false)));
}

#[test]
fn check_option_values() {
    assert!(matches!(parse_check(&"F".to_string(), "first"), Ok(true)));
    assert!(matches!(parse_check(&"F".to_string(), "all"), Ok(false)));
    match parse_check(&"F".to_string(), "some") {
        Ok(_) => panic!("expecting an error"),
        Err(e) => {
            assert!(matches!(e, SchemaError::MalformedCheck { .. }));
            assert_eq!(e.message(), "F: check value must be \"first\" or \"all\" not \"\"some\"\"");
        }
    }
}

#[test]
fn unsupported_monomorphization() {
    let mut s = schema(
        "A",
        SchemaData::Struct(
            Style::Named,
            vec![Field::new(
                "b",
                TypeExpr::Named("B".to_string(), vec![TypeExpr::Named("C".to_string(), vec![])]),
            )],
        ),
    );
    s.options.guard = true;
    let es = diagnostics(&s);
    assert_eq!(es.len(), 1);
    assert!(matches!(es[0], SchemaError::Monomorphization { .. }));
    assert_eq!(
        es[0].message(),
        "B: only monomorphization of number, string or boolean permitted: got \"C\""
    );
    s.options.guard = false;
    assert_eq!(diagnostics(&s).len(), 0);
}

#[test]
fn user_guard_allows_any_instantiation() {
    let mut f = Field::new(
        "b",
        TypeExpr::Named("B".to_string(), vec![TypeExpr::Named("C".to_string(), vec![])]),
    );
    f.user_guard = true;
    let mut s = schema("A", SchemaData::Struct(Style::Named, vec![f]));
    s.options.guard = true;
    assert!(compile(&s).is_ok());
}

#[test]
fn generic_parameter_with_arguments() {
    let mut s = schema(
        "A",
        SchemaData::Struct(
            Style::Named,
            vec![Field::new("t", TypeExpr::Named("T".to_string(), vec![num()]))],
        ),
    );
    s.generics = vec![GenericParam::Type("T".to_string(), vec![])];
    s.options.guard = true;
    let es = diagnostics(&s);
    assert_eq!(es.len(), 1);
    assert!(matches!(es[0], SchemaError::GenericArgs { .. }));
    assert_eq!(
        es[0].message(),
        "T: generic args of a generic type is not supported"
    );
}

#[test]
fn errors_accumulate() {
    let mut a = Field::new("a", TypeExpr::Named("X".to_string(), vec![]));
    a.flatten = true;
    let mut b = Field::new("b", TypeExpr::Named("Y".to_string(), vec![]));
    b.flatten = true;
    let mut s = schema(
        "S",
        SchemaData::Struct(
            Style::Named,
            vec![a, b, Field::new("c", TypeExpr::Named("B".to_string(), vec![TypeExpr::Unknown]))],
        ),
    );
    s.options.guard = true;
    let es = diagnostics(&s);
    assert_eq!(es.len(), 2);
    assert!(matches!(es[0], SchemaError::Flatten { .. }));
    assert!(matches!(es[1], SchemaError::Monomorphization { .. }));
}

#[test]
fn guarded_override_must_be_primitive() {
    let mut f = Field::new("when", TypeExpr::Named("DateTime".to_string(), vec![]));
    f.ts_override = Some("Date".to_string());
    let mut s = schema("S", SchemaData::Struct(Style::Named, vec![f]));
    assert!(compile(&s).is_ok());
    s.options.guard = true;
    let es = diagnostics(&s);
    assert_eq!(es.len(), 1);
    assert!(matches!(es[0], SchemaError::OverrideNotPrimitive { .. }));
    assert_eq!(es[0].message(), "only string, number or boolean permitted: got \"Date\"");
}
