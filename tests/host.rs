use typescript_definitions::host::path_type;
use typescript_definitions::mapper::type_text;
use typescript_definitions::schema::{Primitive, TypeExpr};

fn path(name: &str, args: Vec<TypeExpr>) -> TypeExpr {
    path_type(name.to_string(), args)
}

#[test]
fn primitive_names() {
    assert!(matches!(path("u8", vec![]), TypeExpr::Prim(Primitive::Byte)));
    assert!(matches!(path("i64", vec![]), TypeExpr::Prim(Primitive::Number)));
    assert!(matches!(path("f32", vec![]), TypeExpr::Prim(Primitive::Number)));
    assert!(matches!(path("str", vec![]), TypeExpr::Prim(Primitive::Text)));
    assert!(matches!(path("String", vec![]), TypeExpr::Prim(Primitive::Text)));
    assert!(matches!(path("bool", vec![]), TypeExpr::Prim(Primitive::Boolean)));
}

#[test]
fn container_names() {
    let t = path("Vec", vec![path("i32", vec![])]);
    assert_eq!(type_text(&t), "number[]");
    let t = path("BTreeSet", vec![path("String", vec![])]);
    assert_eq!(type_text(&t), "string[]");
    let t = path("HashMap", vec![path("String", vec![]), path("i32", vec![])]);
    assert_eq!(type_text(&t), "{ [key: string]: number }");
    let t = path("Option", vec![path("i32", vec![])]);
    assert_eq!(type_text(&t), "number | null");
    let t = path("Result", vec![path("i32", vec![]), path("String", vec![])]);
    assert_eq!(type_text(&t), "{ Ok: number } | { Err: string }");
    let t = path("Rc", vec![path("bool", vec![])]);
    assert_eq!(type_text(&t), "boolean");
}

#[test]
fn other_names_are_references() {
    let t = path("Pig", vec![path("str", vec![])]);
    assert_eq!(type_text(&t), "Pig<string>");
    let t = path("Vec", vec![path("i32", vec![]), path("i32", vec![])]);
    assert_eq!(type_text(&t), "Vec<number, number>");
    assert!(matches!(path("FnMut", vec![]), TypeExpr::Unknown));
}
