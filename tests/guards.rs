use typescript_definitions::compile::{compile, guard};
use typescript_definitions::guard::push_guard;
use typescript_definitions::mapper::type_text;
use typescript_definitions::schema::{
    ContainerOptions, Field, GenericParam, Primitive, SchemaData, Style, TypeExpr, TypeSchema,
    Variant,
};

fn num() -> TypeExpr {
    TypeExpr::Prim(Primitive::Number)
}

fn text() -> TypeExpr {
    TypeExpr::Prim(Primitive::Text)
}

fn array(t: TypeExpr) -> TypeExpr {
    TypeExpr::Array(Box::new(t))
}

fn guarded(name: &str, data: SchemaData) -> TypeSchema {
    let mut options = ContainerOptions::new();
    options.guard = true;
    TypeSchema { name: name.to_string(), generics: vec![], docs: vec![], options, data }
}

fn variant(name: &str, style: Style, fields: Vec<Field>) -> Variant {
    Variant { name: name.to_string(), style, fields, skip: false }
}

fn guard_of(e: &TypeExpr) -> String {
    let mut out = String::new();
    let f = Field::new("f", num());
    push_guard(&mut out, e, &"v".to_string(), &f, &vec![]);
    out
}

#[test]
fn verify_untagged_enum() {
    let mut s = guarded(
        "Untagged",
        SchemaData::Enum(vec![
            variant("V1", Style::Named, vec![Field::new("id", num()), Field::new("attr", text())]),
            variant("V2", Style::Named, vec![Field::new("id", num()), Field::new("attr2", array(text()))]),
        ]),
    );
    s.options.untagged = true;
    assert_eq!(
        guard(&s),
        "export const isa_Untagged = (obj: any): obj is Untagged => (obj !== undefined && (\
         ((obj != null && obj[\"id\"] !== undefined && typeof obj[\"id\"] === \"number\" && obj[\"attr\"] !== undefined && typeof obj[\"attr\"] === \"string\")) \
         || ((obj != null && obj[\"id\"] !== undefined && typeof obj[\"id\"] === \"number\" && obj[\"attr2\"] !== undefined && (Array.isArray(obj[\"attr2\"]) && obj[\"attr2\"].every((x) => typeof x === \"string\"))))));"
    );
}

#[test]
fn verify_first_only() {
    let mut vals = Field::new("vals", array(text()));
    vals.first_only = true;
    let s = guarded("S", SchemaData::Struct(Style::Named, vec![vals]));
    assert_eq!(
        guard(&s),
        "export const isa_S = (obj: any): obj is S => (obj != null && obj[\"vals\"] !== undefined && (Array.isArray(obj[\"vals\"]) && obj[\"vals\"].slice(0, 1).every((x) => typeof x === \"string\")));"
    );
}

#[test]
fn map_of_numbers_checks_every_entry() {
    let m = TypeExpr::MapOf(Box::new(text()), Box::new(TypeExpr::Prim(Primitive::Number)));
    assert_eq!(type_text(&m), "{ [key: string]: number }");
    assert_eq!(
        guard_of(&m),
        "(v !== null && typeof v === \"object\" && Object.entries(v).every(([k, x]) => typeof x === \"number\"))"
    );
}

#[test]
fn numeric_map_keys_are_checked() {
    let m = TypeExpr::MapOf(Box::new(num()), Box::new(text()));
    assert_eq!(type_text(&m), "{ [key: number]: string }");
    assert_eq!(
        guard_of(&m),
        "(v !== null && typeof v === \"object\" && Object.entries(v).every(([k, x]) => isFinite(+k) && typeof x === \"string\"))"
    );
}

#[test]
fn optional_short_circuits_on_null() {
    let e = TypeExpr::Optional(Box::new(TypeExpr::Prim(Primitive::Boolean)));
    assert_eq!(guard_of(&e), "(v === null || typeof v === \"boolean\")");
}

#[test]
fn either_checks_both_arms() {
    let e = TypeExpr::Either(Box::new(num()), Box::new(text()));
    assert_eq!(
        guard_of(&e),
        "(v != null && ((v.Ok !== undefined && typeof v.Ok === \"number\") || (v.Err !== undefined && typeof v.Err === \"string\")))"
    );
}

#[test]
fn tuple_checks_length_and_slots() {
    let e = TypeExpr::Tuple(vec![num(), text()]);
    assert_eq!(
        guard_of(&e),
        "(Array.isArray(v) && v.length === 2 && v[0] !== undefined && typeof v[0] === \"number\" && v[1] !== undefined && typeof v[1] === \"string\")"
    );
}

#[test]
fn named_and_unknown_guards() {
    assert_eq!(guard_of(&TypeExpr::Named("Other".to_string(), vec![])), "isa_Other(v)");
    assert_eq!(
        guard_of(&TypeExpr::Named("B".to_string(), vec![num()])),
        "isa_B<number>(v, \"number\")"
    );
    assert_eq!(guard_of(&TypeExpr::Unknown), "true");
    assert_eq!(type_text(&TypeExpr::Unknown), "any");
}

#[test]
fn unit_enum_guard_is_membership() {
    let s = guarded(
        "Color",
        SchemaData::Enum(vec![variant("Red", Style::Unit, vec![]), variant("Blue", Style::Unit, vec![])]),
    );
    assert_eq!(
        guard(&s),
        "export const isa_Color = (obj: any): obj is Color => (obj != null && [\"Red\", \"Blue\"].includes(obj));"
    );
}

#[test]
fn adjacent_enum_guard() {
    let mut s = guarded(
        "E",
        SchemaData::Enum(vec![
            variant("V1", Style::Named, vec![Field::new("foo", TypeExpr::Prim(Primitive::Boolean))]),
            variant("V2", Style::Unit, vec![]),
        ]),
    );
    s.options.tag = Some("id".to_string());
    s.options.content = Some("content".to_string());
    assert_eq!(
        guard(&s),
        "export const isa_E = (obj: any): obj is E => (obj !== undefined && (((obj != null && obj[\"id\"] === \"V1\" && obj[\"content\"] !== undefined && (obj[\"content\"] != null && obj[\"content\"][\"foo\"] !== undefined && typeof obj[\"content\"][\"foo\"] === \"boolean\"))) || ((obj != null && obj[\"id\"] === \"V2\"))));"
    );
}

#[test]
fn generic_guard_takes_type_name() {
    let mut s = guarded(
        "Value",
        SchemaData::Struct(Style::Named, vec![Field::new("value", TypeExpr::Named("T".to_string(), vec![]))]),
    );
    s.generics = vec![GenericParam::Type("T".to_string(), vec![])];
    match compile(&s) {
        Ok(c) => {
            assert_eq!(c.declaration, "export type Value<T> = { value: T };");
            assert_eq!(
                c.guard,
                Some(
                    "export const isa_Value = <T>(obj: any, typename: string): obj is Value<T> => (obj != null && obj[\"value\"] !== undefined && typeof obj[\"value\"] === typename);"
                        .to_string()
                )
            );
        }
        Err(_) => panic!("expected output"),
    }
}

#[test]
fn transparent_guard_is_field_guard() {
    let mut s = guarded("One", SchemaData::Struct(Style::Named, vec![Field::new("a", num())]));
    s.options.transparent = true;
    assert_eq!(guard(&s), "export const isa_One = (obj: any): obj is One => typeof obj === \"number\";");
}
