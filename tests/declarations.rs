use typescript_definitions::bytes::byte_string;
use typescript_definitions::compile::{compile, declaration};
use typescript_definitions::schema::{
    ContainerOptions, Field, GenericParam, Primitive, SchemaData, Style, TypeExpr, TypeSchema,
    Variant,
};

fn num() -> TypeExpr {
    TypeExpr::Prim(Primitive::Number)
}

fn text() -> TypeExpr {
    TypeExpr::Prim(Primitive::Text)
}

fn boolean() -> TypeExpr {
    TypeExpr::Prim(Primitive::Boolean)
}

fn array(t: TypeExpr) -> TypeExpr {
    TypeExpr::Array(Box::new(t))
}

fn option(t: TypeExpr) -> TypeExpr {
    TypeExpr::Optional(Box::new(t))
}

fn either(a: TypeExpr, b: TypeExpr) -> TypeExpr {
    TypeExpr::Either(Box::new(a), Box::new(b))
}

fn wrap(t: TypeExpr) -> TypeExpr {
    TypeExpr::Wrapper(Box::new(t))
}

fn named(id: &str, args: Vec<TypeExpr>) -> TypeExpr {
    TypeExpr::Named(id.to_string(), args)
}

fn renamed(ident: &str, name: &str, ty: TypeExpr) -> Field {
    let mut f = Field::new(ident, ty);
    f.name = name.to_string();
    f
}

fn skipped(name: &str, ty: TypeExpr) -> Field {
    let mut f = Field::new(name, ty);
    f.skip = true;
    f
}

fn positional(ty: TypeExpr) -> Field {
    Field::new("", ty)
}

fn type_param(name: &str) -> GenericParam {
    GenericParam::Type(name.to_string(), vec![])
}

fn strukt(name: &str, style: Style, fields: Vec<Field>) -> TypeSchema {
    TypeSchema {
        name: name.to_string(),
        generics: vec![],
        docs: vec![],
        options: ContainerOptions::new(),
        data: SchemaData::Struct(style, fields),
    }
}

fn variant(name: &str, style: Style, fields: Vec<Field>) -> Variant {
    Variant { name: name.to_string(), style, fields, skip: false }
}

fn enumeration(name: &str, variants: Vec<Variant>) -> TypeSchema {
    TypeSchema {
        name: name.to_string(),
        generics: vec![],
        docs: vec![],
        options: ContainerOptions::new(),
        data: SchemaData::Enum(variants),
    }
}

#[test]
fn as_byte_string() {
    assert_eq!(byte_string(&[1, 2, 3, 4, 5, 244]), "\\x01\\x02\\x03\\x04\\x05\\xf4");
}

#[test]
fn untagged_enum() {
    let mut s = enumeration(
        "Untagged",
        vec![
            variant("V1", Style::Named, vec![Field::new("id", num()), Field::new("attr", text())]),
            variant("V2", Style::Named, vec![Field::new("id", num()), Field::new("attr2", array(text()))]),
        ],
    );
    s.options.untagged = true;
    assert_eq!(
        declaration(&s),
        "export type Untagged = { id: number, attr: string } | { id: number, attr2: string[] };"
    );
}

#[test]
fn external_enum() {
    let mut s = enumeration(
        "External",
        vec![
            variant("V1", Style::Named, vec![Field::new("id", num()), Field::new("attr", text())]),
            variant("V2", Style::Named, vec![Field::new("id", num()), Field::new("attr2", array(text()))]),
        ],
    );
    s.docs = vec!["Has documentation.".to_string()];
    assert_eq!(
        declaration(&s),
        "// Has documentation.\nexport type External = { V1: { id: number, attr: string } } | { V2: { id: number, attr2: string[] } };"
    );
}

#[test]
fn unit_struct() {
    let s = strukt("Unit", Style::Unit, vec![]);
    assert_eq!(declaration(&s), "export type Unit = {};");
}

#[test]
fn newtype_struct() {
    let s = strukt("Newtype", Style::Newtype, vec![positional(num())]);
    assert_eq!(declaration(&s), "export type Newtype = number;");
}

#[test]
fn tuple_struct() {
    let s = strukt("Tuple", Style::Tuple, vec![positional(num()), positional(text())]);
    assert_eq!(declaration(&s), "export type Tuple = [number, string];");
}

#[test]
fn struct_with_borrowed_fields() {
    let s = strukt(
        "Borrow",
        Style::Named,
        vec![Field::new("raw", wrap(text())), Field::new("cow", wrap(text()))],
    );
    assert_eq!(declaration(&s), "export type Borrow = { raw: string, cow: string };");
}

#[test]
fn struct_point_with_field_rename() {
    let s = strukt("Point", Style::Named, vec![renamed("x", "X", num()), renamed("y", "Y", num())]);
    assert_eq!(declaration(&s), "export type Point = { X: number, Y: number };");
}

#[test]
fn struct_with_array() {
    let s = strukt(
        "Point",
        Style::Named,
        vec![Field::new("x", array(num())), Field::new("y", num()), Field::new("z", option(num()))],
    );
    assert_eq!(declaration(&s), "export type Point = { x: number[], y: number, z: number | null };");
}

#[test]
fn struct_with_tuple() {
    let s = strukt(
        "Point2",
        Style::Named,
        vec![
            Field::new("x", TypeExpr::Tuple(vec![num(), text(), array(num())])),
            Field::new("y", num()),
            Field::new("v", array(num())),
            Field::new("z", TypeExpr::MapOf(Box::new(text()), Box::new(num()))),
        ],
    );
    assert_eq!(
        declaration(&s),
        "export type Point2 = { x: [number, string, number[]], y: number, v: number[], z: { [key: string]: number } };"
    );
}

#[test]
fn enum_with_renamed_newtype_variants() {
    let mut internal = variant("Internal", Style::Newtype, vec![positional(num())]);
    internal.skip = true;
    let s = enumeration(
        "Enum",
        vec![
            variant("Var1", Style::Newtype, vec![positional(boolean())]),
            variant("Var2", Style::Newtype, vec![positional(num())]),
            variant("Var3", Style::Newtype, vec![positional(text())]),
            internal,
        ],
    );
    assert_eq!(
        declaration(&s),
        "export type Enum = { Var1: boolean } | { Var2: number } | { Var3: string };"
    );
}

#[test]
fn enum_with_unit_variants() {
    let s = enumeration(
        "Enum",
        vec![
            variant("V1", Style::Unit, vec![]),
            variant("V2", Style::Unit, vec![]),
            variant("V3", Style::Unit, vec![]),
        ],
    );
    assert_eq!(declaration(&s), "export enum Enum { V1 = \"V1\", V2 = \"V2\", V3 = \"V3\" };");
}

#[test]
fn enum_with_tuple_variants() {
    let s = enumeration(
        "Enum",
        vec![
            variant("V1", Style::Tuple, vec![positional(num()), positional(text())]),
            variant("V2", Style::Tuple, vec![positional(num()), positional(boolean())]),
            variant("V3", Style::Tuple, vec![positional(num()), positional(num())]),
        ],
    );
    assert_eq!(
        declaration(&s),
        "export type Enum = { V1: [number, string] } | { V2: [number, boolean] } | { V3: [number, number] };"
    );
}

#[test]
fn enum_with_struct_variants_and_renamed_fields() {
    let s = enumeration(
        "Enum",
        vec![
            variant("V1", Style::Named, vec![renamed("foo", "Foo", boolean())]),
            variant("V2", Style::Named, vec![renamed("bar", "Bar", num()), renamed("baz", "Baz", num())]),
            variant("V3", Style::Named, vec![renamed("quux", "Quux", text())]),
        ],
    );
    assert_eq!(
        declaration(&s),
        "export type Enum = { V1: { Foo: boolean } } | { V2: { Bar: number, Baz: number } } | { V3: { Quux: string } };"
    );
}

#[test]
fn enum_with_struct_and_tags() {
    let mut s = enumeration(
        "Enum",
        vec![
            variant("V1", Style::Named, vec![Field::new("foo", boolean())]),
            variant("V2", Style::Named, vec![Field::new("bar", num()), Field::new("baz", num())]),
            variant("V3", Style::Named, vec![Field::new("quux", text())]),
        ],
    );
    s.options.tag = Some("id".to_string());
    s.options.content = Some("content".to_string());
    assert_eq!(
        declaration(&s),
        "export type Enum = { id: \"V1\", content: { foo: boolean } } | { id: \"V2\", content: { bar: number, baz: number } } | { id: \"V3\", content: { quux: string } };"
    );
}

#[test]
fn struct_with_attr_refering_to_other_type() {
    let s = strukt(
        "A",
        Style::Named,
        vec![
            Field::new("x", num()),
            Field::new("b", named("B", vec![num()])),
            renamed("c", "xxx", either(num(), wrap(text()))),
            Field::new("d", either(option(num()), text())),
        ],
    );
    assert_eq!(
        declaration(&s),
        "export type A = { x: number, b: B<number>, xxx: { Ok: number } | { Err: string }, d: { Ok: number | null } | { Err: string } };"
    );
}

#[test]
fn struct_typescriptify() {
    let s = strukt(
        "A",
        Style::Named,
        vec![
            Field::new("x", num()),
            Field::new("c", either(num(), wrap(text()))),
            Field::new("d", either(option(num()), text())),
        ],
    );
    assert_eq!(
        declaration(&s),
        "export type A = { x: number, c: { Ok: number } | { Err: string }, d: { Ok: number | null } | { Err: string } };"
    );
}

#[test]
fn cow_as_pig() {
    let mut s = strukt(
        "S",
        Style::Named,
        vec![Field::new("pig", named("Pig", vec![text()])), Field::new("cow", wrap(text()))],
    );
    s.generics = vec![GenericParam::Lifetime];
    assert_eq!(declaration(&s), "export type S = { pig: Pig<string>, cow: string };");
}

#[test]
fn unit_enum_is_enum() {
    let s = enumeration(
        "Color",
        vec![
            variant("Red", Style::Unit, vec![]),
            variant("Green", Style::Unit, vec![]),
            variant("Blue", Style::Unit, vec![]),
        ],
    );
    assert_eq!(
        declaration(&s),
        "export enum Color { Red = \"Red\", Green = \"Green\", Blue = \"Blue\" };"
    );
}

#[test]
fn struct_has_function() {
    let mut s = strukt(
        "API",
        Style::Named,
        vec![
            Field::new("key", num()),
            Field::new("a", named("T", vec![])),
            Field::new(
                "get",
                TypeExpr::Function(vec![("arg".to_string(), wrap(num()))], Some(Box::new(text()))),
            ),
            Field::new(
                "get2",
                TypeExpr::Function(
                    vec![("p1".to_string(), named("T", vec![])), ("p2".to_string(), num())],
                    Some(Box::new(option(num()))),
                ),
            ),
        ],
    );
    s.generics = vec![type_param("T")];
    assert_eq!(
        declaration(&s),
        "export type API<T> = { key: number, a: T, get: (arg: number) => string, get2: (p1: T, p2: number) => number | null };"
    );
}

#[test]
fn struct_with_traitbounds() {
    let mut s = strukt(
        "API",
        Style::Named,
        vec![Field::new("key", num()), Field::new("a", named("T", vec![]))],
    );
    s.generics = vec![GenericParam::Type(
        "T".to_string(),
        vec!["Display".to_string(), "Send".to_string()],
    )];
    assert_eq!(declaration(&s), "export type API<T> = { key: number, a: T };");
}

#[test]
fn struct_with_serde_skip() {
    let s = strukt(
        "S",
        Style::Named,
        vec![Field::new("key", num()), Field::new("a", num()), skipped("b", num())],
    );
    assert_eq!(declaration(&s), "export type S = { key: number, a: number };");
}

#[test]
fn enum_with_serde_skip() {
    let mut z = variant("Z", Style::Unit, vec![]);
    z.skip = true;
    let s = enumeration(
        "S",
        vec![
            variant("A", Style::Unit, vec![]),
            variant(
                "E",
                Style::Named,
                vec![Field::new("key", num()), Field::new("a", num()), skipped("b", num())],
            ),
            variant(
                "F",
                Style::Tuple,
                vec![positional(num()), skipped("", num()), positional(text())],
            ),
            z,
        ],
    );
    assert_eq!(
        declaration(&s),
        "export type S = \"A\" | { E: { key: number, a: number } } | { F: [number, string] };"
    );
}

#[test]
fn struct_with_phantom_data_skip() {
    let mut b = Field::new("b", named("PhantomData", vec![text()]));
    b.phantom = true;
    let s = strukt("S", Style::Named, vec![Field::new("key", num()), Field::new("a", num()), b]);
    assert_eq!(declaration(&s), "export type S = { key: number, a: number };");
}

#[test]
fn struct_with_pointers_and_slices() {
    let s = strukt(
        "Pointers",
        Style::Named,
        vec![
            Field::new("keys", wrap(array(text()))),
            Field::new("buffer", wrap(array(TypeExpr::Prim(Primitive::Byte)))),
            Field::new("buffer2", array(TypeExpr::Prim(Primitive::Byte))),
        ],
    );
    assert_eq!(
        declaration(&s),
        "export type Pointers = { keys: string[], buffer: number[], buffer2: number[] };"
    );
}

#[test]
fn struct_with_one_field_is_transparent() {
    let mut s = strukt("One", Style::Named, vec![Field::new("a", num())]);
    s.options.transparent = true;
    assert_eq!(declaration(&s), "export type One = number;");
}

#[test]
fn byte_buffer_field_is_a_string() {
    let mut image = Field::new("image", array(TypeExpr::Prim(Primitive::Byte)));
    image.as_bytes = true;
    let s = strukt("S", Style::Named, vec![image]);
    assert_eq!(declaration(&s), "export type S = { image: string };");
}

#[test]
fn type_override_is_verbatim() {
    let mut f = Field::new("when", named("DateTime", vec![]));
    f.ts_override = Some("string".to_string());
    let s = strukt("S", Style::Named, vec![f]);
    assert_eq!(declaration(&s), "export type S = { when: string };");
}

#[test]
fn all_fields_skipped_is_unit_shape() {
    let s = strukt("S", Style::Named, vec![skipped("a", num())]);
    assert_eq!(declaration(&s), "export type S = {};");
}

#[test]
fn compile_without_guard() {
    let s = strukt("Point", Style::Named, vec![renamed("x", "X", num()), renamed("y", "Y", num())]);
    match compile(&s) {
        Ok(c) => {
            assert_eq!(c.declaration, "export type Point = { X: number, Y: number };");
            assert!(c.guard.is_none());
        }
        Err(_) => panic!("expected a declaration"),
    }
}

fn one_variant_enum(tag: Option<&str>, content: Option<&str>, untagged: bool) -> TypeSchema {
    let mut s = enumeration(
        "E",
        vec![
            variant("V", Style::Named, vec![Field::new("a", num())]),
            variant("W", Style::Newtype, vec![positional(text())]),
        ],
    );
    s.options.tag = tag.map(|t| t.to_string());
    s.options.content = content.map(|c| c.to_string());
    s.options.untagged = untagged;
    s
}

#[test]
fn tag_schemes_on_named_variants() {
    assert_eq!(
        declaration(&one_variant_enum(Some("t"), None, false)),
        "export type E = { t: \"V\", a: number } | { t: \"W\", fields: string };"
    );
    assert_eq!(
        declaration(&one_variant_enum(Some("t"), Some("c"), false)),
        "export type E = { t: \"V\", c: { a: number } } | { t: \"W\", c: string };"
    );
    assert_eq!(
        declaration(&one_variant_enum(None, None, false)),
        "export type E = { V: { a: number } } | { W: string };"
    );
    assert_eq!(
        declaration(&one_variant_enum(None, None, true)),
        "export type E = { a: number } | string;"
    );
}

#[test]
fn unit_enum_ignores_tagging() {
    for (tag, content, untagged) in [
        (Some("t"), None, false),
        (Some("t"), Some("c"), false),
        (None, None, true),
        (None, None, false),
    ] {
        let mut s = enumeration(
            "Color",
            vec![variant("Red", Style::Unit, vec![]), variant("Blue", Style::Unit, vec![])],
        );
        s.options.tag = tag.map(|t: &str| t.to_string());
        s.options.content = content.map(|c: &str| c.to_string());
        s.options.untagged = untagged;
        assert_eq!(declaration(&s), "export enum Color { Red = \"Red\", Blue = \"Blue\" };");
    }
}

#[test]
fn adjacent_tagging_example() {
    let mut s = enumeration(
        "E",
        vec![
            variant("V1", Style::Named, vec![Field::new("foo", boolean())]),
            variant("V2", Style::Named, vec![Field::new("bar", num())]),
        ],
    );
    s.options.tag = Some("id".to_string());
    s.options.content = Some("content".to_string());
    assert_eq!(
        declaration(&s),
        "export type E = { id: \"V1\", content: { foo: boolean } } | { id: \"V2\", content: { bar: number } };"
    );
}

#[test]
fn unit_variants_in_a_union() {
    let mut s = enumeration(
        "E",
        vec![variant("A", Style::Unit, vec![]), variant("B", Style::Newtype, vec![positional(num())])],
    );
    assert_eq!(declaration(&s), "export type E = \"A\" | { B: number };");
    s.options.tag = Some("t".to_string());
    assert_eq!(declaration(&s), "export type E = { t: \"A\" } | { t: \"B\", fields: number };");
    s.options.untagged = true;
    assert_eq!(declaration(&s), "export type E = null | number;");
}
