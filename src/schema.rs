//! The schema model: declared types, their fields and variants, and the
//! type-expression tree that the mapper and the guard synthesizer walk.
use vstd::prelude::*;

verus! {

/// Primitive value kinds. `Byte` is numeric, kept apart so that a byte
/// buffer can be told from other numeric sequences.
#[derive(PartialEq, Eq, Structural, Clone, Copy, Debug)]
pub enum Primitive {
    Byte,
    Number,
    Text,
    Boolean,
}

/// A type expression. Named references are leaves: the tree is finite.
pub enum TypeExpr {
    Prim(Primitive),
    /// A sequence of elements (vectors, slices, arrays, lists).
    Array(Box<TypeExpr>),
    /// A set of elements; it has the shape of a sequence.
    SetOf(Box<TypeExpr>),
    /// A map from keys to values.
    MapOf(Box<TypeExpr>, Box<TypeExpr>),
    Optional(Box<TypeExpr>),
    /// A value of one of two arms, `Ok` or `Err`.
    Either(Box<TypeExpr>, Box<TypeExpr>),
    Tuple(Vec<TypeExpr>),
    /// Named parameters and an optional return type.
    Function(Vec<(String, TypeExpr)>, Option<Box<TypeExpr>>),
    /// A reference to a type by name, with type arguments.
    Named(String, Vec<TypeExpr>),
    /// A smart reference or borrow with one type argument; it adds nothing.
    Wrapper(Box<TypeExpr>),
    Unknown,
}

/// A field of a struct or of a variant.
pub struct Field {
    /// The name in the declaring source (empty for a positional field).
    pub ident: String,
    /// The name under which the field is serialized.
    pub name: String,
    pub ty: TypeExpr,
    pub skip: bool,
    /// The field's type is a zero-size marker with no runtime representation.
    pub phantom: bool,
    /// The field asks to have another type's fields merged inline.
    pub flatten: bool,
    /// A byte sequence in this field is serialized as a string.
    pub as_bytes: bool,
    /// Type text given by the user, used verbatim.
    pub ts_override: Option<String>,
    /// Guards check only the first element of sequences and maps.
    pub first_only: bool,
    /// A generic type referenced here brings a guard of its own.
    pub user_guard: bool,
}

/// How fields are laid out in a struct or a variant.
#[derive(PartialEq, Eq, Structural, Clone, Copy, Debug)]
pub enum Style {
    Unit,
    Newtype,
    Tuple,
    Named,
}

pub struct Variant {
    /// The serialized name.
    pub name: String,
    pub style: Style,
    pub fields: Vec<Field>,
    pub skip: bool,
}

/// A generic parameter of a declared type. Trait bounds are kept but never
/// emitted.
pub enum GenericParam {
    Lifetime,
    Type(String, Vec<String>),
}

/// Container-level options.
pub struct ContainerOptions {
    pub transparent: bool,
    pub tag: Option<String>,
    pub content: Option<String>,
    pub untagged: bool,
    /// Whether a guard is generated at all.
    pub guard: bool,
}

pub enum SchemaData {
    Struct(Style, Vec<Field>),
    Enum(Vec<Variant>),
}

/// One declared type.
pub struct TypeSchema {
    pub name: String,
    pub generics: Vec<GenericParam>,
    pub docs: Vec<String>,
    pub options: ContainerOptions,
    pub data: SchemaData,
}

impl Field {
    /// A field serialized under its own name, with no options set.
    pub fn new(name: &str, ty: TypeExpr) -> (r: Field)
        ensures
            r.ident@ == name@,
            r.name@ == name@,
            r.ty == ty,
            !r.skip && !r.phantom && !r.flatten && !r.as_bytes && !r.first_only && !r.user_guard,
            r.ts_override is None,
    {
        Field {
            ident: String::from_str(name),
            name: String::from_str(name),
            ty,
            skip: false,
            phantom: false,
            flatten: false,
            as_bytes: false,
            ts_override: None,
            first_only: false,
            user_guard: false,
        }
    }
}

impl ContainerOptions {
    /// No options: externally tagged, not transparent, no guard.
    pub fn new() -> (r: ContainerOptions)
        ensures
            !r.transparent && !r.untagged && !r.guard,
            r.tag is None,
            r.content is None,
    {
        ContainerOptions { transparent: false, tag: None, content: None, untagged: false, guard: false }
    }
}

/// A field is shown unless it is skipped or has a marker type.
pub open spec fn shown(f: Field) -> bool {
    !f.skip && !f.phantom
}

/// The visible fields, in their order.
pub open spec fn visible(fs: Seq<Field>) -> Seq<Field>
    decreases fs.len(),
{
    if fs.len() == 0 {
        seq![]
    } else {
        let p = visible(fs.drop_last());
        if shown(fs.last()) {
            p.push(fs.last())
        } else {
            p
        }
    }
}

/// The fields that are neither skipped nor of a marker type.
pub fn filter_visible<'a>(fields: &'a Vec<Field>) -> (r: Vec<&'a Field>)
    ensures
        r@.len() == visible(fields@).len(),
        forall|i: int| 0 <= i < r@.len() ==> *r@[i] == visible(fields@)[i],
{
    let mut r: Vec<&'a Field> = Vec::new();
    let mut i: usize = 0;
    while i < fields.len()
        invariant
            i <= fields@.len(),
            r@.len() == visible(fields@.take(i as int)).len(),
            forall|k: int| 0 <= k < r@.len() ==> *r@[k] == visible(fields@.take(i as int))[k],
        decreases fields@.len() - i,
    {
        let f = &fields[i];
        assert(fields@.take(i + 1).drop_last() =~= fields@.take(i as int));
        if !f.skip && !f.phantom {
            r.push(f);
        }
        i = i + 1;
    }
    assert(fields@.take(i as int) =~= fields@);
    r
}

pub fn is_shown(f: &Field) -> (r: bool)
    ensures
        r == shown(*f),
{
    !f.skip && !f.phantom
}

} // verus!
