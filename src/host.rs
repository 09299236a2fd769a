//! Reading a host type path (its last segment's name and type arguments)
//! as a type expression: the fixed table of primitive, container and
//! wrapper names.
use vstd::prelude::*;
use crate::schema::{Primitive, TypeExpr};

verus! {

pub open spec fn number_name(n: Seq<char>) -> bool {
    n == "u16"@ || n == "u32"@ || n == "u64"@ || n == "u128"@ || n == "usize"@ || n == "i8"@ || n
        == "i16"@ || n == "i32"@ || n == "i64"@ || n == "i128"@ || n == "isize"@ || n == "f64"@ || n
        == "f32"@
}

pub open spec fn text_name(n: Seq<char>) -> bool {
    n == "String"@ || n == "str"@
}

/// Borrows and shared owners: they add nothing to the shape.
pub open spec fn wrapper_name(n: Seq<char>) -> bool {
    n == "Box"@ || n == "Cow"@ || n == "Rc"@ || n == "Arc"@
}

pub open spec fn sequence_name(n: Seq<char>) -> bool {
    n == "Vec"@ || n == "VecDeque"@ || n == "LinkedList"@
}

pub open spec fn set_name(n: Seq<char>) -> bool {
    n == "HashSet"@ || n == "BTreeSet"@
}

pub open spec fn map_name(n: Seq<char>) -> bool {
    n == "HashMap"@ || n == "BTreeMap"@
}

/// Closure traits named with angle-bracketed arguments have no shape.
pub open spec fn closure_name(n: Seq<char>) -> bool {
    n == "Fn"@ || n == "FnOnce"@ || n == "FnMut"@
}

/// The type expression a path stands for. Primitive names ignore their
/// arguments; containers need their exact number of them; any other name is
/// a reference to a named type.
pub open spec fn path_meaning(r: TypeExpr, name: String, args: Seq<TypeExpr>) -> bool {
    let n = name@;
    let k = args.len();
    if n == "u8"@ {
        r == TypeExpr::Prim(Primitive::Byte)
    } else if number_name(n) {
        r == TypeExpr::Prim(Primitive::Number)
    } else if text_name(n) {
        r == TypeExpr::Prim(Primitive::Text)
    } else if n == "bool"@ {
        r == TypeExpr::Prim(Primitive::Boolean)
    } else if wrapper_name(n) && k == 1 {
        r is Wrapper && *r->Wrapper_0 == args[0]
    } else if sequence_name(n) && k == 1 {
        r is Array && *r->Array_0 == args[0]
    } else if set_name(n) && k == 1 {
        r is SetOf && *r->SetOf_0 == args[0]
    } else if map_name(n) && k == 2 {
        r is MapOf && *r->MapOf_0 == args[0] && *r->MapOf_1 == args[1]
    } else if n == "Option"@ && k == 1 {
        r is Optional && *r->Optional_0 == args[0]
    } else if n == "Result"@ && k == 2 {
        r is Either && *r->Either_0 == args[0] && *r->Either_1 == args[1]
    } else if closure_name(n) {
        r == TypeExpr::Unknown
    } else {
        r is Named && r->Named_0 == name && r->Named_1@ == args
    }
}

fn is(s: &String, lit: &str) -> (r: bool)
    ensures
        r == (s@ == lit@),
{
    let l = String::from_str(lit);
    *s == l
}

fn is_number_name(n: &String) -> (r: bool)
    ensures
        r == number_name(n@),
{
    is(n, "u16") || is(n, "u32") || is(n, "u64") || is(n, "u128") || is(n, "usize") || is(n, "i8")
        || is(n, "i16") || is(n, "i32") || is(n, "i64") || is(n, "i128") || is(n, "isize") || is(
        n,
        "f64",
    ) || is(n, "f32")
}

/// The type expression for a path whose last segment is `name<args>`.
pub fn path_type(name: String, args: Vec<TypeExpr>) -> (r: TypeExpr)
    ensures
        path_meaning(r, name, args@),
{
    let ghost a = args@;
    let mut args = args;
    let k = args.len();
    if is(&name, "u8") {
        TypeExpr::Prim(Primitive::Byte)
    } else if is_number_name(&name) {
        TypeExpr::Prim(Primitive::Number)
    } else if is(&name, "String") || is(&name, "str") {
        TypeExpr::Prim(Primitive::Text)
    } else if is(&name, "bool") {
        TypeExpr::Prim(Primitive::Boolean)
    } else if (is(&name, "Box") || is(&name, "Cow") || is(&name, "Rc") || is(&name, "Arc")) && k == 1 {
        let t = args.remove(0);
        TypeExpr::Wrapper(Box::new(t))
    } else if (is(&name, "Vec") || is(&name, "VecDeque") || is(&name, "LinkedList")) && k == 1 {
        let t = args.remove(0);
        TypeExpr::Array(Box::new(t))
    } else if (is(&name, "HashSet") || is(&name, "BTreeSet")) && k == 1 {
        let t = args.remove(0);
        TypeExpr::SetOf(Box::new(t))
    } else if (is(&name, "HashMap") || is(&name, "BTreeMap")) && k == 2 {
        let v = args.remove(1);
        let t = args.remove(0);
        TypeExpr::MapOf(Box::new(t), Box::new(v))
    } else if is(&name, "Option") && k == 1 {
        let t = args.remove(0);
        TypeExpr::Optional(Box::new(t))
    } else if is(&name, "Result") && k == 2 {
        let v = args.remove(1);
        let t = args.remove(0);
        TypeExpr::Either(Box::new(t), Box::new(v))
    } else if is(&name, "Fn") || is(&name, "FnOnce") || is(&name, "FnMut") {
        TypeExpr::Unknown
    } else {
        TypeExpr::Named(name, args)
    }
}

} // verus!
