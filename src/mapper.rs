//! The type mapper: type expressions to target type text.
use vstd::prelude::*;
use crate::schema::{Field, Primitive, TypeExpr};

verus! {

pub open spec fn prim_text(p: Primitive) -> Seq<char> {
    match p {
        Primitive::Byte => "number"@,
        Primitive::Number => "number"@,
        Primitive::Text => "string"@,
        Primitive::Boolean => "boolean"@,
    }
}

/// Element types whose text is a union or a lambda are parenthesized inside `[]`.
pub open spec fn needs_parens(e: TypeExpr) -> bool {
    match e {
        TypeExpr::Optional(_) => true,
        TypeExpr::Either(_, _) => true,
        TypeExpr::Function(_, _) => true,
        _ => false,
    }
}

pub open spec fn is_byte(e: TypeExpr) -> bool {
    e == TypeExpr::Prim(Primitive::Byte)
}

/// The target type text of `e`; `bytes` holds where byte sequences are
/// serialized as strings.
pub open spec fn ts_type(e: TypeExpr, bytes: bool) -> Seq<char>
    decreases e, 0nat,
{
    match e {
        TypeExpr::Prim(p) => prim_text(p),
        TypeExpr::Array(t) => seq_text(*t, bytes),
        TypeExpr::SetOf(t) => seq_text(*t, bytes),
        TypeExpr::MapOf(k, v) => "{ [key: "@ + ts_type(*k, bytes) + "]: "@ + ts_type(*v, bytes) + " }"@,
        TypeExpr::Optional(t) => ts_type(*t, bytes) + " | null"@,
        TypeExpr::Either(a, b) => "{ Ok: "@ + ts_type(*a, bytes) + " } | { Err: "@ + ts_type(*b, bytes)
            + " }"@,
        TypeExpr::Tuple(ts) => "["@ + ts_list(ts@, bytes) + "]"@,
        TypeExpr::Function(ps, ret) => "("@ + param_list(ps@, bytes) + ") => "@ + match ret {
            Some(r) => ts_type(*r, bytes),
            None => "void"@,
        },
        TypeExpr::Named(id, args) => if args@.len() == 0 {
            id@
        } else {
            id@ + "<"@ + ts_list(args@, bytes) + ">"@
        },
        TypeExpr::Wrapper(t) => ts_type(*t, bytes),
        TypeExpr::Unknown => "any"@,
    }
}

/// A sequence or set of `t`.
pub open spec fn seq_text(t: TypeExpr, bytes: bool) -> Seq<char>
    decreases t, 1nat,
{
    if bytes && is_byte(t) {
        "string"@
    } else if needs_parens(t) {
        "("@ + ts_type(t, bytes) + ")[]"@
    } else {
        ts_type(t, bytes) + "[]"@
    }
}

/// Type texts separated by `, `.
pub open spec fn ts_list(ts: Seq<TypeExpr>, bytes: bool) -> Seq<char>
    decreases ts, 0nat,
{
    if ts.len() == 0 {
        seq![]
    } else if ts.len() == 1 {
        ts_type(ts[0], bytes)
    } else {
        ts_list(ts.subrange(0, ts.len() - 1), bytes) + ", "@ + ts_type(ts[ts.len() - 1], bytes)
    }
}

/// Parameters `name: type`, separated by `, `.
pub open spec fn param_list(ps: Seq<(String, TypeExpr)>, bytes: bool) -> Seq<char>
    decreases ps, 0nat,
{
    if ps.len() == 0 {
        seq![]
    } else if ps.len() == 1 {
        ps[0].0@ + ": "@ + ts_type(ps[0].1, bytes)
    } else {
        param_list(ps.subrange(0, ps.len() - 1), bytes) + ", "@ + ps[ps.len() - 1].0@ + ": "@
            + ts_type(ps[ps.len() - 1].1, bytes)
    }
}

/// The type text of a field: the user's text where given, else its mapped type.
pub open spec fn field_type_text(f: Field) -> Seq<char> {
    match f.ts_override {
        Some(t) => t@,
        None => ts_type(f.ty, f.as_bytes),
    }
}

fn prim_name(p: Primitive) -> (r: &'static str)
    ensures
        r@ == prim_text(p),
{
    match p {
        Primitive::Byte => "number",
        Primitive::Number => "number",
        Primitive::Text => "string",
        Primitive::Boolean => "boolean",
    }
}

pub(crate) fn check_byte(e: &TypeExpr) -> (r: bool)
    ensures
        r == is_byte(*e),
{
    match e {
        TypeExpr::Prim(Primitive::Byte) => true,
        _ => false,
    }
}

fn check_parens(e: &TypeExpr) -> (r: bool)
    ensures
        r == needs_parens(*e),
{
    match e {
        TypeExpr::Optional(_) => true,
        TypeExpr::Either(_, _) => true,
        TypeExpr::Function(_, _) => true,
        _ => false,
    }
}

/// Appends the type text of `e` to `out`.
pub fn push_type(out: &mut String, e: &TypeExpr, bytes: bool)
    ensures
        final(out)@ == old(out)@ + ts_type(*e, bytes),
    decreases e, 0nat,
{
    match e {
        TypeExpr::Prim(p) => {
            out.append(prim_name(*p));
        },
        TypeExpr::Array(t) => {
            push_seq(out, t, bytes);
        },
        TypeExpr::SetOf(t) => {
            push_seq(out, t, bytes);
        },
        TypeExpr::MapOf(k, v) => {
            out.append("{ [key: ");
            push_type(out, k, bytes);
            out.append("]: ");
            push_type(out, v, bytes);
            out.append(" }");
            assert(final(out)@ =~= old(out)@ + ts_type(*e, bytes));
        },
        TypeExpr::Optional(t) => {
            push_type(out, t, bytes);
            out.append(" | null");
        },
        TypeExpr::Either(a, b) => {
            out.append("{ Ok: ");
            push_type(out, a, bytes);
            out.append(" } | { Err: ");
            push_type(out, b, bytes);
            out.append(" }");
            assert(final(out)@ =~= old(out)@ + ts_type(*e, bytes));
        },
        TypeExpr::Tuple(ts) => {
            out.append("[");
            push_list(out, ts, bytes);
            out.append("]");
            assert(final(out)@ =~= old(out)@ + ts_type(*e, bytes));
        },
        TypeExpr::Function(ps, ret) => {
            out.append("(");
            push_params(out, ps, bytes);
            out.append(") => ");
            match ret {
                Some(r) => push_type(out, r, bytes),
                None => out.append("void"),
            }
            assert(final(out)@ =~= old(out)@ + ts_type(*e, bytes));
        },
        TypeExpr::Named(id, args) => {
            out.append(id.as_str());
            if args.len() > 0 {
                out.append("<");
                push_list(out, args, bytes);
                out.append(">");
            }
            assert(final(out)@ =~= old(out)@ + ts_type(*e, bytes));
        },
        TypeExpr::Wrapper(t) => {
            push_type(out, t, bytes);
        },
        TypeExpr::Unknown => {
            out.append("any");
        },
    }
}

fn push_seq(out: &mut String, t: &TypeExpr, bytes: bool)
    ensures
        final(out)@ == old(out)@ + seq_text(*t, bytes),
    decreases t, 1nat,
{
    if bytes && check_byte(t) {
        out.append("string");
    } else if check_parens(t) {
        out.append("(");
        push_type(out, t, bytes);
        out.append(")[]");
        assert(final(out)@ =~= old(out)@ + seq_text(*t, bytes));
    } else {
        push_type(out, t, bytes);
        out.append("[]");
        assert(final(out)@ =~= old(out)@ + seq_text(*t, bytes));
    }
}

fn push_params(out: &mut String, ps: &Vec<(String, TypeExpr)>, bytes: bool)
    ensures
        final(out)@ == old(out)@ + param_list(ps@, bytes),
    decreases ps@, 0nat,
{
    let mut i: usize = 0;
    while i < ps.len()
        invariant
            i <= ps@.len(),
            out@ == old(out)@ + param_list(ps@.take(i as int), bytes),
        decreases ps@.len() - i,
    {
        assert(ps@.take(i + 1).subrange(0, i as int) =~= ps@.take(i as int));
        if i > 0 {
            out.append(", ");
        }
        let p = &ps[i];
        out.append(p.0.as_str());
        out.append(": ");
        proof {
            assert(decreases_to!(ps@[i as int] => ps@[i as int].1));
        }
        push_type(out, &p.1, bytes);
        i = i + 1;
        assert(out@ =~= old(out)@ + param_list(ps@.take(i as int), bytes));
    }
    assert(ps@.take(i as int) =~= ps@);
}

pub(crate) fn push_list(out: &mut String, ts: &Vec<TypeExpr>, bytes: bool)
    ensures
        final(out)@ == old(out)@ + ts_list(ts@, bytes),
    decreases ts@, 0nat,
{
    let mut i: usize = 0;
    while i < ts.len()
        invariant
            i <= ts@.len(),
            out@ == old(out)@ + ts_list(ts@.take(i as int), bytes),
        decreases ts@.len() - i,
    {
        assert(ts@.take(i + 1).subrange(0, i as int) =~= ts@.take(i as int));
        if i > 0 {
            out.append(", ");
        }
        push_type(out, &ts[i], bytes);
        i = i + 1;
        assert(out@ =~= old(out)@ + ts_list(ts@.take(i as int), bytes));
    }
    assert(ts@.take(i as int) =~= ts@);
}

/// The target type text of a type expression.
pub fn type_text(e: &TypeExpr) -> (r: String)
    ensures
        r@ == ts_type(*e, false),
{
    let mut out = String::new();
    push_type(&mut out, e, false);
    out
}

/// Appends the type text of a field.
pub fn push_field_type(out: &mut String, f: &Field)
    ensures
        final(out)@ == old(out)@ + field_type_text(*f),
{
    match &f.ts_override {
        Some(t) => out.append(t.as_str()),
        None => push_type(out, &f.ty, f.as_bytes),
    }
}

} // verus!
