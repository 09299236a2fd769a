//! The guard synthesizer: for each type expression, a target-language
//! boolean expression that holds of a value of that type. It follows the
//! type mapper case for case.
use vstd::prelude::*;
use crate::mapper::{check_byte, is_byte, ts_list};
use crate::schema::{Field, Primitive, TypeExpr};
use crate::text::{decimal, push_decimal};

verus! {

/// `typeof v === "t"`.
pub open spec fn typeof_check(v: Seq<char>, t: Seq<char>) -> Seq<char> {
    "typeof "@ + v + " === \""@ + t + "\""@
}

/// A suffix that narrows a sequence to its first element, where asked.
pub open spec fn first_cut(fl: Field) -> Seq<char> {
    if fl.first_only {
        ".slice(0, 1)"@
    } else {
        seq![]
    }
}

pub open spec fn numeric_key(k: TypeExpr) -> bool {
    k == TypeExpr::Prim(Primitive::Number) || k == TypeExpr::Prim(Primitive::Byte)
}

/// Map keys arrive as strings; a numeric key type asks that they read as numbers.
pub open spec fn key_check(k: TypeExpr) -> Seq<char> {
    if numeric_key(k) {
        "isFinite(+k) && "@
    } else {
        seq![]
    }
}

/// Whether `id` names a generic parameter of the container.
pub open spec fn is_param(id: Seq<char>, ps: Seq<Seq<char>>) -> bool {
    exists|i: int| 0 <= i < ps.len() && ps[i] == id
}

/// A type argument that a guard can be instantiated with.
pub open spec fn prim_arg(a: TypeExpr) -> bool {
    a is Prim
}

pub open spec fn all_prim(args: Seq<TypeExpr>) -> bool {
    forall|i: int| 0 <= i < args.len() ==> prim_arg(#[trigger] args[i])
}

/// The guard expression for a value `v` of type `e`, inside field `fl` of a
/// container whose generic parameters are `ps`.
pub open spec fn guard_expr(e: TypeExpr, v: Seq<char>, fl: Field, ps: Seq<Seq<char>>) -> Seq<char>
    decreases e, 0nat,
{
    match e {
        TypeExpr::Prim(p) => typeof_check(v, crate::mapper::prim_text(p)),
        TypeExpr::Array(t) => seq_guard(*t, v, fl, ps),
        TypeExpr::SetOf(t) => seq_guard(*t, v, fl, ps),
        TypeExpr::MapOf(k, w) => "("@ + v + " !== null && typeof "@ + v + " === \"object\" && Object.entries("@
            + v + ")"@ + first_cut(fl) + ".every(([k, x]) => "@ + key_check(*k) + guard_expr(
            *w,
            "x"@,
            fl,
            ps,
        ) + "))"@,
        TypeExpr::Optional(t) => "("@ + v + " === null || "@ + guard_expr(*t, v, fl, ps) + ")"@,
        TypeExpr::Either(a, b) => "("@ + v + " != null && (("@ + v + ".Ok !== undefined && "@
            + guard_expr(*a, v + ".Ok"@, fl, ps) + ") || ("@ + v + ".Err !== undefined && "@
            + guard_expr(*b, v + ".Err"@, fl, ps) + ")))"@,
        TypeExpr::Tuple(ts) => "(Array.isArray("@ + v + ") && "@ + v + ".length === "@ + decimal(
            ts@.len(),
        ) + slot_checks(ts@, v, fl, ps) + ")"@,
        TypeExpr::Function(_, _) => "true"@,
        TypeExpr::Named(id, args) => if args@.len() == 0 {
            if is_param(id@, ps) {
                "typeof "@ + v + " === typename"@
            } else {
                "isa_"@ + id@ + "("@ + v + ")"@
            }
        } else if is_param(id@, ps) || (!fl.user_guard && !all_prim(args@)) {
            "false"@
        } else {
            "isa_"@ + id@ + "<"@ + ts_list(args@, fl.as_bytes) + ">("@ + v + ", \""@ + ts_list(
                args@,
                fl.as_bytes,
            ) + "\")"@
        },
        TypeExpr::Wrapper(t) => guard_expr(*t, v, fl, ps),
        TypeExpr::Unknown => "true"@,
    }
}

/// The guard of a sequence or set of `t`.
pub open spec fn seq_guard(t: TypeExpr, v: Seq<char>, fl: Field, ps: Seq<Seq<char>>) -> Seq<char>
    decreases t, 1nat,
{
    if fl.as_bytes && is_byte(t) {
        typeof_check(v, "string"@)
    } else {
        "(Array.isArray("@ + v + ") && "@ + v + first_cut(fl) + ".every((x) => "@ + guard_expr(
            t,
            "x"@,
            fl,
            ps,
        ) + "))"@
    }
}

/// `v[i]` for a position `i`.
pub open spec fn slot(v: Seq<char>, i: nat) -> Seq<char> {
    v + "["@ + decimal(i) + "]"@
}

/// ` && `, a test that the slot is present, and its guard, for each slot of
/// a tuple in order.
pub open spec fn slot_checks(ts: Seq<TypeExpr>, v: Seq<char>, fl: Field, ps: Seq<Seq<char>>) -> Seq<char>
    decreases ts, 0nat,
{
    if ts.len() == 0 {
        seq![]
    } else {
        let n = (ts.len() - 1) as nat;
        slot_checks(ts.subrange(0, ts.len() - 1), v, fl, ps) + " && "@ + slot(v, n) + " !== undefined && "@
            + guard_expr(
            ts[ts.len() - 1],
            slot(v, n),
            fl,
            ps,
        )
    }
}

pub open spec fn names_of(ps: Seq<String>) -> Seq<Seq<char>> {
    ps.map_values(|s: String| s@)
}

/// `v` followed by `s`.
pub fn suffixed(v: &String, s: &str) -> (r: String)
    ensures
        r@ == v@ + s@,
{
    let mut r = v.clone();
    r.append(s);
    r
}

fn push_typeof(out: &mut String, v: &String, t: &str)
    ensures
        final(out)@ == old(out)@ + typeof_check(v@, t@),
{
    out.append("typeof ");
    out.append(v.as_str());
    out.append(" === \"");
    out.append(t);
    out.append("\"");
    assert(final(out)@ =~= old(out)@ + typeof_check(v@, t@));
}

fn push_first_cut(out: &mut String, fl: &Field)
    ensures
        final(out)@ == old(out)@ + first_cut(*fl),
{
    if fl.first_only {
        out.append(".slice(0, 1)");
    } else {
        assert(old(out)@ + first_cut(*fl) =~= old(out)@);
    }
}

pub(crate) fn check_param(id: &String, ps: &Vec<String>) -> (r: bool)
    ensures
        r == is_param(id@, names_of(ps@)),
{
    let mut i: usize = 0;
    while i < ps.len()
        invariant
            i <= ps@.len(),
            forall|j: int| 0 <= j < i ==> ps@[j]@ != id@,
        decreases ps@.len() - i,
    {
        if ps[i] == *id {
            assert(names_of(ps@)[i as int] == id@);
            return true;
        }
        i = i + 1;
    }
    assert(!is_param(id@, names_of(ps@))) by {
        assert forall|j: int| 0 <= j < names_of(ps@).len() implies names_of(ps@)[j] != id@ by {
            assert(names_of(ps@)[j] == ps@[j]@);
        }
    }
    false
}

pub(crate) fn check_all_prim(args: &Vec<TypeExpr>) -> (r: bool)
    ensures
        r == all_prim(args@),
{
    let mut i: usize = 0;
    while i < args.len()
        invariant
            i <= args@.len(),
            forall|j: int| 0 <= j < i ==> prim_arg(#[trigger] args@[j]),
        decreases args@.len() - i,
    {
        let ok = match &args[i] {
            TypeExpr::Prim(_) => true,
            _ => false,
        };
        if !ok {
            return false;
        }
        i = i + 1;
    }
    true
}

/// Appends the guard expression for a value `v` of type `e`.
#[verifier::rlimit(50)]
pub fn push_guard(out: &mut String, e: &TypeExpr, v: &String, fl: &Field, ps: &Vec<String>)
    ensures
        final(out)@ == old(out)@ + guard_expr(*e, v@, *fl, names_of(ps@)),
    decreases e, 0nat,
{
    let ghost gs = names_of(ps@);
    match e {
        TypeExpr::Prim(p) => {
            let t = match p {
                Primitive::Byte => "number",
                Primitive::Number => "number",
                Primitive::Text => "string",
                Primitive::Boolean => "boolean",
            };
            push_typeof(out, v, t);
        },
        TypeExpr::Array(t) => {
            push_seq_guard(out, t, v, fl, ps);
        },
        TypeExpr::SetOf(t) => {
            push_seq_guard(out, t, v, fl, ps);
        },
        TypeExpr::MapOf(k, w) => {
            out.append("(");
            out.append(v.as_str());
            out.append(" !== null && typeof ");
            out.append(v.as_str());
            out.append(" === \"object\" && Object.entries(");
            out.append(v.as_str());
            out.append(")");
            push_first_cut(out, fl);
            out.append(".every(([k, x]) => ");
            let numeric = match &**k {
                TypeExpr::Prim(Primitive::Number) => true,
                TypeExpr::Prim(Primitive::Byte) => true,
                _ => false,
            };
            if numeric {
                out.append("isFinite(+k) && ");
            }
            let x = String::from_str("x");
            push_guard(out, w, &x, fl, ps);
            out.append("))");
        },
        TypeExpr::Optional(t) => {
            out.append("(");
            out.append(v.as_str());
            out.append(" === null || ");
            push_guard(out, t, v, fl, ps);
            out.append(")");
        },
        TypeExpr::Either(a, b) => {
            out.append("(");
            out.append(v.as_str());
            out.append(" != null && ((");
            out.append(v.as_str());
            out.append(".Ok !== undefined && ");
            let vo = suffixed(v, ".Ok");
            push_guard(out, a, &vo, fl, ps);
            out.append(") || (");
            out.append(v.as_str());
            out.append(".Err !== undefined && ");
            let ve = suffixed(v, ".Err");
            push_guard(out, b, &ve, fl, ps);
            out.append(")))");
        },
        TypeExpr::Tuple(ts) => {
            out.append("(Array.isArray(");
            out.append(v.as_str());
            out.append(") && ");
            out.append(v.as_str());
            out.append(".length === ");
            push_decimal(out, ts.len());
            push_slot_checks(out, ts, v, fl, ps);
            out.append(")");
        },
        TypeExpr::Function(_, _) => {
            out.append("true");
        },
        TypeExpr::Named(id, args) => {
            let param = check_param(id, ps);
            if args.len() == 0 {
                if param {
                    out.append("typeof ");
                    out.append(v.as_str());
                    out.append(" === typename");
                } else {
                    out.append("isa_");
                    out.append(id.as_str());
                    out.append("(");
                    out.append(v.as_str());
                    out.append(")");
                }
            } else if param || (!fl.user_guard && !check_all_prim(args)) {
                out.append("false");
            } else {
                let mut targs = String::new();
                crate::mapper::push_list(&mut targs, args, fl.as_bytes);
                out.append("isa_");
                out.append(id.as_str());
                out.append("<");
                out.append(targs.as_str());
                out.append(">(");
                out.append(v.as_str());
                out.append(", \"");
                out.append(targs.as_str());
                out.append("\")");
            }
        },
        TypeExpr::Wrapper(t) => {
            push_guard(out, t, v, fl, ps);
        },
        TypeExpr::Unknown => {
            out.append("true");
        },
    }
    assert(final(out)@ =~= old(out)@ + guard_expr(*e, v@, *fl, gs));
}

fn push_seq_guard(out: &mut String, t: &TypeExpr, v: &String, fl: &Field, ps: &Vec<String>)
    ensures
        final(out)@ == old(out)@ + seq_guard(*t, v@, *fl, names_of(ps@)),
    decreases t, 1nat,
{
    if fl.as_bytes && check_byte(t) {
        push_typeof(out, v, "string");
    } else {
        out.append("(Array.isArray(");
        out.append(v.as_str());
        out.append(") && ");
        out.append(v.as_str());
        push_first_cut(out, fl);
        out.append(".every((x) => ");
        let x = String::from_str("x");
        push_guard(out, t, &x, fl, ps);
        out.append("))");
        assert(final(out)@ =~= old(out)@ + seq_guard(*t, v@, *fl, names_of(ps@)));
    }
}

/// `v[i]` as text.
pub fn slot_text(v: &String, i: usize) -> (r: String)
    ensures
        r@ == slot(v@, i as nat),
{
    let mut r = v.clone();
    r.append("[");
    push_decimal(&mut r, i);
    r.append("]");
    r
}

fn push_slot_checks(out: &mut String, ts: &Vec<TypeExpr>, v: &String, fl: &Field, ps: &Vec<String>)
    ensures
        final(out)@ == old(out)@ + slot_checks(ts@, v@, *fl, names_of(ps@)),
    decreases ts@, 0nat,
{
    let mut i: usize = 0;
    while i < ts.len()
        invariant
            i <= ts@.len(),
            out@ == old(out)@ + slot_checks(ts@.take(i as int), v@, *fl, names_of(ps@)),
        decreases ts@.len() - i,
    {
        assert(ts@.take(i + 1).subrange(0, i as int) =~= ts@.take(i as int));
        out.append(" && ");
        let sv = slot_text(v, i);
        out.append(sv.as_str());
        out.append(" !== undefined && ");
        push_guard(out, &ts[i], &sv, fl, ps);
        i = i + 1;
        assert(out@ =~= old(out)@ + slot_checks(ts@.take(i as int), v@, *fl, names_of(ps@)));
    }
    assert(ts@.take(i as int) =~= ts@);
}

} // verus!
