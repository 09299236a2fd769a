//! The checks that reject a container: flattened fields, tag clashes, and
//! generic instantiations that a guard cannot test. Every problem found is
//! reported, in the order of the declaration.
use vstd::prelude::*;
use crate::declare::{all_unit, check_all_unit, derefs, kept, kept_variants, vderefs, visible_of};
use crate::errors::{clash_msg, flatten_msg, generic_args_msg, message_of, messages, mono_msg, override_msg, SchemaError};
use crate::shape::{check_ok_text, ok_text};
use crate::guard::{all_prim, check_all_prim, check_param, is_param, names_of};
use crate::mapper::ts_list;
use crate::schema::{visible, Field, Style, TypeExpr, Variant};
use crate::text::lemma_take_last;
use crate::tags::TagInfo;

verus! {

pub open spec fn any_flatten(vs: Seq<Field>) -> bool {
    exists|i: int| 0 <= i < vs.len() && vs[i].flatten
}

/// One error for a struct or variant whose visible fields ask to be flattened.
pub open spec fn flatten_msgs(c: Seq<char>, vs: Seq<Field>) -> Seq<Seq<char>> {
    if any_flatten(vs) {
        seq![flatten_msg(c)]
    } else {
        seq![]
    }
}

pub open spec fn has_field_named(vs: Seq<Field>, n: Seq<char>) -> bool {
    exists|i: int| 0 <= i < vs.len() && vs[i].name@ == n
}

/// An internally tagged variant with named fields may not have a field named
/// like the tag.
pub open spec fn clash_msgs(c: Seq<char>, ti: TagInfo, v: Variant) -> Seq<Seq<char>> {
    match ti.tag {
        Some(t) => if !ti.untagged && ti.content.is_none() && v.style == Style::Named && has_field_named(
            visible(v.fields@),
            t@,
        ) {
            seq![clash_msg(c, v.name@)]
        } else {
            seq![]
        },
        None => seq![],
    }
}

pub open spec fn variant_msgs(c: Seq<char>, ti: TagInfo, ks: Seq<Variant>) -> Seq<Seq<char>>
    decreases ks.len(),
{
    if ks.len() == 0 {
        seq![]
    } else {
        variant_msgs(c, ti, ks.drop_last()) + flatten_msgs(c, visible(ks.last().fields@)) + clash_msgs(
            c,
            ti,
            ks.last(),
        )
    }
}

/// The problems that stop a type declaration.
pub open spec fn struct_decl_msgs(c: Seq<char>, style: Style, fields: Seq<Field>) -> Seq<Seq<char>> {
    if style == Style::Unit {
        seq![]
    } else {
        flatten_msgs(c, visible(fields))
    }
}

pub open spec fn enum_decl_msgs(c: Seq<char>, vs: Seq<Variant>, ti: TagInfo) -> Seq<Seq<char>> {
    if all_unit(kept(vs)) {
        seq![]
    } else {
        variant_msgs(c, ti, kept(vs))
    }
}

/// The problems a guard finds in a type expression.
pub open spec fn type_msgs(c: Seq<char>, e: TypeExpr, fl: Field, ps: Seq<Seq<char>>) -> Seq<Seq<char>>
    decreases e, 0nat,
{
    match e {
        TypeExpr::Array(t) => type_msgs(c, *t, fl, ps),
        TypeExpr::SetOf(t) => type_msgs(c, *t, fl, ps),
        TypeExpr::MapOf(_, w) => type_msgs(c, *w, fl, ps),
        TypeExpr::Optional(t) => type_msgs(c, *t, fl, ps),
        TypeExpr::Wrapper(t) => type_msgs(c, *t, fl, ps),
        TypeExpr::Either(a, b) => type_msgs(c, *a, fl, ps) + type_msgs(c, *b, fl, ps),
        TypeExpr::Tuple(ts) => list_msgs(c, ts@, fl, ps),
        TypeExpr::Named(id, args) => if args@.len() > 0 && is_param(id@, ps) {
            seq![generic_args_msg(id@)]
        } else if args@.len() > 0 && !fl.user_guard && !all_prim(args@) {
            seq![mono_msg(id@, ts_list(args@, fl.as_bytes))]
        } else {
            seq![]
        },
        _ => seq![],
    }
}

pub open spec fn list_msgs(c: Seq<char>, ts: Seq<TypeExpr>, fl: Field, ps: Seq<Seq<char>>) -> Seq<Seq<char>>
    decreases ts, 0nat,
{
    if ts.len() == 0 {
        seq![]
    } else {
        list_msgs(c, ts.subrange(0, ts.len() - 1), fl, ps) + type_msgs(c, ts[ts.len() - 1], fl, ps)
    }
}

/// A field's own type text can be guarded only where it names a primitive type.
pub open spec fn field_msgs(c: Seq<char>, f: Field, ps: Seq<Seq<char>>) -> Seq<Seq<char>> {
    match f.ts_override {
        Some(t) => if ok_text(t@) {
            seq![]
        } else {
            seq![override_msg(t@)]
        },
        None => type_msgs(c, f.ty, f, ps),
    }
}

pub open spec fn fields_msgs(c: Seq<char>, vs: Seq<Field>, ps: Seq<Seq<char>>) -> Seq<Seq<char>>
    decreases vs.len(),
{
    if vs.len() == 0 {
        seq![]
    } else {
        fields_msgs(c, vs.drop_last(), ps) + field_msgs(c, vs.last(), ps)
    }
}

pub open spec fn variants_guard_msgs(c: Seq<char>, ks: Seq<Variant>, ps: Seq<Seq<char>>) -> Seq<Seq<char>>
    decreases ks.len(),
{
    if ks.len() == 0 {
        seq![]
    } else {
        variants_guard_msgs(c, ks.drop_last(), ps) + fields_msgs(c, visible(ks.last().fields@), ps)
    }
}

/// The problems that stop a guard.
pub open spec fn struct_guard_msgs(c: Seq<char>, style: Style, fields: Seq<Field>, ps: Seq<Seq<char>>) -> Seq<Seq<char>> {
    if style == Style::Unit {
        seq![]
    } else {
        fields_msgs(c, visible(fields), ps)
    }
}

pub open spec fn enum_guard_msgs(c: Seq<char>, vs: Seq<Variant>, ps: Seq<Seq<char>>) -> Seq<Seq<char>> {
    if all_unit(kept(vs)) {
        seq![]
    } else {
        variants_guard_msgs(c, kept(vs), ps)
    }
}

proof fn lemma_push_msgs(es: Seq<SchemaError>, e: SchemaError)
    ensures
        messages(es.push(e)) == messages(es).push(message_of(e)),
{
    assert(messages(es.push(e)) =~= messages(es).push(message_of(e)));
}

fn push_flatten_errors(errs: &mut Vec<SchemaError>, c: &String, vs: &Vec<&Field>)
    ensures
        messages(final(errs)@) == messages(old(errs)@) + flatten_msgs(c@, derefs(vs@)),
{
    let ghost fs = derefs(vs@);
    let mut k: usize = 0;
    while k < vs.len()
        invariant
            fs == derefs(vs@),
            k <= vs@.len(),
            forall|j: int| 0 <= j < k ==> !fs[j].flatten,
            errs@ == old(errs)@,
        decreases vs@.len() - k,
    {
        if vs[k].flatten {
            assert(fs[k as int].flatten);
            assert(any_flatten(fs));
            let e = SchemaError::Flatten { container: c.clone() };
            proof {
                lemma_push_msgs(errs@, e);
            }
            errs.push(e);
            assert(messages(errs@) =~= messages(old(errs)@) + flatten_msgs(c@, fs));
            return;
        }
        k = k + 1;
    }
    assert(!any_flatten(fs));
    assert(messages(errs@) =~= messages(old(errs)@) + flatten_msgs(c@, fs));
}

fn check_has_field_named(vs: &Vec<&Field>, n: &String) -> (r: bool)
    ensures
        r == has_field_named(derefs(vs@), n@),
{
    let mut i: usize = 0;
    while i < vs.len()
        invariant
            i <= vs@.len(),
            forall|j: int| 0 <= j < i ==> (*vs@[j]).name@ != n@,
        decreases vs@.len() - i,
    {
        if vs[i].name == *n {
            assert(derefs(vs@)[i as int].name@ == n@);
            return true;
        }
        i = i + 1;
    }
    assert forall|j: int| 0 <= j < derefs(vs@).len() implies derefs(vs@)[j].name@ != n@ by {
        assert(derefs(vs@)[j] == *vs@[j]);
    }
    false
}

fn push_variant_errors(errs: &mut Vec<SchemaError>, c: &String, ti: &TagInfo, v: &Variant)
    ensures
        messages(final(errs)@) == messages(old(errs)@) + flatten_msgs(c@, visible(v.fields@))
            + clash_msgs(c@, *ti, *v),
{
    let vs = visible_of(&v.fields);
    push_flatten_errors(errs, c, &vs);
    let ghost mid = errs@;
    match &ti.tag {
        Some(t) => {
            if !ti.untagged && ti.content.is_none() && v.style == Style::Named
                && check_has_field_named(&vs, t) {
                let e = SchemaError::TagClash { container: c.clone(), variant: v.name.clone() };
                proof {
                    lemma_push_msgs(errs@, e);
                }
                errs.push(e);
                assert(messages(errs@) =~= messages(mid) + clash_msgs(c@, *ti, *v));
            } else {
                assert(messages(errs@) =~= messages(mid) + clash_msgs(c@, *ti, *v));
            }
        },
        None => {
            assert(messages(errs@) =~= messages(mid) + clash_msgs(c@, *ti, *v));
        },
    }
    assert(messages(errs@) =~= messages(old(errs)@) + flatten_msgs(c@, visible(v.fields@)) + clash_msgs(
        c@,
        *ti,
        *v,
    ));
}

/// Collects the problems that stop a struct's declaration.
pub fn struct_decl_errors(errs: &mut Vec<SchemaError>, c: &String, style: Style, fields: &Vec<Field>)
    ensures
        messages(final(errs)@) == messages(old(errs)@) + struct_decl_msgs(c@, style, fields@),
{
    if style == Style::Unit {
        assert(messages(errs@) =~= messages(old(errs)@) + struct_decl_msgs(c@, style, fields@));
    } else {
        let vs = visible_of(fields);
        push_flatten_errors(errs, c, &vs);
    }
}

/// Collects the problems that stop an enum's declaration.
pub fn enum_decl_errors(errs: &mut Vec<SchemaError>, c: &String, variants: &Vec<Variant>, ti: &TagInfo)
    ensures
        messages(final(errs)@) == messages(old(errs)@) + enum_decl_msgs(c@, variants@, *ti),
{
    let ks = kept_variants(variants);
    let ghost gs = vderefs(ks@);
    if check_all_unit(&ks) {
        assert(messages(errs@) =~= messages(old(errs)@) + enum_decl_msgs(c@, variants@, *ti));
    } else {
        let mut k: usize = 0;
        while k < ks.len()
            invariant
                gs == vderefs(ks@),
                k <= ks@.len(),
                messages(errs@) == messages(old(errs)@) + variant_msgs(c@, *ti, gs.take(k as int)),
            decreases ks@.len() - k,
        {
            proof {
                lemma_take_last(gs, k as int);
            }
            push_variant_errors(errs, c, ti, ks[k]);
            k = k + 1;
            assert(messages(errs@) =~= messages(old(errs)@) + variant_msgs(c@, *ti, gs.take(k as int)));
        }
        assert(gs.take(k as int) =~= gs);
    }
}

/// Collects the problems a guard finds in a type expression.
pub fn type_errors(errs: &mut Vec<SchemaError>, c: &String, e: &TypeExpr, fl: &Field, ps: &Vec<String>)
    ensures
        messages(final(errs)@) == messages(old(errs)@) + type_msgs(c@, *e, *fl, names_of(ps@)),
    decreases e, 0nat,
{
    let ghost pn = names_of(ps@);
    match e {
        TypeExpr::Array(t) => type_errors(errs, c, t, fl, ps),
        TypeExpr::SetOf(t) => type_errors(errs, c, t, fl, ps),
        TypeExpr::MapOf(_, w) => type_errors(errs, c, w, fl, ps),
        TypeExpr::Optional(t) => type_errors(errs, c, t, fl, ps),
        TypeExpr::Wrapper(t) => type_errors(errs, c, t, fl, ps),
        TypeExpr::Either(a, b) => {
            type_errors(errs, c, a, fl, ps);
            type_errors(errs, c, b, fl, ps);
            assert(messages(errs@) =~= messages(old(errs)@) + type_msgs(c@, *e, *fl, pn));
        },
        TypeExpr::Tuple(ts) => list_errors(errs, c, ts, fl, ps),
        TypeExpr::Named(id, args) => {
            if args.len() > 0 && check_param(id, ps) {
                let e = SchemaError::GenericArgs { container: c.clone(), name: id.clone() };
                proof {
                    lemma_push_msgs(errs@, e);
                }
                errs.push(e);
            } else if args.len() > 0 && !fl.user_guard && !check_all_prim(args) {
                let mut a = String::new();
                crate::mapper::push_list(&mut a, args, fl.as_bytes);
                let e = SchemaError::Monomorphization { container: c.clone(), name: id.clone(), args: a };
                proof {
                    lemma_push_msgs(errs@, e);
                }
                errs.push(e);
            }
            assert(messages(errs@) =~= messages(old(errs)@) + type_msgs(c@, *e, *fl, pn));
        },
        _ => {
            assert(messages(errs@) =~= messages(old(errs)@) + type_msgs(c@, *e, *fl, pn));
        },
    }
}

fn list_errors(errs: &mut Vec<SchemaError>, c: &String, ts: &Vec<TypeExpr>, fl: &Field, ps: &Vec<String>)
    ensures
        messages(final(errs)@) == messages(old(errs)@) + list_msgs(c@, ts@, *fl, names_of(ps@)),
    decreases ts@, 0nat,
{
    let ghost pn = names_of(ps@);
            let mut i: usize = 0;
            while i < ts.len()
                invariant
                    pn == names_of(ps@),
                    i <= ts@.len(),
                    messages(errs@) == messages(old(errs)@) + list_msgs(c@, ts@.take(i as int), *fl, pn),
                decreases ts@.len() - i,
            {
                assert(ts@.take(i + 1).subrange(0, i as int) =~= ts@.take(i as int));
                type_errors(errs, c, &ts[i], fl, ps);
                i = i + 1;
                assert(messages(errs@) =~= messages(old(errs)@) + list_msgs(c@, ts@.take(i as int), *fl, pn));
            }
            assert(ts@.take(i as int) =~= ts@);
        }

fn push_fields_errors(errs: &mut Vec<SchemaError>, c: &String, vs: &Vec<&Field>, ps: &Vec<String>)
    ensures
        messages(final(errs)@) == messages(old(errs)@) + fields_msgs(c@, derefs(vs@), names_of(ps@)),
{
    let ghost fs = derefs(vs@);
    let ghost pn = names_of(ps@);
    let mut k: usize = 0;
    while k < vs.len()
        invariant
            fs == derefs(vs@),
            pn == names_of(ps@),
            k <= vs@.len(),
            messages(errs@) == messages(old(errs)@) + fields_msgs(c@, fs.take(k as int), pn),
        decreases vs@.len() - k,
    {
        proof {
            lemma_take_last(fs, k as int);
        }
        let f: &Field = vs[k];
        match &f.ts_override {
            Some(t) => {
                if !check_ok_text(t) {
                    let e = SchemaError::OverrideNotPrimitive { container: c.clone(), text: t.clone() };
                    proof {
                        lemma_push_msgs(errs@, e);
                    }
                    errs.push(e);
                }
            },
            None => type_errors(errs, c, &f.ty, f, ps),
        }
        k = k + 1;
        assert(messages(errs@) =~= messages(old(errs)@) + fields_msgs(c@, fs.take(k as int), pn));
    }
    assert(fs.take(k as int) =~= fs);
}

/// Collects the problems that stop a struct's guard.
pub fn struct_guard_errors(
    errs: &mut Vec<SchemaError>,
    c: &String,
    style: Style,
    fields: &Vec<Field>,
    ps: &Vec<String>,
)
    ensures
        messages(final(errs)@) == messages(old(errs)@) + struct_guard_msgs(c@, style, fields@, names_of(ps@)),
{
    if style == Style::Unit {
        assert(messages(errs@) =~= messages(old(errs)@) + struct_guard_msgs(c@, style, fields@, names_of(ps@)));
    } else {
        let vs = visible_of(fields);
        push_fields_errors(errs, c, &vs, ps);
    }
}

/// Collects the problems that stop an enum's guard.
pub fn enum_guard_errors(errs: &mut Vec<SchemaError>, c: &String, variants: &Vec<Variant>, ps: &Vec<String>)
    ensures
        messages(final(errs)@) == messages(old(errs)@) + enum_guard_msgs(c@, variants@, names_of(ps@)),
{
    let ks = kept_variants(variants);
    let ghost gs = vderefs(ks@);
    let ghost pn = names_of(ps@);
    if check_all_unit(&ks) {
        assert(messages(errs@) =~= messages(old(errs)@) + enum_guard_msgs(c@, variants@, pn));
    } else {
        let mut k: usize = 0;
        while k < ks.len()
            invariant
                gs == vderefs(ks@),
                pn == names_of(ps@),
                k <= ks@.len(),
                messages(errs@) == messages(old(errs)@) + variants_guard_msgs(c@, gs.take(k as int), pn),
            decreases ks@.len() - k,
        {
            proof {
                lemma_take_last(gs, k as int);
            }
            let vs = visible_of(&ks[k].fields);
            push_fields_errors(errs, c, &vs, ps);
            k = k + 1;
            assert(messages(errs@) =~= messages(old(errs)@) + variants_guard_msgs(c@, gs.take(k as int), pn));
        }
        assert(gs.take(k as int) =~= gs);
    }
}

} // verus!
