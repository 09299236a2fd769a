//! Guards of whole structs and enums, built from the field guards in the
//! same order and by the same cases as their type declarations.
use vstd::prelude::*;
use crate::declare::{all_unit, check_all_unit, content_key, derefs, is_unit_shape, kept, kept_variants, push_quoted, quoted, vderefs, visible_of};
use crate::guard::{guard_expr, names_of, push_guard, slot, slot_text, typeof_check};
use crate::schema::{visible, Field, Style, Variant};
use crate::tags::TagInfo;
use crate::text::{decimal, lemma_take_last, push_decimal};

verus! {

/// `o["k"]`.
pub open spec fn key_value(o: Seq<char>, k: Seq<char>) -> Seq<char> {
    o + "[\""@ + k + "\"]"@
}

pub open spec fn ok_text(t: Seq<char>) -> bool {
    t == "number"@ || t == "string"@ || t == "boolean"@
}

/// The guard of one field's value `v`. User-given type text is checked only
/// where it names a primitive type.
pub open spec fn field_guard(f: Field, v: Seq<char>, ps: Seq<Seq<char>>) -> Seq<char> {
    match f.ts_override {
        Some(t) => if ok_text(t@) {
            typeof_check(v, t@)
        } else {
            "true"@
        },
        None => guard_expr(f.ty, v, f, ps),
    }
}

/// The field is present in `o` and its value passes.
pub open spec fn member_check(f: Field, o: Seq<char>, ps: Seq<Seq<char>>) -> Seq<char> {
    key_value(o, f.name@) + " !== undefined && "@ + field_guard(f, key_value(o, f.name@), ps)
}

pub open spec fn member_checks(vs: Seq<Field>, o: Seq<char>, ps: Seq<Seq<char>>) -> Seq<char>
    decreases vs.len(),
{
    if vs.len() == 0 {
        seq![]
    } else if vs.len() == 1 {
        member_check(vs[0], o, ps)
    } else {
        member_checks(vs.drop_last(), o, ps) + " && "@ + member_check(vs.last(), o, ps)
    }
}

pub open spec fn field_slot_checks(vs: Seq<Field>, v: Seq<char>, ps: Seq<Seq<char>>) -> Seq<char>
    decreases vs.len(),
{
    if vs.len() == 0 {
        seq![]
    } else {
        field_slot_checks(vs.drop_last(), v, ps) + " && "@ + slot(v, (vs.len() - 1) as nat)
            + " !== undefined && "@ + field_guard(
            vs.last(),
            slot(v, (vs.len() - 1) as nat),
            ps,
        )
    }
}

pub open spec fn tuple_guard(vs: Seq<Field>, v: Seq<char>, ps: Seq<Seq<char>>) -> Seq<char> {
    "(Array.isArray("@ + v + ") && "@ + v + ".length === "@ + decimal(vs.len()) + field_slot_checks(
        vs,
        v,
        ps,
    ) + ")"@
}

pub open spec fn object_guard(vs: Seq<Field>, v: Seq<char>, ps: Seq<Seq<char>>) -> Seq<char> {
    "("@ + v + " != null && "@ + member_checks(vs, v, ps) + ")"@
}

/// The guard of a struct, case for case with its declaration body.
pub open spec fn struct_guard(
    style: Style,
    fields: Seq<Field>,
    transparent: bool,
    v: Seq<char>,
    ps: Seq<Seq<char>>,
) -> Seq<char> {
    let vs = visible(fields);
    if style == Style::Unit || vs.len() == 0 {
        v + " != null"@
    } else if style == Style::Newtype {
        field_guard(vs[0], v, ps)
    } else if style == Style::Tuple {
        tuple_guard(vs, v, ps)
    } else if vs.len() == 1 && transparent {
        field_guard(vs[0], v, ps)
    } else {
        object_guard(vs, v, ps)
    }
}

pub open spec fn payload_guard(style: Style, vs: Seq<Field>, x: Seq<char>, ps: Seq<Seq<char>>) -> Seq<char> {
    if style == Style::Newtype {
        field_guard(vs[0], x, ps)
    } else if style == Style::Tuple {
        tuple_guard(vs, x, ps)
    } else {
        object_guard(vs, x, ps)
    }
}

/// The guard of a variant without data.
pub open spec fn unit_guard(name: Seq<char>, ti: TagInfo, o: Seq<char>) -> Seq<char> {
    if ti.untagged {
        o + " === null"@
    } else {
        match ti.tag {
            Some(t) => "("@ + o + " != null && "@ + key_value(o, t@) + " === "@ + quoted(name) + ")"@,
            None => o + " === "@ + quoted(name),
        }
    }
}

/// `(o != null && o["tag"] === "Name" && `, the discriminant test.
pub open spec fn tag_head(o: Seq<char>, t: Seq<char>, name: Seq<char>) -> Seq<char> {
    "("@ + o + " != null && "@ + key_value(o, t) + " === "@ + quoted(name) + " && "@
}

/// The guard of a variant with data under a tag key.
pub open spec fn tagged_guard(v: Variant, t: Seq<char>, ti: TagInfo, o: Seq<char>, ps: Seq<Seq<char>>) -> Seq<char> {
    let vs = visible(v.fields@);
    if v.style == Style::Named && ti.content.is_none() {
        tag_head(o, t, v.name@) + member_checks(vs, o, ps) + ")"@
    } else {
        let x = key_value(o, content_key(ti));
        tag_head(o, t, v.name@) + x + " !== undefined && "@ + payload_guard(v.style, vs, x, ps) + ")"@
    }
}

/// The guard of a variant with data under its own name as key.
pub open spec fn external_guard(v: Variant, o: Seq<char>, ps: Seq<Seq<char>>) -> Seq<char> {
    let x = key_value(o, v.name@);
    "("@ + o + " != null && "@ + x + " !== undefined && "@ + payload_guard(v.style, visible(v.fields@), x, ps)
        + ")"@
}

/// The guard of one variant, case for case with its type text.
pub open spec fn variant_guard(v: Variant, ti: TagInfo, o: Seq<char>, ps: Seq<Seq<char>>) -> Seq<char> {
    if is_unit_shape(v) {
        unit_guard(v.name@, ti, o)
    } else if ti.untagged {
        payload_guard(v.style, visible(v.fields@), o, ps)
    } else {
        match ti.tag {
            None => external_guard(v, o, ps),
            Some(t) => tagged_guard(v, t@, ti, o, ps),
        }
    }
}

pub open spec fn variant_guards(ks: Seq<Variant>, ti: TagInfo, o: Seq<char>, ps: Seq<Seq<char>>) -> Seq<char>
    decreases ks.len(),
{
    if ks.len() == 0 {
        seq![]
    } else if ks.len() == 1 {
        "("@ + variant_guard(ks[0], ti, o, ps) + ")"@
    } else {
        variant_guards(ks.drop_last(), ti, o, ps) + " || "@ + "("@ + variant_guard(ks.last(), ti, o, ps)
            + ")"@
    }
}

pub open spec fn quoted_names(ks: Seq<Variant>) -> Seq<char>
    decreases ks.len(),
{
    if ks.len() == 0 {
        seq![]
    } else if ks.len() == 1 {
        quoted(ks[0].name@)
    } else {
        quoted_names(ks.drop_last()) + ", "@ + quoted(ks.last().name@)
    }
}

/// The guard of an enum: membership in the names of a plain enumeration, or
/// a defined value that passes some variant's guard.
pub open spec fn enum_guard(vs: Seq<Variant>, ti: TagInfo, o: Seq<char>, ps: Seq<Seq<char>>) -> Seq<char> {
    let ks = kept(vs);
    if all_unit(ks) {
        "("@ + o + " != null && ["@ + quoted_names(ks) + "].includes("@ + o + "))"@
    } else {
        "("@ + o + " !== undefined && ("@ + variant_guards(ks, ti, o, ps) + "))"@
    }
}

pub fn key_value_text(o: &String, k: &str) -> (r: String)
    ensures
        r@ == key_value(o@, k@),
{
    let mut r = o.clone();
    r.append("[\"");
    r.append(k);
    r.append("\"]");
    r
}

pub(crate) fn check_ok_text(t: &String) -> (r: bool)
    ensures
        r == ok_text(t@),
{
    let number = String::from_str("number");
    let string = String::from_str("string");
    let boolean = String::from_str("boolean");
    *t == number || *t == string || *t == boolean
}

pub fn push_field_guard(out: &mut String, f: &Field, v: &String, ps: &Vec<String>)
    ensures
        final(out)@ == old(out)@ + field_guard(*f, v@, names_of(ps@)),
{
    match &f.ts_override {
        Some(t) => {
            if check_ok_text(t) {
                out.append("typeof ");
                out.append(v.as_str());
                out.append(" === \"");
                out.append(t.as_str());
                out.append("\"");
                assert(final(out)@ =~= old(out)@ + field_guard(*f, v@, names_of(ps@)));
            } else {
                out.append("true");
            }
        },
        None => push_guard(out, &f.ty, v, f, ps),
    }
}

fn push_member_checks(out: &mut String, vs: &Vec<&Field>, o: &String, ps: &Vec<String>)
    ensures
        final(out)@ == old(out)@ + member_checks(derefs(vs@), o@, names_of(ps@)),
{
    let ghost fs = derefs(vs@);
    let mut k: usize = 0;
    while k < vs.len()
        invariant
            fs == derefs(vs@),
            k <= vs@.len(),
            out@ == old(out)@ + member_checks(fs.take(k as int), o@, names_of(ps@)),
        decreases vs@.len() - k,
    {
        proof {
            lemma_take_last(fs, k as int);
        }
        if k > 0 {
            out.append(" && ");
        }
        let f: &Field = vs[k];
        let x = key_value_text(o, f.name.as_str());
        out.append(x.as_str());
        out.append(" !== undefined && ");
        push_field_guard(out, f, &x, ps);
        k = k + 1;
        assert(out@ =~= old(out)@ + member_checks(fs.take(k as int), o@, names_of(ps@)));
    }
    assert(fs.take(k as int) =~= fs);
}

fn push_tuple_guard(out: &mut String, vs: &Vec<&Field>, v: &String, ps: &Vec<String>)
    ensures
        final(out)@ == old(out)@ + tuple_guard(derefs(vs@), v@, names_of(ps@)),
{
    let ghost fs = derefs(vs@);
    out.append("(Array.isArray(");
    out.append(v.as_str());
    out.append(") && ");
    out.append(v.as_str());
    out.append(".length === ");
    push_decimal(out, vs.len());
    let ghost mid = out@;
    let mut k: usize = 0;
    while k < vs.len()
        invariant
            fs == derefs(vs@),
            k <= vs@.len(),
            out@ == mid + field_slot_checks(fs.take(k as int), v@, names_of(ps@)),
        decreases vs@.len() - k,
    {
        proof {
            lemma_take_last(fs, k as int);
        }
        out.append(" && ");
        let x = slot_text(v, k);
        out.append(x.as_str());
        out.append(" !== undefined && ");
        push_field_guard(out, vs[k], &x, ps);
        k = k + 1;
        assert(out@ =~= mid + field_slot_checks(fs.take(k as int), v@, names_of(ps@)));
    }
    assert(fs.take(k as int) =~= fs);
    out.append(")");
    assert(final(out)@ =~= old(out)@ + tuple_guard(derefs(vs@), v@, names_of(ps@)));
}

fn push_object_guard(out: &mut String, vs: &Vec<&Field>, v: &String, ps: &Vec<String>)
    ensures
        final(out)@ == old(out)@ + object_guard(derefs(vs@), v@, names_of(ps@)),
{
    out.append("(");
    out.append(v.as_str());
    out.append(" != null && ");
    push_member_checks(out, vs, v, ps);
    out.append(")");
    assert(final(out)@ =~= old(out)@ + object_guard(derefs(vs@), v@, names_of(ps@)));
}

/// Appends the guard of a struct.
pub fn push_struct_guard(
    out: &mut String,
    style: Style,
    fields: &Vec<Field>,
    transparent: bool,
    v: &String,
    ps: &Vec<String>,
)
    ensures
        final(out)@ == old(out)@ + struct_guard(style, fields@, transparent, v@, names_of(ps@)),
{
    let vs = visible_of(fields);
    if style == Style::Unit || vs.len() == 0 {
        out.append(v.as_str());
        out.append(" != null");
        assert(final(out)@ =~= old(out)@ + struct_guard(style, fields@, transparent, v@, names_of(ps@)));
    } else if style == Style::Newtype {
        push_field_guard(out, vs[0], v, ps);
    } else if style == Style::Tuple {
        push_tuple_guard(out, &vs, v, ps);
    } else if vs.len() == 1 && transparent {
        push_field_guard(out, vs[0], v, ps);
    } else {
        push_object_guard(out, &vs, v, ps);
    }
}

fn push_payload_guard(out: &mut String, style: Style, vs: &Vec<&Field>, x: &String, ps: &Vec<String>)
    requires
        vs@.len() > 0,
    ensures
        final(out)@ == old(out)@ + payload_guard(style, derefs(vs@), x@, names_of(ps@)),
{
    if style == Style::Newtype {
        push_field_guard(out, vs[0], x, ps);
    } else if style == Style::Tuple {
        push_tuple_guard(out, vs, x, ps);
    } else {
        push_object_guard(out, vs, x, ps);
    }
}

fn push_unit_guard(out: &mut String, name: &String, ti: &TagInfo, o: &String)
    ensures
        final(out)@ == old(out)@ + unit_guard(name@, *ti, o@),
{
    if ti.untagged {
        out.append(o.as_str());
        out.append(" === null");
    } else {
        match &ti.tag {
            Some(t) => {
                out.append("(");
                out.append(o.as_str());
                out.append(" != null && ");
                let k = key_value_text(o, t.as_str());
                out.append(k.as_str());
                out.append(" === ");
                push_quoted(out, name);
                out.append(")");
            },
            None => {
                out.append(o.as_str());
                out.append(" === ");
                push_quoted(out, name);
            },
        }
    }
    assert(final(out)@ =~= old(out)@ + unit_guard(name@, *ti, o@));
}

fn push_tag_head(out: &mut String, o: &String, t: &String, name: &String)
    ensures
        final(out)@ == old(out)@ + tag_head(o@, t@, name@),
{
    out.append("(");
    out.append(o.as_str());
    out.append(" != null && ");
    let k = key_value_text(o, t.as_str());
    out.append(k.as_str());
    out.append(" === ");
    push_quoted(out, name);
    out.append(" && ");
    assert(final(out)@ =~= old(out)@ + tag_head(o@, t@, name@));
}

fn push_tagged_guard(
    out: &mut String,
    v: &Variant,
    vs: &Vec<&Field>,
    t: &String,
    ti: &TagInfo,
    o: &String,
    ps: &Vec<String>,
)
    requires
        derefs(vs@) == visible(v.fields@),
        vs@.len() > 0,
    ensures
        final(out)@ == old(out)@ + tagged_guard(*v, t@, *ti, o@, names_of(ps@)),
{
    push_tag_head(out, o, t, &v.name);
    if v.style == Style::Named && ti.content.is_none() {
        push_member_checks(out, vs, o, ps);
        out.append(")");
    } else {
        let x = match &ti.content {
            Some(c) => key_value_text(o, c.as_str()),
            None => key_value_text(o, "fields"),
        };
        out.append(x.as_str());
        out.append(" !== undefined && ");
        push_payload_guard(out, v.style, vs, &x, ps);
        out.append(")");
    }
    assert(final(out)@ =~= old(out)@ + tagged_guard(*v, t@, *ti, o@, names_of(ps@)));
}

fn push_external_guard(out: &mut String, v: &Variant, vs: &Vec<&Field>, o: &String, ps: &Vec<String>)
    requires
        derefs(vs@) == visible(v.fields@),
        vs@.len() > 0,
    ensures
        final(out)@ == old(out)@ + external_guard(*v, o@, names_of(ps@)),
{
    let x = key_value_text(o, v.name.as_str());
    out.append("(");
    out.append(o.as_str());
    out.append(" != null && ");
    out.append(x.as_str());
    out.append(" !== undefined && ");
    push_payload_guard(out, v.style, vs, &x, ps);
    out.append(")");
    assert(final(out)@ =~= old(out)@ + external_guard(*v, o@, names_of(ps@)));
}

/// Appends the guard of one variant.
pub fn push_variant_guard(out: &mut String, v: &Variant, ti: &TagInfo, o: &String, ps: &Vec<String>)
    ensures
        final(out)@ == old(out)@ + variant_guard(*v, *ti, o@, names_of(ps@)),
{
    let vs = visible_of(&v.fields);
    if v.style == Style::Unit || vs.len() == 0 {
        push_unit_guard(out, &v.name, ti, o);
    } else if ti.untagged {
        push_payload_guard(out, v.style, &vs, o, ps);
    } else {
        match &ti.tag {
            None => push_external_guard(out, v, &vs, o, ps),
            Some(t) => push_tagged_guard(out, v, &vs, t, ti, o, ps),
        }
    }
}

/// Appends the guard of an enum.
pub fn push_enum_guard(out: &mut String, variants: &Vec<Variant>, ti: &TagInfo, o: &String, ps: &Vec<String>)
    ensures
        final(out)@ == old(out)@ + enum_guard(variants@, *ti, o@, names_of(ps@)),
{
    let ks = kept_variants(variants);
    let ghost gs = vderefs(ks@);
    let ghost pn = names_of(ps@);
    if check_all_unit(&ks) {
        out.append("(");
        out.append(o.as_str());
        out.append(" != null && [");
        let ghost mid = out@;
        let mut k: usize = 0;
        while k < ks.len()
            invariant
                gs == vderefs(ks@),
                k <= ks@.len(),
                out@ == mid + quoted_names(gs.take(k as int)),
            decreases ks@.len() - k,
        {
            proof {
                lemma_take_last(gs, k as int);
            }
            if k > 0 {
                out.append(", ");
            }
            out.append("\"");
            out.append(ks[k].name.as_str());
            out.append("\"");
            k = k + 1;
            assert(out@ =~= mid + quoted_names(gs.take(k as int)));
        }
        assert(gs.take(k as int) =~= gs);
        out.append("].includes(");
        out.append(o.as_str());
        out.append("))");
    } else {
        out.append("(");
        out.append(o.as_str());
        out.append(" !== undefined && (");
        let ghost mid = out@;
        let mut k: usize = 0;
        while k < ks.len()
            invariant
                gs == vderefs(ks@),
                pn == names_of(ps@),
                k <= ks@.len(),
                out@ == mid + variant_guards(gs.take(k as int), *ti, o@, pn),
            decreases ks@.len() - k,
        {
            proof {
                lemma_take_last(gs, k as int);
            }
            if k > 0 {
                out.append(" || ");
            }
            out.append("(");
            push_variant_guard(out, ks[k], ti, o, ps);
            out.append(")");
            k = k + 1;
            assert(out@ =~= mid + variant_guards(gs.take(k as int), *ti, o@, pn));
        }
        assert(gs.take(k as int) =~= gs);
        out.append("))");
    }
    assert(final(out)@ =~= old(out)@ + enum_guard(variants@, *ti, o@, pn));
}

} // verus!
