//! Type declarations: struct bodies, variants, unions and unit enums.
use vstd::prelude::*;
use crate::mapper::{field_type_text, push_field_type};
use crate::schema::{filter_visible, visible, Field, Style, Variant};
use crate::tags::TagInfo;
use crate::text::lemma_take_last;

verus! {

pub open spec fn derefs(vs: Seq<&Field>) -> Seq<Field> {
    vs.map_values(|f: &Field| *f)
}

/// `name: type` for one field.
pub open spec fn entry(f: Field) -> Seq<char> {
    f.name@ + ": "@ + field_type_text(f)
}

/// Field entries separated by `, `.
pub open spec fn field_entries(vs: Seq<Field>) -> Seq<char>
    decreases vs.len(),
{
    if vs.len() == 0 {
        seq![]
    } else if vs.len() == 1 {
        entry(vs[0])
    } else {
        field_entries(vs.drop_last()) + ", "@ + entry(vs.last())
    }
}

/// Field types separated by `, `.
pub open spec fn tuple_items(vs: Seq<Field>) -> Seq<char>
    decreases vs.len(),
{
    if vs.len() == 0 {
        seq![]
    } else if vs.len() == 1 {
        field_type_text(vs[0])
    } else {
        tuple_items(vs.drop_last()) + ", "@ + field_type_text(vs.last())
    }
}

pub open spec fn object_text(vs: Seq<Field>) -> Seq<char> {
    "{ "@ + field_entries(vs) + " }"@
}

pub open spec fn array_text(vs: Seq<Field>) -> Seq<char> {
    "["@ + tuple_items(vs) + "]"@
}

/// The body of a struct's type declaration. No visible field leaves the unit
/// shape `{}`; one visible field of a transparent struct stands for the struct.
pub open spec fn struct_body(style: Style, fields: Seq<Field>, transparent: bool) -> Seq<char> {
    let vs = visible(fields);
    if style == Style::Unit || vs.len() == 0 {
        "{}"@
    } else if style == Style::Newtype {
        field_type_text(vs[0])
    } else if style == Style::Tuple {
        array_text(vs)
    } else if vs.len() == 1 && transparent {
        field_type_text(vs[0])
    } else {
        object_text(vs)
    }
}

pub open spec fn quoted(s: Seq<char>) -> Seq<char> {
    "\""@ + s + "\""@
}

/// The key under which a newtype or tuple variant's payload sits when tagged.
pub open spec fn content_key(ti: TagInfo) -> Seq<char> {
    match ti.content {
        Some(c) => c@,
        None => "fields"@,
    }
}

pub open spec fn is_unit_shape(v: Variant) -> bool {
    v.style == Style::Unit || visible(v.fields@).len() == 0
}

/// The shape of a variant's own data.
pub open spec fn payload(style: Style, vs: Seq<Field>) -> Seq<char> {
    if style == Style::Newtype {
        field_type_text(vs[0])
    } else if style == Style::Tuple {
        array_text(vs)
    } else {
        object_text(vs)
    }
}

/// `tag: "Name"`, the discriminant entry.
pub open spec fn tag_entry(t: Seq<char>, name: Seq<char>) -> Seq<char> {
    t + ": "@ + quoted(name)
}

/// The type text of one variant under the given tagging.
pub open spec fn variant_text(v: Variant, ti: TagInfo) -> Seq<char> {
    let vs = visible(v.fields@);
    if is_unit_shape(v) {
        if ti.untagged {
            "null"@
        } else {
            match ti.tag {
                Some(t) => "{ "@ + tag_entry(t@, v.name@) + " }"@,
                None => quoted(v.name@),
            }
        }
    } else if ti.untagged {
        payload(v.style, vs)
    } else {
        match ti.tag {
            None => "{ "@ + v.name@ + ": "@ + payload(v.style, vs) + " }"@,
            Some(t) => if v.style == Style::Named && ti.content.is_none() {
                "{ "@ + tag_entry(t@, v.name@) + ", "@ + field_entries(vs) + " }"@
            } else {
                "{ "@ + tag_entry(t@, v.name@) + ", "@ + content_key(ti) + ": "@ + payload(v.style, vs)
                    + " }"@
            },
        }
    }
}

/// The variants that are not skipped.
pub open spec fn kept(vs: Seq<Variant>) -> Seq<Variant>
    decreases vs.len(),
{
    if vs.len() == 0 {
        seq![]
    } else if vs.last().skip {
        kept(vs.drop_last())
    } else {
        kept(vs.drop_last()).push(vs.last())
    }
}

pub open spec fn all_unit(vs: Seq<Variant>) -> bool {
    forall|i: int| 0 <= i < vs.len() ==> (#[trigger] vs[i]).style == Style::Unit
}

/// Variant types separated by ` | `.
pub open spec fn union_text(vs: Seq<Variant>, ti: TagInfo) -> Seq<char>
    decreases vs.len(),
{
    if vs.len() == 0 {
        seq![]
    } else if vs.len() == 1 {
        variant_text(vs[0], ti)
    } else {
        union_text(vs.drop_last(), ti) + " | "@ + variant_text(vs.last(), ti)
    }
}

/// `Name = "Name"`, one member of a plain enumeration.
pub open spec fn member(v: Variant) -> Seq<char> {
    v.name@ + " = "@ + quoted(v.name@)
}

pub open spec fn members(vs: Seq<Variant>) -> Seq<char>
    decreases vs.len(),
{
    if vs.len() == 0 {
        seq![]
    } else if vs.len() == 1 {
        member(vs[0])
    } else {
        members(vs.drop_last()) + ", "@ + member(vs.last())
    }
}

pub open spec fn enum_block(vs: Seq<Variant>) -> Seq<char> {
    if vs.len() == 0 {
        "{}"@
    } else {
        "{ "@ + members(vs) + " }"@
    }
}

/// The body of an enum's declaration: a plain enumeration where every kept
/// variant is a unit variant, a union of variant shapes otherwise.
pub open spec fn enum_body(vs: Seq<Variant>, ti: TagInfo) -> Seq<char> {
    let ks = kept(vs);
    if all_unit(ks) {
        enum_block(ks)
    } else {
        union_text(ks, ti)
    }
}

/// Appends the entries of the given fields.
pub fn push_entries(out: &mut String, vs: &Vec<&Field>)
    ensures
        final(out)@ == old(out)@ + field_entries(derefs(vs@)),
{
    let ghost fs = derefs(vs@);
    let mut k: usize = 0;
    while k < vs.len()
        invariant
            fs == derefs(vs@),
            k <= vs@.len(),
            out@ == old(out)@ + field_entries(fs.take(k as int)),
        decreases vs@.len() - k,
    {
        proof {
            lemma_take_last(fs, k as int);
        }
        if k > 0 {
            out.append(", ");
        }
        let f: &Field = vs[k];
        out.append(f.name.as_str());
        out.append(": ");
        push_field_type(out, f);
        k = k + 1;
        assert(out@ =~= old(out)@ + field_entries(fs.take(k as int)));
    }
    assert(fs.take(k as int) =~= fs);
}

/// Appends the types of the given fields.
pub fn push_items(out: &mut String, vs: &Vec<&Field>)
    ensures
        final(out)@ == old(out)@ + tuple_items(derefs(vs@)),
{
    let ghost fs = derefs(vs@);
    let mut k: usize = 0;
    while k < vs.len()
        invariant
            fs == derefs(vs@),
            k <= vs@.len(),
            out@ == old(out)@ + tuple_items(fs.take(k as int)),
        decreases vs@.len() - k,
    {
        proof {
            lemma_take_last(fs, k as int);
        }
        if k > 0 {
            out.append(", ");
        }
        push_field_type(out, vs[k]);
        k = k + 1;
        assert(out@ =~= old(out)@ + tuple_items(fs.take(k as int)));
    }
    assert(fs.take(k as int) =~= fs);
}

pub(crate) fn visible_of(fields: &Vec<Field>) -> (r: Vec<&Field>)
    ensures
        derefs(r@) == visible(fields@),
{
    let r = filter_visible(fields);
    assert(derefs(r@) =~= visible(fields@));
    r
}

fn push_payload(out: &mut String, style: Style, vs: &Vec<&Field>)
    requires
        vs@.len() > 0,
    ensures
        final(out)@ == old(out)@ + payload(style, derefs(vs@)),
{
    if style == Style::Newtype {
        push_field_type(out, vs[0]);
    } else if style == Style::Tuple {
        out.append("[");
        push_items(out, vs);
        out.append("]");
        assert(final(out)@ =~= old(out)@ + payload(style, derefs(vs@)));
    } else {
        out.append("{ ");
        push_entries(out, vs);
        out.append(" }");
        assert(final(out)@ =~= old(out)@ + payload(style, derefs(vs@)));
    }
}

/// Appends the body of a struct's declaration.
pub fn push_struct_body(out: &mut String, style: Style, fields: &Vec<Field>, transparent: bool)
    ensures
        final(out)@ == old(out)@ + struct_body(style, fields@, transparent),
{
    let vs = visible_of(fields);
    if style == Style::Unit || vs.len() == 0 {
        out.append("{}");
    } else if style == Style::Newtype {
        push_field_type(out, vs[0]);
    } else if style == Style::Tuple {
        push_payload(out, style, &vs);
    } else if vs.len() == 1 && transparent {
        push_field_type(out, vs[0]);
    } else {
        push_payload(out, style, &vs);
    }
}

pub(crate) fn push_quoted(out: &mut String, s: &String)
    ensures
        final(out)@ == old(out)@ + quoted(s@),
{
    out.append("\"");
    out.append(s.as_str());
    out.append("\"");
    assert(final(out)@ =~= old(out)@ + quoted(s@));
}

fn push_tag_entry(out: &mut String, t: &String, name: &String)
    ensures
        final(out)@ == old(out)@ + tag_entry(t@, name@),
{
    out.append(t.as_str());
    out.append(": ");
    push_quoted(out, name);
    assert(final(out)@ =~= old(out)@ + tag_entry(t@, name@));
}

/// Appends the type text of one variant.
pub fn push_variant(out: &mut String, v: &Variant, ti: &TagInfo)
    ensures
        final(out)@ == old(out)@ + variant_text(*v, *ti),
{
    let vs = visible_of(&v.fields);
    if v.style == Style::Unit || vs.len() == 0 {
        if ti.untagged {
            out.append("null");
        } else {
            match &ti.tag {
                Some(t) => {
                    out.append("{ ");
                    push_tag_entry(out, t, &v.name);
                    out.append(" }");
                },
                None => push_quoted(out, &v.name),
            }
        }
    } else if ti.untagged {
        push_payload(out, v.style, &vs);
    } else {
        match &ti.tag {
            None => {
                out.append("{ ");
                out.append(v.name.as_str());
                out.append(": ");
                push_payload(out, v.style, &vs);
                out.append(" }");
            },
            Some(t) => {
                out.append("{ ");
                push_tag_entry(out, t, &v.name);
                out.append(", ");
                if v.style == Style::Named && ti.content.is_none() {
                    push_entries(out, &vs);
                } else {
                    match &ti.content {
                        Some(c) => out.append(c.as_str()),
                        None => out.append("fields"),
                    }
                    out.append(": ");
                    push_payload(out, v.style, &vs);
                }
                out.append(" }");
            },
        }
    }
    assert(final(out)@ =~= old(out)@ + variant_text(*v, *ti));
}

/// The variants that are not skipped.
pub fn kept_variants<'a>(variants: &'a Vec<Variant>) -> (r: Vec<&'a Variant>)
    ensures
        r@.map_values(|v: &Variant| *v) == kept(variants@),
{
    let mut r: Vec<&'a Variant> = Vec::new();
    let mut i: usize = 0;
    while i < variants.len()
        invariant
            i <= variants@.len(),
            r@.map_values(|v: &Variant| *v) == kept(variants@.take(i as int)),
        decreases variants@.len() - i,
    {
        proof {
            lemma_take_last(variants@, i as int);
        }
        let v = &variants[i];
        if !v.skip {
            r.push(v);
        }
        i = i + 1;
        assert(r@.map_values(|v: &Variant| *v) =~= kept(variants@.take(i as int)));
    }
    assert(variants@.take(i as int) =~= variants@);
    r
}

pub open spec fn vderefs(vs: Seq<&Variant>) -> Seq<Variant> {
    vs.map_values(|v: &Variant| *v)
}

pub(crate) fn check_all_unit(ks: &Vec<&Variant>) -> (r: bool)
    ensures
        r == all_unit(vderefs(ks@)),
{
    let mut i: usize = 0;
    while i < ks.len()
        invariant
            i <= ks@.len(),
            forall|j: int| 0 <= j < i ==> (*ks@[j]).style == Style::Unit,
        decreases ks@.len() - i,
    {
        if ks[i].style != Style::Unit {
            assert(vderefs(ks@)[i as int].style != Style::Unit);
            return false;
        }
        i = i + 1;
    }
    assert(all_unit(vderefs(ks@)));
    true
}

/// Appends the body of an enum's declaration.
pub fn push_enum_body(out: &mut String, variants: &Vec<Variant>, ti: &TagInfo)
    ensures
        final(out)@ == old(out)@ + enum_body(variants@, *ti),
{
    let ks = kept_variants(variants);
    let ghost gs = vderefs(ks@);
    if check_all_unit(&ks) {
        if ks.len() == 0 {
            out.append("{}");
        } else {
            out.append("{ ");
            let ghost mid = out@;
            let mut k: usize = 0;
            while k < ks.len()
                invariant
                    gs == vderefs(ks@),
                    k <= ks@.len(),
                    out@ == mid + members(gs.take(k as int)),
                decreases ks@.len() - k,
            {
                proof {
                    lemma_take_last(gs, k as int);
                }
                if k > 0 {
                    out.append(", ");
                }
                let v: &Variant = ks[k];
                out.append(v.name.as_str());
                out.append(" = ");
                push_quoted(out, &v.name);
                k = k + 1;
                assert(out@ =~= mid + members(gs.take(k as int)));
            }
            assert(gs.take(k as int) =~= gs);
            out.append(" }");
        }
    } else {
        let ghost mid = out@;
        let mut k: usize = 0;
        while k < ks.len()
            invariant
                gs == vderefs(ks@),
                k <= ks@.len(),
                out@ == mid + union_text(gs.take(k as int), *ti),
            decreases ks@.len() - k,
        {
            proof {
                lemma_take_last(gs, k as int);
            }
            if k > 0 {
                out.append(" | ");
            }
            push_variant(out, ks[k], ti);
            k = k + 1;
            assert(out@ =~= mid + union_text(gs.take(k as int), *ti));
        }
        assert(gs.take(k as int) =~= gs);
    }
    assert(final(out)@ =~= old(out)@ + enum_body(variants@, *ti));
}

} // verus!
