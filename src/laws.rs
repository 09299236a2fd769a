//! Properties that relate the mapper, the tag resolver and the guard synthesizer.
use vstd::prelude::*;
use crate::compile::declaration_core;
use crate::declare::{all_unit, enum_block, field_entries, kept, object_text, quoted, struct_body, variant_text};
use crate::guard::{guard_expr, typeof_check};
use crate::mapper::{field_type_text, ts_type};
use crate::text::decimal;
use crate::schema::{visible, ContainerOptions, Field, Primitive, Style, TypeExpr, TypeSchema, Variant};
use crate::shape::{enum_guard, variant_guards, field_guard, key_value, member_check, member_checks, object_guard, struct_guard};
use crate::tags::{scheme_of, Scheme, TagInfo};

verus! {

/// Each tagging scheme places a named-field variant as follows: internal
/// tagging puts the tag beside the fields, adjacent tagging puts the fields
/// under the content key, external tagging wraps them under the variant's
/// name, and untagged leaves the bare fields.
pub proof fn lemma_tag_schemes(v: Variant, ti: TagInfo)
    requires
        v.style == Style::Named,
        visible(v.fields@).len() > 0,
    ensures
        scheme_of(ti) == Scheme::Internal ==> variant_text(v, ti) == "{ "@ + ti.tag->0@ + ": "@ + quoted(
            v.name@,
        ) + ", "@ + field_entries(visible(v.fields@)) + " }"@,
        scheme_of(ti) == Scheme::Adjacent ==> variant_text(v, ti) == "{ "@ + ti.tag->0@ + ": "@ + quoted(
            v.name@,
        ) + ", "@ + ti.content->0@ + ": "@ + object_text(visible(v.fields@)) + " }"@,
        scheme_of(ti) == Scheme::External ==> variant_text(v, ti) == "{ "@ + v.name@ + ": "@ + object_text(
            visible(v.fields@),
        ) + " }"@,
        scheme_of(ti) == Scheme::Untagged ==> variant_text(v, ti) == object_text(visible(v.fields@)),
{
    let vs = visible(v.fields@);
    if scheme_of(ti) == Scheme::Internal {
        assert(variant_text(v, ti) =~= "{ "@ + ti.tag->0@ + ": "@ + quoted(v.name@) + ", "@ + field_entries(vs)
            + " }"@);
    }
    if scheme_of(ti) == Scheme::Adjacent {
        assert(variant_text(v, ti) =~= "{ "@ + ti.tag->0@ + ": "@ + quoted(v.name@) + ", "@ + ti.content->0@
            + ": "@ + object_text(vs) + " }"@);
    }
}

/// An enum whose kept variants are all unit variants is declared as a plain
/// enumeration, whatever its tagging options.
pub proof fn lemma_unit_enum(s: TypeSchema, o: ContainerOptions)
    requires
        s.data is Enum,
        all_unit(kept(s.data->Enum_0@)),
    ensures
        declaration_core(s) == "export enum "@ + s.name@ + " "@ + enum_block(kept(s.data->Enum_0@)) + ";"@,
        declaration_core(s) == declaration_core(TypeSchema { options: o, ..s }),
{
}

/// A transparent struct with one visible named field is declared, and
/// guarded, exactly as that field's type.
pub proof fn lemma_transparent(fields: Seq<Field>, v: Seq<char>, ps: Seq<Seq<char>>)
    requires
        visible(fields).len() == 1,
    ensures
        struct_body(Style::Named, fields, true) == field_type_text(visible(fields)[0]),
        struct_guard(Style::Named, fields, true, v, ps) == field_guard(visible(fields)[0], v, ps),
{
}

/// The guard of a struct with named fields tests, for every visible field,
/// that the field is present and that its value passes the field's guard.
pub proof fn lemma_guard_tests_each_field(
    fields: Seq<Field>,
    transparent: bool,
    v: Seq<char>,
    ps: Seq<Seq<char>>,
    i: int,
)
    requires
        0 <= i < visible(fields).len(),
        !(transparent && visible(fields).len() == 1),
    ensures
        exists|pre: Seq<char>, post: Seq<char>|
            struct_guard(Style::Named, fields, transparent, v, ps) == pre + key_value(
                v,
                visible(fields)[i].name@,
            ) + " !== undefined && "@ + field_guard(
                visible(fields)[i],
                key_value(v, visible(fields)[i].name@),
                ps,
            ) + post,
{
    let vs = visible(fields);
    let (pre, post) = lemma_member_in_checks(vs, v, ps, i);
    let pre2 = "("@ + v + " != null && "@ + pre;
    let post2 = post + ")"@;
    assert(struct_guard(Style::Named, fields, transparent, v, ps) == object_guard(vs, v, ps));
    assert(object_guard(vs, v, ps) =~= pre2 + member_check(vs[i], v, ps) + post2);
    assert(pre2 + member_check(vs[i], v, ps) + post2 =~= pre2 + key_value(v, vs[i].name@)
        + " !== undefined && "@ + field_guard(vs[i], key_value(v, vs[i].name@), ps) + post2);
}

proof fn lemma_member_in_checks(vs: Seq<Field>, v: Seq<char>, ps: Seq<Seq<char>>, i: int) -> (r: (
    Seq<char>,
    Seq<char>,
))
    requires
        0 <= i < vs.len(),
    ensures
        member_checks(vs, v, ps) == r.0 + member_check(vs[i], v, ps) + r.1,
    decreases vs.len(),
{
    if vs.len() == 1 {
        assert(member_checks(vs, v, ps) =~= seq![] + member_check(vs[i], v, ps) + seq![]);
        (seq![], seq![])
    } else if i == vs.len() - 1 {
        let pre = member_checks(vs.drop_last(), v, ps) + " && "@;
        assert(member_checks(vs, v, ps) =~= pre + member_check(vs[i], v, ps) + seq![]);
        (pre, seq![])
    } else {
        let (pre, post) = lemma_member_in_checks(vs.drop_last(), v, ps, i);
        let post2 = post + " && "@ + member_check(vs.last(), v, ps);
        assert(vs.drop_last()[i] == vs[i]);
        assert(member_checks(vs, v, ps) =~= pre + member_check(vs[i], v, ps) + post2);
        (pre, post2)
    }
}

/// The guard of a primitive tests the value's runtime kind against the very
/// type text the mapper gives that primitive.
pub proof fn lemma_primitive_guard(p: Primitive, v: Seq<char>, fl: Field, ps: Seq<Seq<char>>)
    ensures
        guard_expr(TypeExpr::Prim(p), v, fl, ps) == typeof_check(v, ts_type(TypeExpr::Prim(p), fl.as_bytes)),
{
}

/// The guard of a tuple struct with visible fields first tests that the value
/// is an array of exactly that many elements.
pub proof fn lemma_tuple_guard_length(fields: Seq<Field>, transparent: bool, v: Seq<char>, ps: Seq<Seq<char>>)
    requires
        visible(fields).len() > 0,
    ensures
        exists|post: Seq<char>|
            struct_guard(Style::Tuple, fields, transparent, v, ps) == "(Array.isArray("@ + v + ") && "@ + v
                + ".length === "@ + decimal(visible(fields).len()) + post,
{
    let vs = visible(fields);
    let post = crate::shape::field_slot_checks(vs, v, ps) + ")"@;
    assert(struct_guard(Style::Tuple, fields, transparent, v, ps) =~= "(Array.isArray("@ + v + ") && "@ + v
        + ".length === "@ + decimal(vs.len()) + post);
}

/// The guard of an enum that is not a plain enumeration tests that the value
/// is defined before it tries the variants' guards.
pub proof fn lemma_enum_guard_defined(vs: Seq<Variant>, ti: TagInfo, o: Seq<char>, ps: Seq<Seq<char>>)
    requires
        !all_unit(kept(vs)),
    ensures
        enum_guard(vs, ti, o, ps) == "("@ + o + " !== undefined && ("@ + variant_guards(kept(vs), ti, o, ps)
            + "))"@,
{
}

} // verus!
