//! Compiling one declared type: its type declaration, its guard, and the
//! problems that stop either.
use vstd::prelude::*;
use crate::checks::{enum_decl_errors, enum_decl_msgs, enum_guard_errors, enum_guard_msgs,
    struct_decl_errors, struct_decl_msgs, struct_guard_errors, struct_guard_msgs};
use crate::declare::{all_unit, check_all_unit, enum_body, kept, kept_variants, push_enum_body, push_struct_body, struct_body};
use crate::errors::{messages, SchemaError};
use crate::guard::names_of;
use crate::patch::{patch, patched};
use crate::schema::{GenericParam, SchemaData, TypeSchema, Variant};
use crate::shape::{enum_guard, push_enum_guard, push_struct_guard, struct_guard};
use crate::tags::{resolve_tags, resolved};
use crate::text::lemma_take_last;

verus! {

/// The names of the type parameters; lifetimes have none.
pub open spec fn param_names(gs: Seq<GenericParam>) -> Seq<Seq<char>>
    decreases gs.len(),
{
    if gs.len() == 0 {
        seq![]
    } else {
        match gs.last() {
            GenericParam::Type(n, _) => param_names(gs.drop_last()).push(n@),
            GenericParam::Lifetime => param_names(gs.drop_last()),
        }
    }
}

pub open spec fn joined(parts: Seq<Seq<char>>, sep: Seq<char>) -> Seq<char>
    decreases parts.len(),
{
    if parts.len() == 0 {
        seq![]
    } else if parts.len() == 1 {
        parts[0]
    } else {
        joined(parts.drop_last(), sep) + sep + parts.last()
    }
}

/// `<T, U>`, or nothing for a type without type parameters.
pub open spec fn generics_text(gs: Seq<GenericParam>) -> Seq<char> {
    if param_names(gs).len() == 0 {
        seq![]
    } else {
        "<"@ + joined(param_names(gs), ", "@) + ">"@
    }
}

/// Each doc line as a line comment.
pub open spec fn docs_text(ds: Seq<String>) -> Seq<char>
    decreases ds.len(),
{
    if ds.len() == 0 {
        seq![]
    } else {
        docs_text(ds.drop_last()) + "// "@ + ds.last()@ + "\n"@
    }
}

pub open spec fn is_plain_enum(s: TypeSchema) -> bool {
    match s.data {
        SchemaData::Enum(vs) => all_unit(kept(vs@)),
        SchemaData::Struct(_, _) => false,
    }
}

/// The declaration before patching: `export type N<G> = body;`, or
/// `export enum N { ... };` for a plain enumeration.
pub open spec fn declaration_core(s: TypeSchema) -> Seq<char> {
    match s.data {
        SchemaData::Struct(style, fs) => "export type "@ + s.name@ + generics_text(s.generics@) + " = "@
            + struct_body(style, fs@, s.options.transparent) + ";"@,
        SchemaData::Enum(vs) => if all_unit(kept(vs@)) {
            "export enum "@ + s.name@ + " "@ + enum_body(vs@, resolved(s.options)) + ";"@
        } else {
            "export type "@ + s.name@ + generics_text(s.generics@) + " = "@ + enum_body(
                vs@,
                resolved(s.options),
            ) + ";"@
        },
    }
}

/// The finished declaration: doc comments, then the patched declaration.
pub open spec fn declaration_text(s: TypeSchema) -> Seq<char> {
    docs_text(s.docs@) + patched(declaration_core(s))
}

pub open spec fn guard_body(s: TypeSchema) -> Seq<char> {
    match s.data {
        SchemaData::Struct(style, fs) => struct_guard(
            style,
            fs@,
            s.options.transparent,
            "obj"@,
            param_names(s.generics@),
        ),
        SchemaData::Enum(vs) => enum_guard(vs@, resolved(s.options), "obj"@, param_names(s.generics@)),
    }
}

/// The guard before patching. A generic type's guard takes the name of the
/// type it is instantiated with.
pub open spec fn guard_core(s: TypeSchema) -> Seq<char> {
    let g = generics_text(s.generics@);
    "export const isa_"@ + s.name@ + " = "@ + g + "(obj: any"@ + (if param_names(s.generics@).len() > 0 {
        ", typename: string"@
    } else {
        seq![]
    }) + "): obj is "@ + s.name@ + g + " => "@ + guard_body(s) + ";"@
}

pub open spec fn guard_text(s: TypeSchema) -> Seq<char> {
    patched(guard_core(s))
}

pub open spec fn decl_msgs(s: TypeSchema) -> Seq<Seq<char>> {
    match s.data {
        SchemaData::Struct(style, fs) => struct_decl_msgs(s.name@, style, fs@),
        SchemaData::Enum(vs) => enum_decl_msgs(s.name@, vs@, resolved(s.options)),
    }
}

pub open spec fn guard_msgs(s: TypeSchema) -> Seq<Seq<char>> {
    if !s.options.guard {
        seq![]
    } else {
        match s.data {
            SchemaData::Struct(style, fs) => struct_guard_msgs(s.name@, style, fs@, param_names(s.generics@)),
            SchemaData::Enum(vs) => enum_guard_msgs(s.name@, vs@, param_names(s.generics@)),
        }
    }
}

/// Every problem in a container, declaration problems first.
pub open spec fn all_msgs(s: TypeSchema) -> Seq<Seq<char>> {
    decl_msgs(s) + guard_msgs(s)
}

/// The names of the type parameters.
pub fn type_param_names(gs: &Vec<GenericParam>) -> (r: Vec<String>)
    ensures
        names_of(r@) == param_names(gs@),
{
    let mut r: Vec<String> = Vec::new();
    let mut i: usize = 0;
    while i < gs.len()
        invariant
            i <= gs@.len(),
            names_of(r@) == param_names(gs@.take(i as int)),
        decreases gs@.len() - i,
    {
        proof {
            lemma_take_last(gs@, i as int);
        }
        match &gs[i] {
            GenericParam::Type(n, _) => {
                r.push(n.clone());
            },
            GenericParam::Lifetime => {},
        }
        i = i + 1;
        assert(names_of(r@) =~= param_names(gs@.take(i as int)));
    }
    assert(gs@.take(i as int) =~= gs@);
    r
}

fn push_generics(out: &mut String, ns: &Vec<String>)
    ensures
        final(out)@ == old(out)@ + (if names_of(ns@).len() == 0 {
            seq![]
        } else {
            "<"@ + joined(names_of(ns@), ", "@) + ">"@
        }),
{
    let ghost parts = names_of(ns@);
    if ns.len() == 0 {
        assert(final(out)@ =~= old(out)@ + seq![]);
    } else {
        out.append("<");
        let ghost mid = out@;
        let mut i: usize = 0;
        while i < ns.len()
            invariant
                parts == names_of(ns@),
                i <= ns@.len(),
                out@ == mid + joined(parts.take(i as int), ", "@),
            decreases ns@.len() - i,
        {
            proof {
                lemma_take_last(parts, i as int);
            }
            if i > 0 {
                out.append(", ");
            }
            out.append(ns[i].as_str());
            i = i + 1;
            assert(out@ =~= mid + joined(parts.take(i as int), ", "@));
        }
        assert(parts.take(i as int) =~= parts);
        out.append(">");
        assert(final(out)@ =~= old(out)@ + ("<"@ + joined(parts, ", "@) + ">"@));
    }
}

fn push_docs(out: &mut String, ds: &Vec<String>)
    ensures
        final(out)@ == old(out)@ + docs_text(ds@),
{
    let mut i: usize = 0;
    while i < ds.len()
        invariant
            i <= ds@.len(),
            out@ == old(out)@ + docs_text(ds@.take(i as int)),
        decreases ds@.len() - i,
    {
        proof {
            lemma_take_last(ds@, i as int);
        }
        out.append("// ");
        out.append(ds[i].as_str());
        out.append("\n");
        i = i + 1;
        assert(out@ =~= old(out)@ + docs_text(ds@.take(i as int)));
    }
    assert(ds@.take(i as int) =~= ds@);
}

fn check_plain(variants: &Vec<Variant>) -> (r: bool)
    ensures
        r == all_unit(kept(variants@)),
{
    let ks = kept_variants(variants);
    check_all_unit(&ks)
}

/// The type declaration of a schema, whether or not it has problems.
pub fn declaration(s: &TypeSchema) -> (r: String)
    ensures
        r@ == declaration_text(*s),
{
    let ns = type_param_names(&s.generics);
    let mut core = String::new();
    match &s.data {
        SchemaData::Struct(style, fs) => {
            core.append("export type ");
            core.append(s.name.as_str());
            push_generics(&mut core, &ns);
            core.append(" = ");
            push_struct_body(&mut core, *style, fs, s.options.transparent);
            core.append(";");
        },
        SchemaData::Enum(vs) => {
            let ti = resolve_tags(&s.options);
            if check_plain(vs) {
                core.append("export enum ");
                core.append(s.name.as_str());
                core.append(" ");
                push_enum_body(&mut core, vs, &ti);
                core.append(";");
            } else {
                core.append("export type ");
                core.append(s.name.as_str());
                push_generics(&mut core, &ns);
                core.append(" = ");
                push_enum_body(&mut core, vs, &ti);
                core.append(";");
            }
        },
    }
    assert(core@ =~= declaration_core(*s));
    let mut out = String::new();
    push_docs(&mut out, &s.docs);
    let body = patch(core.as_str());
    out.append(body.as_str());
    assert(out@ =~= declaration_text(*s));
    out
}

/// The guard of a schema, whether or not it has problems.
pub fn guard(s: &TypeSchema) -> (r: String)
    ensures
        r@ == guard_text(*s),
{
    let ns = type_param_names(&s.generics);
    let obj = String::from_str("obj");
    let mut core = String::new();
    core.append("export const isa_");
    core.append(s.name.as_str());
    core.append(" = ");
    push_generics(&mut core, &ns);
    core.append("(obj: any");
    if ns.len() > 0 {
        core.append(", typename: string");
    }
    core.append("): obj is ");
    core.append(s.name.as_str());
    push_generics(&mut core, &ns);
    core.append(" => ");
    match &s.data {
        SchemaData::Struct(style, fs) => {
            push_struct_guard(&mut core, *style, fs, s.options.transparent, &obj, &ns);
        },
        SchemaData::Enum(vs) => {
            let ti = resolve_tags(&s.options);
            push_enum_guard(&mut core, vs, &ti, &obj, &ns);
        },
    }
    core.append(";");
    assert(core@ =~= guard_core(*s));
    patch(core.as_str())
}

/// Every problem found in a schema, in order.
pub fn diagnostics(s: &TypeSchema) -> (r: Vec<SchemaError>)
    ensures
        messages(r@) == all_msgs(*s),
{
    let mut errs: Vec<SchemaError> = Vec::new();
    assert(messages(errs@) =~= seq![]);
    match &s.data {
        SchemaData::Struct(style, fs) => struct_decl_errors(&mut errs, &s.name, *style, fs),
        SchemaData::Enum(vs) => {
            let ti = resolve_tags(&s.options);
            enum_decl_errors(&mut errs, &s.name, vs, &ti);
        },
    }
    if s.options.guard {
        let ns = type_param_names(&s.generics);
        match &s.data {
            SchemaData::Struct(style, fs) => struct_guard_errors(&mut errs, &s.name, *style, fs, &ns),
            SchemaData::Enum(vs) => enum_guard_errors(&mut errs, &s.name, vs, &ns),
        }
    }
    assert(messages(errs@) =~= all_msgs(*s));
    errs
}

/// The output for one container.
pub struct Compiled {
    pub declaration: String,
    /// Present where the container asks for a guard.
    pub guard: Option<String>,
}

/// Compiles one container: its declaration and, where asked for, its guard;
/// or every problem that stops it.
pub fn compile(s: &TypeSchema) -> (r: Result<Compiled, Vec<SchemaError>>)
    ensures
        match r {
            Ok(c) => all_msgs(*s).len() == 0 && c.declaration@ == declaration_text(*s) && (c.guard is Some
                <==> s.options.guard) && (c.guard is Some ==> c.guard->0@ == guard_text(*s)),
            Err(es) => all_msgs(*s).len() > 0 && messages(es@) == all_msgs(*s),
        },
{
    let errs = diagnostics(s);
    if errs.len() > 0 {
        return Err(errs);
    }
    let d = declaration(s);
    let g = if s.options.guard {
        Some(guard(s))
    } else {
        None
    };
    Ok(Compiled { declaration: d, guard: g })
}

} // verus!
