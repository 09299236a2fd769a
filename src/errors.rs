//! Errors that stop the compilation of one container.
use vstd::prelude::*;

verus! {

/// A container-level error. Each names the container, or the field, it was
/// found in.
pub enum SchemaError {
    /// A visible field asks for its type's fields to be merged inline.
    Flatten { container: String },
    /// A field of an internally tagged variant has the tag's name.
    TagClash { container: String, variant: String },
    /// A generic parameter is given type arguments.
    GenericArgs { container: String, name: String },
    /// A generic type is instantiated with other than number, string or boolean.
    Monomorphization { container: String, name: String, args: String },
    /// A guarded field's own type text is not a primitive type.
    OverrideNotPrimitive { container: String, text: String },
    /// The guard option is neither `true` nor `false`.
    MalformedGuard { container: String, value: String },
    /// A field's check option is neither `first` nor `all`.
    MalformedCheck { field: String, value: String },
}

pub open spec fn flatten_msg(c: Seq<char>) -> Seq<char> {
    c + ": #[serde(flatten)] does not work for typescript-definitions."@
}

pub open spec fn clash_msg(c: Seq<char>, v: Seq<char>) -> Seq<char> {
    "clash with field in \""@ + c + "::"@ + v + "\". Maybe use a #[serde(content=\"...\")] attribute."@
}

pub open spec fn generic_args_msg(n: Seq<char>) -> Seq<char> {
    n + ": generic args of a generic type is not supported"@
}

pub open spec fn mono_msg(n: Seq<char>, a: Seq<char>) -> Seq<char> {
    n + ": only monomorphization of number, string or boolean permitted: got \""@ + a + "\""@
}

pub open spec fn override_msg(t: Seq<char>) -> Seq<char> {
    "only string, number or boolean permitted: got \""@ + t + "\""@
}

pub open spec fn guard_value_msg(c: Seq<char>, v: Seq<char>) -> Seq<char> {
    c + ": guard must be true or false not \"\""@ + v + "\"\""@
}

pub open spec fn check_value_msg(f: Seq<char>, v: Seq<char>) -> Seq<char> {
    f + ": check value must be \"first\" or \"all\" not \"\""@ + v + "\"\""@
}

pub open spec fn message_of(e: SchemaError) -> Seq<char> {
    match e {
        SchemaError::Flatten { container } => flatten_msg(container@),
        SchemaError::TagClash { container, variant } => clash_msg(container@, variant@),
        SchemaError::GenericArgs { name, .. } => generic_args_msg(name@),
        SchemaError::Monomorphization { name, args, .. } => mono_msg(name@, args@),
        SchemaError::OverrideNotPrimitive { text, .. } => override_msg(text@),
        SchemaError::MalformedGuard { container, value } => guard_value_msg(container@, value@),
        SchemaError::MalformedCheck { field, value } => check_value_msg(field@, value@),
    }
}

/// The texts of a list of errors.
pub open spec fn messages(es: Seq<SchemaError>) -> Seq<Seq<char>> {
    es.map_values(|e: SchemaError| message_of(e))
}

impl SchemaError {
    /// The diagnostic text.
    pub fn message(&self) -> (r: String)
        ensures
            r@ == message_of(*self),
    {
        let mut out = String::new();
        match self {
            SchemaError::Flatten { container } => {
                out.append(container.as_str());
                out.append(": #[serde(flatten)] does not work for typescript-definitions.");
            },
            SchemaError::TagClash { container, variant } => {
                out.append("clash with field in \"");
                out.append(container.as_str());
                out.append("::");
                out.append(variant.as_str());
                out.append("\". Maybe use a #[serde(content=\"...\")] attribute.");
            },
            SchemaError::GenericArgs { name, .. } => {
                out.append(name.as_str());
                out.append(": generic args of a generic type is not supported");
            },
            SchemaError::Monomorphization { name, args, .. } => {
                out.append(name.as_str());
                out.append(": only monomorphization of number, string or boolean permitted: got \"");
                out.append(args.as_str());
                out.append("\"");
            },
            SchemaError::OverrideNotPrimitive { text, .. } => {
                out.append("only string, number or boolean permitted: got \"");
                out.append(text.as_str());
                out.append("\"");
            },
            SchemaError::MalformedGuard { container, value } => {
                out.append(container.as_str());
                out.append(": guard must be true or false not \"\"");
                out.append(value.as_str());
                out.append("\"\"");
            },
            SchemaError::MalformedCheck { field, value } => {
                out.append(field.as_str());
                out.append(": check value must be \"first\" or \"all\" not \"\"");
                out.append(value.as_str());
                out.append("\"\"");
            },
        }
        assert(out@ =~= message_of(*self));
        out
    }
}

} // verus!
