//! Compiles descriptions of data types (structs, tagged unions, generics,
//! containers) into type declarations of a structural target language, and
//! into guards: predicates that check an untyped value against a declared type.
use vstd::prelude::*;

pub mod text;
pub mod patch;
pub mod schema;
pub mod mapper;
pub mod tags;
pub mod declare;
pub mod errors;
pub mod guard;
pub mod shape;
pub mod checks;
pub mod compile;
pub mod options;
pub mod bytes;
pub mod typescript;
pub mod host;
pub mod laws;

verus! {

/// A type that can give its own target-language declaration.
pub trait TypeScriptifyTrait {
    fn type_script_ify() -> String;
}

} // verus!
