//! Reading option values given as text, with the malformed-value errors.
use vstd::prelude::*;
use crate::errors::{check_value_msg, guard_value_msg, message_of, SchemaError};

verus! {

/// Reads the container's guard option: `"true"` or `"false"`.
pub fn parse_guard_flag(container: &String, value: &str) -> (r: Result<bool, SchemaError>)
    ensures
        match r {
            Ok(b) => (value@ == "true"@ && b) || (value@ == "false"@ && !b),
            Err(e) => value@ != "true"@ && value@ != "false"@ && e is MalformedGuard && message_of(e)
                == guard_value_msg(container@, value@),
        },
{
    let v = String::from_str(value);
    let t = String::from_str("true");
    let f = String::from_str("false");
    if v == t {
        Ok(true)
    } else if v == f {
        Ok(false)
    } else {
        Err(SchemaError::MalformedGuard { container: container.clone(), value: v })
    }
}

/// Reads a field's check option: `"first"` checks only the first element of
/// sequences and maps, `"all"` checks every one.
pub fn parse_check(field: &String, value: &str) -> (r: Result<bool, SchemaError>)
    ensures
        match r {
            Ok(b) => (value@ == "first"@ && b) || (value@ == "all"@ && !b),
            Err(e) => value@ != "first"@ && value@ != "all"@ && e is MalformedCheck && message_of(e)
                == check_value_msg(field@, value@),
        },
{
    let v = String::from_str(value);
    let first = String::from_str("first");
    let all = String::from_str("all");
    if v == first {
        Ok(true)
    } else if v == all {
        Ok(false)
    } else {
        Err(SchemaError::MalformedCheck { field: field.clone(), value: v })
    }
}

} // verus!
