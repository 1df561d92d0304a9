//! Error replies that plugins give their own callers.
use vstd::prelude::*;

verus! {

/// The extension code a GraphQL error carries for an HTTP status.
pub open spec fn extension_code_of(status: u16) -> Seq<char> {
    if status == 400 || status == 422 {
        "BAD_REQUEST"@
    } else if status == 500 {
        "INTERNAL_ERROR"@
    } else {
        "UNKNOWN"@
    }
}

/// A GraphQL error: its message and its extension code.
pub struct GraphqlError {
    pub message: String,
    pub extension_code: &'static str,
}

/// The GraphQL error for a refused request with the given status.
pub fn build_error(message: String, status: u16) -> (r: GraphqlError)
    ensures
        r.message@ == message@,
        r.extension_code@ == extension_code_of(status),
{
    let extension_code = if status == 400 || status == 422 {
        "BAD_REQUEST"
    } else if status == 500 {
        "INTERNAL_ERROR"
    } else {
        "UNKNOWN"
    };
    GraphqlError { message, extension_code }
}

} // verus!
