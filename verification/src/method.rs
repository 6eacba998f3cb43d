//! The closed set of HTTP verbs the dispatcher accepts.

use vstd::prelude::*;
use vstd::string::StringExecFns;

verus! {

/// The four verbs the dispatcher supports. Any other method string is
/// rejected before any request is assembled.
#[derive(Clone, Copy, Debug, PartialEq, Eq, Structural)]
pub enum Method {
    Get,
    Post,
    Delete,
    Patch,
}

/// The verb a method string names, or `None` for every other string.
/// Matching is case-sensitive and exact.
pub open spec fn method_of(s: Seq<char>) -> Option<Method> {
    if s == "GET"@ {
        Some(Method::Get)
    } else if s == "POST"@ {
        Some(Method::Post)
    } else if s == "DELETE"@ {
        Some(Method::Delete)
    } else if s == "PATCH"@ {
        Some(Method::Patch)
    } else {
        None
    }
}

/// Parses a method string into its verb; returns `None` exactly on the
/// strings outside the supported set.
pub fn parse_method(method: &String) -> (r: Option<Method>)
    ensures
        r == method_of(method@),
{
    if method.eq(&String::from_str("GET")) {
        Some(Method::Get)
    } else if method.eq(&String::from_str("POST")) {
        Some(Method::Post)
    } else if method.eq(&String::from_str("DELETE")) {
        Some(Method::Delete)
    } else if method.eq(&String::from_str("PATCH")) {
        Some(Method::Patch)
    } else {
        None
    }
}

} // verus!
