//! Assembling one outbound request from the caller's parameters.

use vstd::prelude::*;
use vstd::string::StringExecFns;

use crate::error::DispatchError;
use crate::method::{method_of, parse_method, Method};

verus! {

/// The `Authorization` value derived from a bearer token: `Bearer <token>`.
pub open spec fn bearer_of(token: Seq<char>) -> Seq<char> {
    "Bearer "@ + token
}

/// The custom headers the caller supplied; an absent map means no headers.
pub open spec fn given_headers(custom: Option<Seq<(Seq<char>, Seq<char>)>>) -> Seq<
    (Seq<char>, Seq<char>),
> {
    match custom {
        Some(h) => h,
        None => Seq::empty(),
    }
}

/// The ordered header list the dispatcher attaches: the custom headers first,
/// then the derived `Authorization` header whenever a token is present, so
/// that on a header set applied in order the token always takes effect.
pub open spec fn planned_headers(
    custom: Option<Seq<(Seq<char>, Seq<char>)>>,
    token: Option<Seq<char>>,
) -> Seq<(Seq<char>, Seq<char>)> {
    match token {
        Some(t) => given_headers(custom).push(("Authorization"@, bearer_of(t))),
        None => given_headers(custom),
    }
}

/// The value a header list carries under `name` once its entries are applied
/// in order to a header set: the last entry with that name wins, and `None`
/// means no entry has that name.
pub open spec fn header_value(
    hs: Seq<(Seq<char>, Seq<char>)>,
    name: Seq<char>,
) -> Option<Seq<char>>
    decreases hs.len(),
{
    if hs.len() == 0 {
        None
    } else if hs.last().0 == name {
        Some(hs.last().1)
    } else {
        header_value(hs.drop_last(), name)
    }
}

/// One fully assembled outbound request, ready for a transport to send:
/// a supported verb, the URL passed through untouched, the ordered header
/// list, and the raw body if the caller supplied one.
#[derive(Debug)]
pub struct RequestPlan {
    pub method: Method,
    pub url: String,
    pub headers: Vec<(String, String)>,
    pub body: Option<String>,
}

/// Builds the request for the given parameters, or rejects the method before
/// anything is assembled. On success the plan carries exactly the verb the
/// method string names, the URL and body unchanged, and the header list with
/// the custom headers first and the derived `Authorization` header last.
pub fn build_request(
    url: String,
    method: &String,
    token: Option<&String>,
    headers: Option<Vec<(String, String)>>,
    body: Option<String>,
) -> (r: Result<RequestPlan, DispatchError>)
    ensures
        method_of(method@) is None ==> r == Err::<RequestPlan, DispatchError>(
            DispatchError::UnsupportedMethod,
        ),
        method_of(method@) is Some ==> r is Ok,
        r is Ok ==> Some(r->Ok_0.method) == method_of(method@),
        r is Ok ==> r->Ok_0.url == url,
        r is Ok ==> r->Ok_0.body == body,
        r is Ok ==> r->Ok_0.headers.deep_view() == planned_headers(
            headers.deep_view(),
            match token {
                Some(t) => Some(t@),
                None => None,
            },
        ),
{
    let m = match parse_method(method) {
        Some(m) => m,
        None => {
            return Err(DispatchError::UnsupportedMethod);
        },
    };
    let ghost custom = headers.deep_view();
    let mut hs: Vec<(String, String)> = match headers {
        Some(h) => h,
        None => Vec::new(),
    };
    proof {
        assert(hs.deep_view() =~= given_headers(custom));
    }
    if let Some(t) = token {
        let value = String::from_str("Bearer ").concat(t.as_str());
        hs.push((String::from_str("Authorization"), value));
        proof {
            assert(hs.deep_view() =~= given_headers(custom).push(("Authorization"@, bearer_of(t@))));
        }
    }
    Ok(RequestPlan { method: m, url, headers: hs, body })
}

/// Looks up the value a header list carries under `name` after applying its
/// entries in order: the last entry with that name wins.
pub fn effective_header(headers: &Vec<(String, String)>, name: &String) -> (r: Option<String>)
    ensures
        match header_value(headers.deep_view(), name@) {
            Some(v) => r is Some && r->0@ == v,
            None => r is None,
        },
{
    let ghost full = headers.deep_view();
    proof {
        assert(full.take(headers@.len() as int) =~= full);
    }
    let mut i: usize = headers.len();
    while i > 0
        invariant
            i <= headers@.len(),
            full == headers.deep_view(),
            header_value(full, name@) == header_value(full.take(i as int), name@),
        decreases i,
    {
        i = i - 1;
        let pair = &headers[i];
        proof {
            assert(full.take(i + 1).last() == full[i as int]);
            assert(full.take(i + 1).drop_last() =~= full.take(i as int));
        }
        if pair.0.eq(name) {
            return Some(pair.1.clone());
        }
    }
    proof {
        assert(full.take(0) =~= Seq::<(Seq<char>, Seq<char>)>::empty());
    }
    None
}

/// Applying the derived `Authorization` header after the custom headers means
/// the token always wins: whatever the custom header map carries under
/// `Authorization`, the assembled list's effective `Authorization` value is
/// `Bearer <token>`.
pub proof fn lemma_token_overrides_authorization(
    custom: Option<Seq<(Seq<char>, Seq<char>)>>,
    token: Seq<char>,
)
    ensures
        header_value(planned_headers(custom, Some(token)), "Authorization"@) == Some(
            bearer_of(token),
        ),
{
    let hs = planned_headers(custom, Some(token));
    assert(hs.last() == ("Authorization"@, bearer_of(token)));
}

} // verus!
