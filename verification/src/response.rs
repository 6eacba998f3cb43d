//! Normalizing a transport reply into the dispatcher's response shape.

use vstd::prelude::*;

use vstd::string::StrSliceExecFns;
use vstd::string::StringExecFns;

verus! {

/// How many characters of a response body the trace line shows at most.
pub const PREVIEW_LIMIT: usize = 500;

/// One normalized response: the transport's reported status code, exactly as
/// reported, and the full decoded response text.
pub struct ApiResponse {
    pub status: u16,
    pub body: String,
}

/// Builds the response handed back to the caller: the status code and the
/// decoded body text, both unchanged.
pub fn make_response(status: u16, body: String) -> (r: ApiResponse)
    ensures
        r.status == status,
        r.body == body,
{
    ApiResponse { status, body }
}

/// What the trace line shows of a response body: the body itself when it is
/// under the preview limit, else only its first `PREVIEW_LIMIT` characters.
pub open spec fn preview_of(body: Seq<char>) -> Seq<char> {
    if body.len() < PREVIEW_LIMIT {
        body
    } else {
        body.take(PREVIEW_LIMIT as int)
    }
}

/// Truncates a response body for the trace line, cutting on a character
/// boundary so multi-byte text is never split.
pub fn body_preview(body: &String) -> (r: String)
    ensures
        r@ == preview_of(body@),
{
    let n = body.as_str().unicode_len();
    if n < PREVIEW_LIMIT {
        body.clone()
    } else {
        String::from_str(body.as_str().substring_char(0, PREVIEW_LIMIT))
    }
}

/// The trace line logged once a response body arrives: the full body when it
/// is under the preview limit, else only its first `PREVIEW_LIMIT`
/// characters, behind a marker saying the body was cut.
pub open spec fn trace_line_of(body: Seq<char>) -> Seq<char> {
    if body.len() < PREVIEW_LIMIT {
        "Response body: "@ + body
    } else {
        "Response body (first 500 chars): "@ + body.take(PREVIEW_LIMIT as int)
    }
}

/// Renders the trace line for a response body.
pub fn body_trace_line(body: &String) -> (r: String)
    ensures
        r@ == trace_line_of(body@),
{
    let n = body.as_str().unicode_len();
    let preview = body_preview(body);
    if n < PREVIEW_LIMIT {
        String::from_str("Response body: ").concat(preview.as_str())
    } else {
        String::from_str("Response body (first 500 chars): ").concat(preview.as_str())
    }
}

} // verus!
