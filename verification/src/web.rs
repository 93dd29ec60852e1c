//! Bodies of the HTTP API's answers that do not carry a post.

use vstd::prelude::*;
use vstd::string::*;

verus! {

/// The body answered when no post is stored.
pub const EMPTY_BODY: &'static str = "[]";

/// The body answered when the analysis failed: the message in an `error`
/// field, written in as it is.
pub open spec fn error_body_of(message: Seq<char>) -> Seq<char> {
    "{\"error\": \""@ + message + "\"}"@
}

/// Builds the body that reports a failed analysis.
pub fn error_body(message: &str) -> (body: String)
    ensures
        body@ == error_body_of(message@),
{
    let mut body = "{\"error\": \"".to_owned();
    body.append(message);
    body.append("\"}");
    body
}

} // verus!
