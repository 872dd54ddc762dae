//! What the backend computes about its callers.

use vstd::prelude::*;
use vstd::string::StringExecFns;
use crate::text::{from_chars, remove_first, to_chars, without_first};

verus! {

/// What stands before the token in an authorization header.
pub const BEARER: &'static str = "Bearer ";

pub const GREETING: &'static str = "hello ";

/// The token that an authorization header carries: the header without the
/// first `Bearer ` in it.
pub open spec fn bearer_token_spec(header: Seq<char>) -> Seq<char> {
    without_first(header, BEARER@)
}

/// Takes the token out of an authorization header.
pub fn bearer_token(header: &str) -> (token: String)
    ensures
        token@ == bearer_token_spec(header@),
{
    let chars = to_chars(header);
    let bearer = to_chars(BEARER);
    let token = remove_first(chars.as_slice(), bearer.as_slice());
    from_chars(token.as_slice())
}

/// The greeting that a user is answered with.
pub fn greeting(username: &str) -> (message: String)
    ensures
        message@ == GREETING@ + username@,
{
    let mut message = String::from_str(GREETING);
    message.append(username);
    message
}

} // verus!
