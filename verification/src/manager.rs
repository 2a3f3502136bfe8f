use vstd::prelude::*;
use crate::result::ApiResult;
use crate::text::{contains_seq, lowercase_of, str_contains, to_lowercase};

verus! {

pub open spec fn not_authenticated_marker() -> Seq<char> {
    seq!['e', 'n', 'o', 't', 'a', 'u', 't', 'h', 'e', 'n', 't', 'i', 'c', 'a', 't', 'e', 'd']
}

pub open spec fn invalid_session_marker() -> Seq<char> {
    seq!['i', 'n', 'v', 'a', 'l', 'i', 'd', ' ', 's', 'e', 's', 's', 'i', 'o', 'n']
}

/// Whether an already lowercased error message mentions `enotauthenticated`
/// or `invalid session`.
pub open spec fn is_auth_failure_text(lowered: Seq<char>) -> bool {
    contains_seq(lowered, not_authenticated_marker()) || contains_seq(lowered, invalid_session_marker())
}

/// Whether a result is the server refusing the session: an error whose
/// lowercased message mentions `enotauthenticated` or `invalid session`.
pub open spec fn is_auth_failure<T>(r: ApiResult<T>) -> bool {
    match r {
        ApiResult::Error { message } => is_auth_failure_text(lowercase_of(message@)),
        _ => false,
    }
}

/// Whether a lowercased error message says the session is no longer valid.
pub fn mentions_auth_failure(lowered: &str) -> (b: bool)
    ensures
        b == is_auth_failure_text(lowered@),
{
    proof {
        reveal_strlit("enotauthenticated");
        reveal_strlit("invalid session");
    }
    assert("enotauthenticated"@ =~= not_authenticated_marker());
    assert("invalid session"@ =~= invalid_session_marker());
    str_contains(lowered, "enotauthenticated") || str_contains(lowered, "invalid session")
}

/// Whether the result says the session is no longer valid.
pub fn is_auth_error<T>(result: &ApiResult<T>) -> (b: bool)
    ensures
        b == is_auth_failure(*result),
{
    match result {
        ApiResult::Error { message } => {
            let msg = to_lowercase(message.as_str());
            mentions_auth_failure(msg.as_str())
        },
        _ => false,
    }
}

/// What to do with the result of a call.
#[derive(Debug)]
pub enum CallStep<T> {
    /// Hand the result to the caller.
    Done(ApiResult<T>),
    /// The session was refused: connect again and retry.
    Reconnect,
}

/// After a call: a refused session leads to one reconnection attempt, any
/// other result is the answer.
pub fn after_call<T>(result: ApiResult<T>) -> (s: CallStep<T>)
    ensures
        is_auth_failure(result) ==> s is Reconnect,
        !is_auth_failure(result) ==> s == CallStep::Done(result),
{
    if is_auth_error(&result) {
        CallStep::Reconnect
    } else {
        CallStep::Done(result)
    }
}

/// What to do after the reconnection attempt.
#[derive(Debug)]
pub enum RetryStep<T> {
    /// Call again, once, and hand that result to the caller.
    CallAgain,
    /// Give up with this result.
    Done(ApiResult<T>),
}

/// After reconnecting: retry the call when the connection was made, else
/// report that the session expired.
pub fn after_reconnect<T>(connected: bool) -> (s: RetryStep<T>)
    ensures
        connected ==> s is CallAgain,
        !connected ==> (s matches RetryStep::Done(ApiResult::Error { message })
            && message@ == "Session expired. Please login again."@),
{
    if connected {
        RetryStep::CallAgain
    } else {
        let mut m = String::new();
        m.append("Session expired. Please login again.");
        assert(m@ =~= "Session expired. Please login again."@);
        RetryStep::Done(ApiResult::Error { message: m })
    }
}

} // verus!
