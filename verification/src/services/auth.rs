use vstd::prelude::*;
use crate::models::auth::{AuthResponse, AuthenticatorLevel, LoginExResult};
use crate::result::ApiResult;
use crate::text::{str_eq, string_of};

verus! {

/// What the client reads of an `auth.login_ex` answer: its string fields
/// `response_type`, `authenticator` and `username`; its `urls` when it is an
/// array (each entry when it is a string); and `user_info` when it reads as a
/// user.
#[derive(Debug)]
pub struct LoginExReply {
    pub response_type: Option<String>,
    pub authenticator: Option<String>,
    pub username: Option<String>,
    pub urls: Option<Vec<Option<String>>>,
    pub user_info: Option<AuthResponse>,
}

/// The strings among the entries, in order.
pub open spec fn present_strings(v: Seq<Option<String>>) -> Seq<String>
    decreases v.len(),
{
    if v.len() == 0 {
        Seq::empty()
    } else {
        let rest = present_strings(v.drop_last());
        match v.last() {
            Some(s) => rest.push(s),
            None => rest,
        }
    }
}

pub open spec fn opt_text(o: Option<String>) -> Option<Seq<char>> {
    match o {
        Some(s) => Some(s@),
        None => None,
    }
}

/// How `auth.login_ex` answered: by its response type, `SUCCESS` (level 2
/// when the authenticator says `LEVEL_2`, else level 1), `OTP_REQUIRED` (with
/// the user name, empty when missing), `EXPIRED`, `REDIRECT` (with the string
/// urls), and anything else, a missing type included, an authentication error.
pub open spec fn login_ex_meaning(reply: LoginExReply, r: LoginExResult) -> bool {
    let rt = opt_text(reply.response_type);
    if rt == Some("SUCCESS"@) {
        r == LoginExResult::Success {
            user_info: reply.user_info,
            authenticator: if opt_text(reply.authenticator) == Some("LEVEL_2"@) {
                AuthenticatorLevel::Level2
            } else {
                AuthenticatorLevel::Level1
            },
        }
    } else if rt == Some("OTP_REQUIRED"@) {
        r matches LoginExResult::OtpRequired { username } && username@ == match reply.username {
            Some(u) => u@,
            None => Seq::<char>::empty(),
        }
    } else if rt == Some("EXPIRED"@) {
        r is Expired
    } else if rt == Some("REDIRECT"@) {
        r matches LoginExResult::Redirect { urls } && urls@ == match reply.urls {
            Some(v) => present_strings(v@),
            None => Seq::<String>::empty(),
        }
    } else {
        r is AuthErr
    }
}

fn is_text(o: &Option<String>, text: &str) -> (b: bool)
    ensures
        b == (opt_text(*o) == Some(text@)),
{
    match o {
        Some(s) => str_eq(s.as_str(), text),
        None => false,
    }
}

fn keep_strings(v: Vec<Option<String>>) -> (r: Vec<String>)
    ensures
        r@ == present_strings(v@),
{
    let mut out: Vec<String> = Vec::new();
    let mut i: usize = 0;
    while i < v.len()
        invariant
            i <= v@.len(),
            out@ == present_strings(v@.take(i as int)),
        decreases v@.len() - i,
    {
        proof {
            assert(v@.take(i + 1).drop_last() =~= v@.take(i as int));
        }
        match &v[i] {
            Some(s) => out.push(s.clone()),
            None => {},
        }
        i = i + 1;
    }
    assert(v@.take(v@.len() as int) =~= v@);
    out
}

/// Reads an `auth.login_ex` answer.
pub fn interpret_login_ex(reply: LoginExReply) -> (r: LoginExResult)
    ensures
        login_ex_meaning(reply, r),
{
    if is_text(&reply.response_type, "SUCCESS") {
        let level = if is_text(&reply.authenticator, "LEVEL_2") {
            AuthenticatorLevel::Level2
        } else {
            AuthenticatorLevel::Level1
        };
        LoginExResult::Success { user_info: reply.user_info, authenticator: level }
    } else if is_text(&reply.response_type, "OTP_REQUIRED") {
        let username = match reply.username {
            Some(u) => u,
            None => String::new(),
        };
        LoginExResult::OtpRequired { username }
    } else if is_text(&reply.response_type, "EXPIRED") {
        LoginExResult::Expired
    } else if is_text(&reply.response_type, "REDIRECT") {
        let urls = match reply.urls {
            Some(v) => keep_strings(v),
            None => Vec::new(),
        };
        LoginExResult::Redirect { urls }
    } else {
        LoginExResult::AuthErr
    }
}

/// The result of `auth.login_ex`: a read answer when the call succeeded,
/// else the call's error or loading state.
pub fn login_ex_result(raw: ApiResult<LoginExReply>) -> (r: ApiResult<LoginExResult>)
    ensures
        match raw {
            ApiResult::Success(reply) => r matches ApiResult::Success(x) && login_ex_meaning(reply, x),
            ApiResult::Error { message } => r == ApiResult::<LoginExResult>::Error { message },
            ApiResult::Loading => r is Loading,
        },
{
    match raw {
        ApiResult::Success(reply) => ApiResult::Success(interpret_login_ex(reply)),
        ApiResult::Error { message } => ApiResult::Error { message },
        ApiResult::Loading => ApiResult::Loading,
    }
}

/// The login options asked of `auth.login_ex`, each set to true: `user_info`
/// when the user's details are wanted, `reconnect_token` when a reconnect
/// token is wanted. None are sent when the list is empty.
pub fn login_option_names(include_user_info: bool, include_reconnect_token: bool) -> (r: Vec<String>)
    ensures
        r@.map_values(|s: String| s@) == (if include_user_info { seq!["user_info"@] } else { Seq::empty() })
            + (if include_reconnect_token { seq!["reconnect_token"@] } else { Seq::empty() }),
{
    let mut r: Vec<String> = Vec::new();
    if include_user_info {
        r.push(string_of("user_info"));
    }
    if include_reconnect_token {
        r.push(string_of("reconnect_token"));
    }
    assert(r@.map_values(|s: String| s@) =~= (if include_user_info { seq!["user_info"@] } else { Seq::empty() })
        + (if include_reconnect_token { seq!["reconnect_token"@] } else { Seq::empty() }));
    r
}

} // verus!
