use vstd::prelude::*;
use crate::result::ApiResult;
use crate::text::{after_last, unsigned_decimal_with, int_decimal, last_piece, string_of};

verus! {

/// The result a dashboard cannot do without: its value, or the error shown
/// instead of the dashboard (`Unexpected loading state` for a pending call).
pub fn required<T>(r: ApiResult<T>) -> (o: Result<T, String>)
    ensures
        match r {
            ApiResult::Success(v) => o == Ok::<T, String>(v),
            ApiResult::Error { message } => o == Err::<T, String>(message),
            ApiResult::Loading => o matches Err(m) && m@ == "Unexpected loading state"@,
        },
{
    match r {
        ApiResult::Success(v) => Ok(v),
        ApiResult::Error { message } => Err(message),
        ApiResult::Loading => Err(string_of("Unexpected loading state")),
    }
}

/// A list the dashboard shows when it has it, and shows empty otherwise.
pub fn list_or_empty<T>(r: ApiResult<Vec<T>>) -> (v: Vec<T>)
    ensures
        match r {
            ApiResult::Success(l) => v == l,
            _ => v@.len() == 0,
        },
{
    match r {
        ApiResult::Success(l) => l,
        _ => Vec::new(),
    }
}

/// The name an NFS share is shown by: the last component of its path.
pub fn nfs_display_name(path: &str) -> (s: String)
    ensures
        s@ == after_last(path@, '/'),
{
    last_piece(path, '/')
}

/// A count followed by what is counted, such as `3 disk(s)`.
pub fn counted(n: usize, what: &str) -> (s: String)
    ensures
        s@ == int_decimal(n as int) + what@,
{
    unsigned_decimal_with(n as u64, what)
}

/// The status badge of a share in a list: `Active` or `Off`, and its style class.
pub fn list_status_badge(enabled: bool) -> (r: (&'static str, &'static str))
    ensures
        r.0@ == (if enabled { "Active"@ } else { "Off"@ }),
        r.1@ == (if enabled { "success"@ } else { "error"@ }),
{
    if enabled { ("Active", "success") } else { ("Off", "error") }
}

/// The name shown for the signed-in user: the stored name, or `User`.
pub fn display_username(name: Option<String>) -> (s: String)
    ensures
        s@ == match name {
            Some(n) => n@,
            None => "User"@,
        },
{
    match name {
        Some(n) => n,
        None => string_of("User"),
    }
}

} // verus!
