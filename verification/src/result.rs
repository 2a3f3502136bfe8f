use vstd::prelude::*;

verus! {

/// The outcome of a call to the server, as the screens see it.
#[derive(Debug, Clone)]
pub enum ApiResult<T> {
    Loading,
    Success(T),
    Error { message: String },
}

impl<T> ApiResult<T> {
    /// Whether the call succeeded.
    pub fn is_success(&self) -> (b: bool)
        ensures
            b == (self is Success),
    {
        match self {
            ApiResult::Success(_) => true,
            _ => false,
        }
    }
}

} // verus!
