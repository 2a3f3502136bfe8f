use vstd::prelude::*;

pub mod text;
pub mod url;
pub mod result;
pub mod methods;
pub mod store;
pub mod flows;
pub mod client;
pub mod manager;
pub mod json;
pub mod models;
pub mod services;
pub mod views;

verus! {

/// Adds two unsigned integers.
pub fn add(left: u64, right: u64) -> (sum: u64)
    requires
        left + right <= u64::MAX,
    ensures
        sum == left + right,
{
    left + right
}

} // verus!
