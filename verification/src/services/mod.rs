pub mod auth;
pub mod system;
