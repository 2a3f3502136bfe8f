pub mod config;
pub mod shares;
pub mod system;
pub mod virt;
pub mod vm;
pub mod apps;
pub mod auth;
pub mod storage;
pub mod user;
