pub mod pool;
pub mod home;
pub mod disk;
pub mod share;
pub mod performance;
