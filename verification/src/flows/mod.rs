pub mod startup;
pub mod login;
