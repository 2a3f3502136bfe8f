pub mod accounts;
pub mod prefs;
