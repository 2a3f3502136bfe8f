use vstd::prelude::*;

verus! {

/// The preferences the application keeps between runs.
#[derive(Debug)]
pub struct AppPrefs {
    pub server_url: Option<String>,
    pub insecure: bool,
    pub enable_debug_logging: bool,
}

impl Default for AppPrefs {
    fn default() -> (p: Self)
        ensures
            p.server_url is None,
            !p.insecure,
            !p.enable_debug_logging,
    {
        AppPrefs { server_url: None, insecure: false, enable_debug_logging: false }
    }
}

} // verus!
