use vstd::prelude::*;
use crate::text::string_of;

verus! {

/// How to reach the server and how to behave once connected.
#[derive(Debug, Clone)]
pub struct ClientConfig {
    pub server_url: String,
    pub insecure: bool,
    pub enable_ping: bool,
    pub ping_timeout_ms: u64,
    pub connection_timeout_ms: u64,
    pub enable_debug_logging: bool,
}

/// Pinging is on unless configured otherwise.
pub fn default_enable_ping() -> (b: bool)
    ensures
        b,
{
    true
}

/// A ping gets 5 seconds unless configured otherwise.
pub fn default_ping_timeout_ms() -> (t: u64)
    ensures
        t == 5000,
{
    5000
}

/// Connecting gets 10 seconds unless configured otherwise.
pub fn default_connection_timeout_ms() -> (t: u64)
    ensures
        t == 10000,
{
    10000
}

/// Debug logging is on unless configured otherwise.
pub fn default_enable_debug_logging() -> (b: bool)
    ensures
        b,
{
    true
}

impl Default for ClientConfig {
    fn default() -> (c: Self)
        ensures
            c.server_url@ == Seq::<char>::empty(),
            !c.insecure,
            c.enable_ping,
            c.ping_timeout_ms == 5000,
            c.connection_timeout_ms == 10000,
            c.enable_debug_logging,
    {
        ClientConfig {
            server_url: String::new(),
            insecure: false,
            enable_ping: default_enable_ping(),
            ping_timeout_ms: default_ping_timeout_ms(),
            connection_timeout_ms: default_connection_timeout_ms(),
            enable_debug_logging: default_enable_debug_logging(),
        }
    }
}

} // verus!
