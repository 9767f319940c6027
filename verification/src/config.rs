//! Process-wide configuration, loaded once at startup and immutable after.

use vstd::prelude::*;

verus! {

/// Startup configuration: the listening port and whether account
/// registration is open. When no configuration file exists, the default
/// below is written out and used.
pub struct Config {
    pub port: u16,
    pub enable_registration: bool,
}

impl Default for Config {
    /// Port 4000, registration closed.
    fn default() -> (c: Config)
        ensures
            c.port == 4000,
            !c.enable_registration,
    {
        Config { port: 4000, enable_registration: false }
    }
}

} // verus!
