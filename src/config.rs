//! Daemon configuration.

use vstd::prelude::*;
use vstd::string::*;

verus! {

/// How the daemon is configured.
#[derive(Debug, Clone)]
pub struct DaemonConfig {
    /// Directory of the profile files.
    pub profiles_dir: String,
    /// Profile that is current at start-up.
    pub default_profile: String,
    /// Debug logging.
    pub debug: bool,
    /// Interval of system monitoring, in milliseconds.
    pub poll_interval_ms: u64,
    /// Whether to use asusctl when it is available.
    pub use_asusctl: bool,
    /// Whether to use supergfxctl for GPU switching.
    pub use_supergfxctl: bool,
}

impl DaemonConfig {
    /// The default configuration, with profiles kept in `profiles_dir`: the
    /// Balanced profile at start-up, no debug logging, a one-second poll, and
    /// both helper integrations on.
    pub fn new(profiles_dir: String) -> (c: Self)
        ensures
            c.profiles_dir == profiles_dir,
            c.default_profile@ == "Balanced"@,
            !c.debug,
            c.poll_interval_ms == 1000,
            c.use_asusctl,
            c.use_supergfxctl,
    {
        DaemonConfig {
            profiles_dir,
            default_profile: String::from_str("Balanced"),
            debug: false,
            poll_interval_ms: 1000,
            use_asusctl: true,
            use_supergfxctl: true,
        }
    }
}

} // verus!
