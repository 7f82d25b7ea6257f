//! The settings file: its sections and their defaults.
use vstd::prelude::*;

verus! {

/// All settings.
pub struct Root {
    pub general: General,
    pub network: Network,
}

/// General settings.
pub struct General {
    pub retry_times: i32,
}

/// Campus network settings.
pub struct Network {
    /// Whether to check that the portal's entrance answers before a network command.
    pub connect_check: bool,
}

impl Default for General {
    /// Three retries.
    fn default() -> (g: General)
        ensures
            g.retry_times == 3,
    {
        General { retry_times: 3 }
    }
}

impl Default for Network {
    /// The connection check switched on.
    fn default() -> (n: Network)
        ensures
            n.connect_check,
    {
        Network { connect_check: true }
    }
}

impl Default for Root {
    /// Every section at its default.
    fn default() -> (r: Root)
        ensures
            r.general.retry_times == 3,
            r.network.connect_check,
    {
        Root { general: General::default(), network: Network::default() }
    }
}

} // verus!
