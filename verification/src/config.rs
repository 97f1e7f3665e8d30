//! Settings of the service.
use vstd::prelude::*;

verus! {

/// Settings of the service.
#[derive(Debug)]
pub struct Config {
    pub dev_mode: bool,
    pub host_core_storage: String,
    pub enable_logging: bool,
}

/// The settings, as JSON, that apply where nothing else sets them.
pub const DEFAULT_CONFIG: &'static str = "{
    \"dev_mode\": false,
    \"host_core_storage\": \"http://127.0.0.1:8788\",
    \"enable_logging\": true
}";

impl Default for Config {
    /// The settings of `DEFAULT_CONFIG`: not in development mode, the core
    /// storage on port 8788 of this host, logging on.
    fn default() -> (r: Self)
        ensures
            !r.dev_mode,
            r.host_core_storage@ == "http://127.0.0.1:8788"@,
            r.enable_logging,
    {
        Config {
            dev_mode: false,
            host_core_storage: String::from_str("http://127.0.0.1:8788"),
            enable_logging: true,
        }
    }
}

} // verus!
