//! The client's configuration surface: where the service lives, how the
//! client identifies itself, and the quota parameters (daily ceiling and
//! reset window) the governor runs on.

use vstd::prelude::*;

verus! {

/// Configuration consumed by the client. Built with defaults and narrowed by
/// the builder methods.
#[derive(Clone, Debug)]
pub struct OARSConfig {
    /// Base URL of the service.
    pub basepath: String,
    /// Value of the identifying header sent with every request.
    pub useragent: String,
    /// Contact address, if the caller wants to identify itself further.
    pub email: Option<String>,
    /// API key, if the caller has one.
    pub apikey: Option<String>,
    /// Maximum retries; consumed by the transport layer, not by the core.
    pub maxretries: usize,
    /// Whether the governor's observations are logged.
    pub logornot: bool,
    /// Ceiling of the per-window request budget.
    pub dailylimit: usize,
    /// Length of the reset window, in seconds.
    pub resetafter: u64,
}

impl OARSConfig {
    /// What every field of a default configuration holds.
    pub open spec fn is_default(self) -> bool {
        &&& self.basepath@ == "https://api.openalex.org"@
        &&& self.useragent@ == "oars/0.1.0"@
        &&& self.email is None
        &&& self.apikey is None
        &&& self.maxretries == 3
        &&& self.logornot == false
        &&& self.dailylimit == 100000
        &&& self.resetafter == 86400
    }

    /// A configuration with every field at its default.
    pub fn new() -> (r: Self)
        ensures
            r.is_default(),
    {
        OARSConfig {
            basepath: "https://api.openalex.org".to_owned(),
            useragent: "oars/0.1.0".to_owned(),
            email: None,
            apikey: None,
            maxretries: 3,
            logornot: false,
            dailylimit: 100000,
            resetafter: 86400,
        }
    }

    /// Replaces the base URL.
    pub fn basepath(self, basepath: String) -> (r: Self)
        ensures
            r == (OARSConfig { basepath, ..self }),
    {
        OARSConfig { basepath, ..self }
    }

    /// Sets the contact address.
    pub fn email(self, email: String) -> (r: Self)
        ensures
            r == (OARSConfig { email: Some(email), ..self }),
    {
        OARSConfig { email: Some(email), ..self }
    }

    /// Sets the API key.
    pub fn apikey(self, key: String) -> (r: Self)
        ensures
            r == (OARSConfig { apikey: Some(key), ..self }),
    {
        OARSConfig { apikey: Some(key), ..self }
    }

    /// Replaces the retry bound.
    pub fn maxretries(self, retries: usize) -> (r: Self)
        ensures
            r == (OARSConfig { maxretries: retries, ..self }),
    {
        OARSConfig { maxretries: retries, ..self }
    }

    /// Turns logging on.
    pub fn enable_logging(self) -> (r: Self)
        ensures
            r == (OARSConfig { logornot: true, ..self }),
    {
        OARSConfig { logornot: true, ..self }
    }

    /// Replaces the budget ceiling.
    pub fn dailylimit(self, limit: usize) -> (r: Self)
        ensures
            r == (OARSConfig { dailylimit: limit, ..self }),
    {
        OARSConfig { dailylimit: limit, ..self }
    }

    /// Replaces the reset window, in seconds.
    pub fn resetafter(self, interval: u64) -> (r: Self)
        ensures
            r == (OARSConfig { resetafter: interval, ..self }),
    {
        OARSConfig { resetafter: interval, ..self }
    }
}

impl Default for OARSConfig {
    /// Same as [`OARSConfig::new`].
    fn default() -> (r: Self)
        ensures
            r.is_default(),
    {
        OARSConfig::new()
    }
}

} // verus!
