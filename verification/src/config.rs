//! The configuration sections the library reads: polling and API endpoints,
//! with the defaults that a missing or partial configuration falls back to.

use vstd::prelude::*;

verus! {

/// Minimum polling interval, guarding the free feed's ~1 request/second
/// courtesy limit even if the configuration asks for something faster.
pub const MIN_INTERVAL_SECONDS: u64 = 5;

/// How often the feed is polled.
#[derive(Debug, Clone)]
pub struct Polling {
    pub interval_seconds: u64,
}

/// Where the two services live.
#[derive(Debug, Clone)]
pub struct Api {
    pub adsb_base_url: String,
    pub hexdb_base_url: String,
}

impl Default for Polling {
    /// Every fifteen seconds.
    fn default() -> (r: Self)
        ensures
            r.interval_seconds == 15,
    {
        Polling { interval_seconds: 15 }
    }
}

impl Default for Api {
    /// The public adsb.lol and hexdb.io endpoints.
    fn default() -> (r: Self)
        ensures
            r.adsb_base_url@ == "https://api.adsb.lol"@,
            r.hexdb_base_url@ == "https://hexdb.io"@,
    {
        Api {
            adsb_base_url: String::from_str("https://api.adsb.lol"),
            hexdb_base_url: String::from_str("https://hexdb.io"),
        }
    }
}

impl Polling {
    /// The interval actually used: the configured one, but never below
    /// [`MIN_INTERVAL_SECONDS`].
    pub fn effective_interval_seconds(&self) -> (r: u64)
        ensures
            r == if self.interval_seconds < MIN_INTERVAL_SECONDS {
                MIN_INTERVAL_SECONDS
            } else {
                self.interval_seconds
            },
    {
        if self.interval_seconds < MIN_INTERVAL_SECONDS {
            MIN_INTERVAL_SECONDS
        } else {
            self.interval_seconds
        }
    }
}

} // verus!
