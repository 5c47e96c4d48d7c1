//! The rules of the serving layer that need no I/O: where the endpoints
//! live, when a cached card is still fresh, and how long clients may cache
//! a response.

use vstd::prelude::*;
use vstd::string::*;

verus! {

/// The seconds of one day.
pub const ONE_DAY: u32 = 86400;

/// The file that holds the cached card.
pub const ALL_CACHE_SVG: &'static str = "all_cache.svg";

/// The nanoseconds of one second.
pub const NANOS_PER_SEC: u128 = 1_000_000_000;

/// The URLs of the service's endpoints.
#[derive(Clone, Debug, PartialEq, Eq)]
pub struct Endpoints {
    pub root_url: String,
    pub all_url: String,
    pub health_url: String,
    pub favicon_url: String,
}

/// The URLs of the endpoints of a service that is reached at `base_url`.
pub fn endpoints(base_url: &str) -> (r: Endpoints)
    ensures
        r.root_url@ == base_url@ + "/"@,
        r.all_url@ == base_url@ + "/all"@,
        r.health_url@ == base_url@ + "/health"@,
        r.favicon_url@ == base_url@ + "/favicon.ico"@,
{
    Endpoints {
        root_url: String::from_str(base_url).concat("/"),
        all_url: String::from_str(base_url).concat("/all"),
        health_url: String::from_str(base_url).concat("/health"),
        favicon_url: String::from_str(base_url).concat("/favicon.ico"),
    }
}

/// Whether a file last modified at `modified_nanos` is younger than
/// `max_age_secs` seconds at `now_nanos`, both in nanoseconds since the
/// Unix epoch. A file modified after `now_nanos` is recent.
pub fn is_recent(modified_nanos: u128, now_nanos: u128, max_age_secs: u32) -> (r: bool)
    ensures
        r == (modified_nanos + max_age_secs * NANOS_PER_SEC > now_nanos),
{
    if modified_nanos > now_nanos {
        true
    } else {
        now_nanos - modified_nanos < (max_age_secs as u128) * NANOS_PER_SEC
    }
}

/// How long a response may be cached, in seconds.
#[derive(Clone, Copy, Debug, PartialEq, Eq, Structural)]
pub struct CachePolicy {
    /// By a client.
    pub max_age: u32,
    /// By a shared cache.
    pub s_maxage: u32,
    /// How long a stale response may be served while a fresh one is fetched.
    pub stale_while_revalidate: u32,
}

/// The cache policy of a card that is rebuilt every `cache_seconds`:
/// clients keep it half that long, shared caches the whole time, and a
/// stale card may be served for a day.
pub fn cache_policy(cache_seconds: u32) -> (r: CachePolicy)
    ensures
        r == (CachePolicy {
            max_age: cache_seconds / 2,
            s_maxage: cache_seconds,
            stale_while_revalidate: ONE_DAY,
        }),
{
    CachePolicy {
        max_age: cache_seconds / 2,
        s_maxage: cache_seconds,
        stale_while_revalidate: ONE_DAY,
    }
}

} // verus!
