//! What the request loop reads from a response: the status code and the
//! values of four headers.

use vstd::prelude::*;
use vstd::string::*;
use crate::text::{decimal_u64, parse_decimal};

verus! {

/// The value of one response header.
#[derive(Clone, Debug, PartialEq, Eq)]
pub enum HeaderValue {
    /// The response does not carry the header.
    Missing,
    /// The header is there, but its value is not text.
    Opaque,
    /// The header's value.
    Text(String),
}

impl HeaderValue {
    /// The number that the header's value writes, where it is text that
    /// writes an unsigned decimal number.
    pub open spec fn number(self) -> Option<u64> {
        match self {
            HeaderValue::Text(t) => decimal_u64(t@),
            _ => None,
        }
    }

    /// Reads the header's value as an unsigned decimal number.
    pub fn to_number(&self) -> (r: Option<u64>)
        ensures
            r == self.number(),
    {
        match self {
            HeaderValue::Text(t) => parse_decimal(t.as_str()),
            _ => None,
        }
    }
}

/// The headers of a response that the request loop and the pagination read.
#[derive(Clone, Debug, PartialEq, Eq)]
pub struct ResponseHeaders {
    /// `x-ratelimit-remaining`: requests left in the current window.
    pub ratelimit_remaining: HeaderValue,
    /// `x-ratelimit-reset`: when the window ends, in seconds since the Unix epoch.
    pub ratelimit_reset: HeaderValue,
    /// `retry-after`: seconds to wait before the next request.
    pub retry_after: HeaderValue,
    /// `Link`: the pagination relations.
    pub link: HeaderValue,
}

/// The seconds from `now_secs` until the rate-limit window ends, where the
/// header gives an end that lies after `now_secs`.
pub open spec fn seconds_until_reset(headers: ResponseHeaders, now_secs: u64) -> Option<u64> {
    match headers.ratelimit_reset.number() {
        Some(reset) => if reset > now_secs {
            Some((reset - now_secs) as u64)
        } else {
            None
        },
        None => None,
    }
}

/// The requests left in the current rate-limit window.
pub fn ratelimit_remaining(headers: &ResponseHeaders) -> (r: Option<u64>)
    ensures
        r == headers.ratelimit_remaining.number(),
{
    headers.ratelimit_remaining.to_number()
}

/// The seconds from `now_secs` until the rate-limit window ends; `None` where
/// the header is missing, is no number, or names a time that has passed.
pub fn ratelimit_reset(headers: &ResponseHeaders, now_secs: u64) -> (r: Option<u64>)
    ensures
        r == seconds_until_reset(*headers, now_secs),
{
    match headers.ratelimit_reset.to_number() {
        Some(reset) => {
            if reset > now_secs {
                Some(reset - now_secs)
            } else {
                None
            }
        },
        None => None,
    }
}

/// The seconds that the `retry-after` header asks to wait.
pub fn retry_after(headers: &ResponseHeaders) -> (r: Option<u64>)
    ensures
        r == headers.retry_after.number(),
{
    headers.retry_after.to_number()
}

} // verus!
