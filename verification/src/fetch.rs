//! Document URL construction for the content fetcher.
//!
//! The fetcher retrieves each configured document reference from the page's
//! own origin, either plainly or with a cache-busting query parameter that
//! carries the current Unix time in seconds. The HTTP transfer itself is the
//! host's business; everything the URL is built from is plain data here.

use vstd::prelude::*;
use crate::digits::{decimal_of, decimal_string};

verus! {

/// Why fetching one document reference produced no Markdown text.
#[derive(PartialEq, Eq, Structural, Clone, Copy, Debug)]
pub enum FetchError {
    /// The HTTP request failed: connection error, timeout, or a non-success
    /// status.
    Network,
    /// The response arrived but its body could not be decoded as text.
    Decode,
}

/// The URL of a document relative to the page's origin, plain variant:
/// origin and path, nothing else.
pub fn plain_url(origin: &str, path: &str) -> (r: String)
    ensures
        r@ == origin@ + path@,
{
    let mut url = String::from_str(origin);
    url.append(path);
    url
}

/// The cache-busted variant: origin, path, and a query parameter `?v=` that
/// carries the given Unix time in seconds, so that every load looks distinct
/// to an HTTP cache.
pub fn cache_busted_url(origin: &str, path: &str, seconds: u64) -> (r: String)
    ensures
        r@ == origin@ + path@ + "?v="@ + decimal_of(seconds as nat),
{
    let mut url = String::from_str(origin);
    url.append(path);
    url.append("?v=");
    let ticks = decimal_string(seconds);
    url.append(ticks.as_str());
    url
}

/// Relies on std::time::SystemTime::now and SystemTime::duration_since
/// against the Unix epoch: the current whole seconds since the epoch, or
/// nothing on a host clock that reads before it. Neither arm panics; the
/// value itself is the environment's, so nothing is assumed of it.
#[verifier::external_body]
fn clock_seconds() -> (r: Option<u64>) {
    match std::time::SystemTime::now().duration_since(std::time::UNIX_EPOCH) {
        Ok(elapsed) => Some(elapsed.as_secs()),
        Err(_) => None,
    }
}

/// The cache-busted URL for the present moment: whatever the clock read —
/// zero stands in for a reading before the epoch, which no running page
/// observes — the result is the plain URL followed by `?v=` and some decimal
/// count of Unix seconds.
pub fn cache_busted_url_now(origin: &str, path: &str) -> (r: String)
    ensures
        exists|t: nat| t <= u64::MAX && r@ == origin@ + path@ + "?v="@ + decimal_of(t),
{
    let seconds: u64 = match clock_seconds() {
        Some(s) => s,
        None => 0,
    };
    let url = cache_busted_url(origin, path, seconds);
    proof {
        assert(url@ == origin@ + path@ + "?v="@ + decimal_of(seconds as nat));
    }
    url
}

} // verus!
