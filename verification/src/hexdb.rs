//! The hexdb.io protocol: request URLs, what an HTTP status means for a
//! lookup, and the shapes of the two responses.
//!
//! Both lookups are best-effort: coverage is crowdsourced, so a 404 simply
//! means "unknown", while other failures are errors.

use vstd::prelude::*;
use crate::text::{chars_of, extend_str, string_of, take_chars};

verus! {

/// The body of a route lookup.
#[derive(Debug)]
pub struct RouteResponse {
    /// Route as `"EGPH-KBOS"` (some entries have more legs, e.g. `"A-B-C"`).
    pub route: Option<String>,
}

/// The body of an airport lookup.
#[derive(Debug, Clone)]
pub struct AirportInfo {
    pub icao: String,
    pub iata: Option<String>,
    pub airport: Option<String>,
}

/// What a response status means for a lookup.
#[derive(Debug, Clone, Copy, PartialEq, Eq, Structural)]
pub enum StatusKind {
    /// 404: the service does not know the key; the answer is "unknown".
    NotFound,
    /// 2xx: the body holds the answer.
    Success,
    /// Anything else: the lookup failed.
    Failure,
}

/// Classify an HTTP status code: 404 first, then the 2xx success range.
pub fn classify_status(code: u16) -> (r: StatusKind)
    ensures
        code == 404 ==> r == StatusKind::NotFound,
        code != 404 && 200 <= code <= 299 ==> r == StatusKind::Success,
        code != 404 && !(200 <= code <= 299) ==> r == StatusKind::Failure,
{
    if code == 404 {
        StatusKind::NotFound
    } else if 200 <= code && code <= 299 {
        StatusKind::Success
    } else {
        StatusKind::Failure
    }
}

/// `s` without any trailing `/` (`str::trim_end_matches('/')`).
pub open spec fn strip_trailing_slashes(s: Seq<char>) -> Seq<char>
    decreases s.len(),
{
    if s.len() > 0 && s.last() == '/' {
        strip_trailing_slashes(s.drop_last())
    } else {
        s
    }
}

/// A base URL with its trailing slashes removed, ready for paths that
/// start with `/`.
pub fn trim_base_url(base: &str) -> (r: String)
    ensures
        r@ == strip_trailing_slashes(base@),
{
    let chars = chars_of(base);
    let mut n = chars.len();
    assert(chars@.take(n as int) =~= chars@);
    while n > 0 && chars[n - 1] == '/'
        invariant
            n <= chars@.len(),
            strip_trailing_slashes(chars@.take(n as int)) == strip_trailing_slashes(base@),
        decreases n,
    {
        assert(chars@.take(n as int).drop_last() =~= chars@.take(n - 1));
        n = n - 1;
    }
    let kept = take_chars(&chars, n);
    string_of(&kept)
}

/// The route lookup URL for a callsign.
pub fn route_url(base: &str, callsign: &str) -> (r: String)
    ensures
        r@ == base@ + "/api/v1/route/icao/"@ + callsign@,
{
    let mut out = chars_of(base);
    extend_str(&mut out, "/api/v1/route/icao/");
    extend_str(&mut out, callsign);
    string_of(&out)
}

/// The airport lookup URL for an ICAO code.
pub fn airport_url(base: &str, icao: &str) -> (r: String)
    ensures
        r@ == base@ + "/api/v1/airport/icao/"@ + icao@,
{
    let mut out = chars_of(base);
    extend_str(&mut out, "/api/v1/airport/icao/");
    extend_str(&mut out, icao);
    string_of(&out)
}

/// A trimmed base URL never ends in `/`, and it is what the configured URL
/// starts with.
pub proof fn lemma_trimmed_base_url(s: Seq<char>)
    ensures
        strip_trailing_slashes(s).len() == 0 || strip_trailing_slashes(s).last() != '/',
        strip_trailing_slashes(s).len() <= s.len(),
        strip_trailing_slashes(s) == s.take(strip_trailing_slashes(s).len() as int),
    decreases s.len(),
{
    if s.len() > 0 && s.last() == '/' {
        lemma_trimmed_base_url(s.drop_last());
        let t = strip_trailing_slashes(s.drop_last());
        assert(s.drop_last().take(t.len() as int) =~= s.take(t.len() as int));
    } else {
        assert(s.take(s.len() as int) =~= s);
    }
}

} // verus!
