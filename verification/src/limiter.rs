//! Outcomes of rate limiting and the decisions around the token buckets:
//! which check comes first, when an address is still cooling down, when a
//! bucket is stale. The buckets themselves count in fractions of a token
//! and live with the caller.

use crate::codec_primitives::{
    clear_url_fragment, clear_url_query, parse_url, set_url_host, str_lowercase, to_lowercase,
    url_host, url_parses, url_with_host, url_without_fragment, url_without_query,
};
use vstd::prelude::*;

verus! {

/// Seconds after which a bucket that was not touched is dropped.
pub const STALE_AFTER_SECS: u64 = 300;

/// Why a request was limited.
#[derive(Debug, Clone, Copy, PartialEq, Eq, Structural)]
pub enum RateLimitReason {
    /// The address exceeded its rate.
    IpRateExceeded,
    /// The source URL exceeded its rate.
    SourceRateExceeded,
    /// The address is shut out after a burst.
    BurstCooldown,
}

/// The outcome of a rate limit check. Times are in milliseconds.
#[derive(Debug, Clone, Copy, PartialEq, Eq, Structural)]
pub enum RateLimitResult {
    /// The request is allowed.
    Allowed {
        /// Requests left in the current window.
        remaining: u32,
        /// Time until the window starts afresh.
        reset_in_ms: u64,
    },
    /// The request is limited.
    Limited {
        /// Why.
        reason: RateLimitReason,
        /// Time until a request can succeed again.
        retry_after_ms: u64,
    },
}

/// The words for a reason.
pub open spec fn spec_reason_text(reason: RateLimitReason) -> Seq<char> {
    match reason {
        RateLimitReason::IpRateExceeded => "IP rate limit exceeded"@,
        RateLimitReason::SourceRateExceeded => "Source URL rate limit exceeded"@,
        RateLimitReason::BurstCooldown => "Burst detected, in cooldown"@,
    }
}

impl RateLimitReason {
    /// The reason in words.
    pub fn message(&self) -> (text: String)
        ensures
            text@ == spec_reason_text(*self),
    {
        match self {
            RateLimitReason::IpRateExceeded => "IP rate limit exceeded".to_owned(),
            RateLimitReason::SourceRateExceeded => "Source URL rate limit exceeded".to_owned(),
            RateLimitReason::BurstCooldown => "Burst detected, in cooldown".to_owned(),
        }
    }
}

impl RateLimitResult {
    /// Whether the request is limited.
    pub fn is_limited(&self) -> (limited: bool)
        ensures
            limited == (*self is Limited),
    {
        match self {
            RateLimitResult::Allowed { .. } => false,
            RateLimitResult::Limited { .. } => true,
        }
    }
}

/// The outcome of checking address and source together: a limit on the
/// address stands; else a limit on the source stands; else the address's
/// allowance is the answer.
pub open spec fn spec_combined(ip_result: RateLimitResult, source_result: Option<RateLimitResult>) -> RateLimitResult {
    if ip_result is Limited {
        ip_result
    } else {
        match source_result {
            Some(source) => if source is Limited {
                source
            } else {
                ip_result
            },
            None => ip_result,
        }
    }
}

/// Whether the source is checked at all after the address: only when the
/// address was allowed and a source was given. A request that is turned
/// away for its address uses up nothing of the source's allowance.
pub fn source_check_needed(ip_result: &RateLimitResult, source_given: bool) -> (needed: bool)
    ensures
        needed == (source_given && *ip_result is Allowed),
{
    source_given && !ip_result.is_limited()
}

/// Puts the two checks together.
pub fn combine(ip_result: RateLimitResult, source_result: Option<RateLimitResult>) -> (result:
    RateLimitResult)
    ensures
        result == spec_combined(ip_result, source_result),
{
    if ip_result.is_limited() {
        return ip_result;
    }
    match source_result {
        Some(source) => {
            if source.is_limited() {
                source
            } else {
                ip_result
            }
        },
        None => ip_result,
    }
}

/// Whether an address is still shut out at `now_ms` when its cooldown ends
/// at `until_ms`, and if so the limit to report.
pub fn cooldown_check(now_ms: u64, until_ms: u64) -> (limit: Option<RateLimitResult>)
    ensures
        now_ms < until_ms ==> limit == Some(
            RateLimitResult::Limited {
                reason: RateLimitReason::BurstCooldown,
                retry_after_ms: (until_ms - now_ms) as u64,
            },
        ),
        now_ms >= until_ms ==> limit is None,
{
    if now_ms < until_ms {
        Some(
            RateLimitResult::Limited {
                reason: RateLimitReason::BurstCooldown,
                retry_after_ms: until_ms - now_ms,
            },
        )
    } else {
        None
    }
}

/// The limit to report when a burst has just been detected: the whole
/// cooldown lies ahead.
pub fn burst_limit(cooldown_ms: u64) -> (limit: RateLimitResult)
    ensures
        limit == (RateLimitResult::Limited {
            reason: RateLimitReason::BurstCooldown,
            retry_after_ms: cooldown_ms,
        }),
{
    RateLimitResult::Limited { reason: RateLimitReason::BurstCooldown, retry_after_ms: cooldown_ms }
}

/// Whether a bucket last touched at `last_refill_ms` is kept at `now_ms`:
/// it is, until five minutes have passed.
pub fn bucket_is_fresh(now_ms: u64, last_refill_ms: u64) -> (fresh: bool)
    ensures
        fresh == (now_ms < last_refill_ms + STALE_AFTER_SECS * 1000),
{
    now_ms < last_refill_ms || now_ms - last_refill_ms < STALE_AFTER_SECS * 1000
}

/// The outcome of one step of normalizing: what the step made of the text,
/// or the text as it was where the step made nothing of it.
pub open spec fn spec_or_unchanged(step: Option<Seq<char>>, text: Seq<char>) -> Seq<char> {
    match step {
        Some(changed) => changed,
        None => text,
    }
}

/// A URL without its query and its fragment.
pub open spec fn spec_stripped(url: Seq<char>) -> Seq<char> {
    let without_query = spec_or_unchanged(url_without_query(url), url);
    spec_or_unchanged(url_without_fragment(without_query), without_query)
}

/// The key under which a source URL is counted: a URL loses its query and
/// its fragment, and its host, if it has one, is put in lower case; what is
/// no URL is put in lower case as a whole.
pub open spec fn spec_normalized_source(url: Seq<char>) -> Seq<char> {
    if !url_parses(url) {
        str_lowercase(url)
    } else {
        match url_host(url) {
            Some(host) => spec_or_unchanged(
                url_with_host(spec_stripped(url), str_lowercase(host)),
                spec_stripped(url),
            ),
            None => spec_stripped(url),
        }
    }
}

/// Normalizes a source URL for counting: query and fragment are dropped and
/// the host lowered; what is no URL is lowered as a whole. A host that the
/// URL does not take in lower case stays as it is.
pub fn normalize_source_url(url: &str) -> (key: String)
    ensures
        key@ == spec_normalized_source(url@),
{
    let parts = match parse_url(url) {
        Some(parts) => parts,
        None => {
            return to_lowercase(url);
        },
    };
    let without_query: String = match clear_url_query(url) {
        Some(cleared) => cleared,
        None => url.to_owned(),
    };
    let stripped: String = match clear_url_fragment(without_query.as_str()) {
        Some(cleared) => cleared,
        None => without_query,
    };
    match parts.host {
        Some(host) => {
            let lowered: String = to_lowercase(host.as_str());
            match set_url_host(stripped.as_str(), lowered.as_str()) {
                Some(changed) => changed,
                None => stripped,
            }
        },
        None => stripped,
    }
}

} // verus!
