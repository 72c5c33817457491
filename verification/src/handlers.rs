//! What the Webmention service answers: the bodies of its responses and the
//! decisions that lead to them. The HTTP server itself is the caller's; it
//! hands over what it received and sends what it is handed back.

use crate::limiter::{spec_reason_text, RateLimitResult};
use crate::text::spec_texts;
use crate::validator::{
    spec_optional_str, spec_refusal_text, spec_validate_content_type,
    spec_validate_source_target, ValidationResult, WebmentionValidator,
};
use vstd::prelude::*;

verus! {

/// HTTP status `200 OK`.
pub const STATUS_OK: u16 = 200;

/// HTTP status `400 Bad Request`.
pub const STATUS_BAD_REQUEST: u16 = 400;

/// HTTP status `415 Unsupported Media Type`.
pub const STATUS_UNSUPPORTED_MEDIA_TYPE: u16 = 415;

/// HTTP status `429 Too Many Requests`.
pub const STATUS_TOO_MANY_REQUESTS: u16 = 429;

/// Body of an error response.
#[derive(Debug)]
pub struct ErrorResponse {
    pub error: String,
    pub code: &'static str,
    pub retry_after_secs: Option<u64>,
}

/// Body of the health check's response.
#[derive(Debug)]
pub struct HealthResponse {
    pub status: &'static str,
    pub service: &'static str,
    pub version: &'static str,
}

/// A request to check one Webmention from outside.
#[derive(Debug)]
pub struct CheckRequest {
    pub ip: String,
    pub source: Option<String>,
    pub target: Option<String>,
    pub content_type: Option<String>,
}

/// The answer to a check.
#[derive(Debug)]
pub struct CheckResponse {
    pub allowed: bool,
    pub reason: Option<String>,
    pub retry_after_secs: Option<u64>,
    pub remaining: Option<u32>,
}

/// What to do with a request that passed through the service itself.
#[derive(Debug)]
pub enum ProxyReply {
    /// Let it through, telling how many requests are left.
    Forward { remaining: u32 },
    /// Turn it away with this status, `Retry-After` value and body.
    Reject { status: u16, retry_after_secs: Option<u64>, body: ErrorResponse },
}

/// An optional string as an optional string slice.
pub fn as_deref(value: &Option<String>) -> (slice: Option<&str>)
    ensures
        spec_optional_str(slice) == crate::validator::spec_optional_text(*value),
{
    match value {
        Some(s) => Some(s.as_str()),
        None => None,
    }
}

/// Whole seconds in a number of milliseconds.
pub open spec fn spec_whole_secs(ms: u64) -> u64 {
    (ms / 1000) as u64
}

/// The health check's answer.
pub fn health(version: &'static str) -> (response: HealthResponse)
    ensures
        response.status@ == "healthy"@,
        response.service@ == "webmention-rate-limiter"@,
        response.version == version,
{
    HealthResponse { status: "healthy", service: "webmention-rate-limiter", version }
}

/// What validating a check request yields: the address must have parsed;
/// the request is then validated as a whole.
pub open spec fn spec_check_refusal(
    validator: WebmentionValidator,
    request: CheckRequest,
) -> Option<crate::validator::Refusal> {
    match spec_validate_content_type(
        spec_texts(validator.config().require_content_type@),
        crate::validator::spec_optional_text(request.content_type),
    ) {
        Some(refusal) => Some(refusal),
        None => spec_validate_source_target(
            validator.config().require_source_target,
            validator.config().block_self_ping,
            crate::validator::spec_optional_text(request.source),
            crate::validator::spec_optional_text(request.target),
        ),
    }
}

/// Answers a check request as far as that can be done without counting it:
/// `Some` is the status and body to send at once; `None` means the request
/// is in order and the rate limiter is to be asked.
///
/// An address that does not parse is a bad request. A request that fails
/// validation is answered with status 200 and `allowed: false`, so that the
/// gateway in front can read the reason.
pub fn check_request(validator: &WebmentionValidator, request: &CheckRequest, ip_parses: bool) -> (early:
    Option<(u16, CheckResponse)>)
    ensures
        match early {
            Some((status, response)) => {
                &&& !response.allowed
                &&& response.retry_after_secs is None
                &&& response.remaining is None
                &&& response.reason is Some
                &&& if !ip_parses {
                    status == STATUS_BAD_REQUEST && response.reason->0@
                        == "Invalid IP address format"@
                } else {
                    status == STATUS_OK && (spec_check_refusal(*validator, *request) matches Some(
                        refusal,
                    ) && response.reason->0@ == spec_refusal_text(refusal))
                }
            },
            None => ip_parses && spec_check_refusal(*validator, *request) is None,
        },
{
    if !ip_parses {
        return Some(
            (
                STATUS_BAD_REQUEST,
                CheckResponse {
                    allowed: false,
                    reason: Some("Invalid IP address format".to_owned()),
                    retry_after_secs: None,
                    remaining: None,
                },
            ),
        );
    }
    let validation: ValidationResult = validator.validate(
        as_deref(&request.content_type),
        as_deref(&request.source),
        as_deref(&request.target),
    );
    match validation {
        ValidationResult::Invalid(err) => Some(
            (
                STATUS_OK,
                CheckResponse {
                    allowed: false,
                    reason: Some(err.message()),
                    retry_after_secs: None,
                    remaining: None,
                },
            ),
        ),
        ValidationResult::Valid => None,
    }
}

/// Answers a check request once the rate limiter has been asked. The status
/// is 200 either way.
pub fn check_rate(result: &RateLimitResult) -> (answer: (u16, CheckResponse))
    ensures
        answer.0 == STATUS_OK,
        match *result {
            RateLimitResult::Allowed { remaining, reset_in_ms } => {
                &&& answer.1.allowed
                &&& answer.1.reason is None
                &&& answer.1.retry_after_secs is None
                &&& answer.1.remaining == Some(remaining)
            },
            RateLimitResult::Limited { reason, retry_after_ms } => {
                &&& !answer.1.allowed
                &&& (answer.1.reason matches Some(text) && text@ == spec_reason_text(reason))
                &&& answer.1.retry_after_secs == Some(spec_whole_secs(retry_after_ms))
                &&& answer.1.remaining is None
            },
        },
{
    match result {
        RateLimitResult::Allowed { remaining, .. } => (
            STATUS_OK,
            CheckResponse {
                allowed: true,
                reason: None,
                retry_after_secs: None,
                remaining: Some(*remaining),
            },
        ),
        RateLimitResult::Limited { reason, retry_after_ms } => (
            STATUS_OK,
            CheckResponse {
                allowed: false,
                reason: Some(reason.message()),
                retry_after_secs: Some(*retry_after_ms / 1000),
                remaining: None,
            },
        ),
    }
}

/// Looks at the content type of a request that passes through the service
/// itself: `Some` is the rejection to send at once; `None` means the rate
/// limiter is to be asked.
pub fn proxy_content_type(validator: &WebmentionValidator, content_type: Option<&str>) -> (early:
    Option<ProxyReply>)
    ensures
        match early {
            Some(ProxyReply::Reject { status, retry_after_secs, body }) => {
                &&& status == STATUS_UNSUPPORTED_MEDIA_TYPE
                &&& retry_after_secs is None
                &&& body.retry_after_secs is None
                &&& body.code@ == "INVALID_CONTENT_TYPE"@
                &&& (spec_validate_content_type(
                    spec_texts(validator.config().require_content_type@),
                    spec_optional_str(content_type),
                ) matches Some(refusal) && body.error@ == spec_refusal_text(refusal))
            },
            Some(ProxyReply::Forward { .. }) => false,
            None => spec_validate_content_type(
                spec_texts(validator.config().require_content_type@),
                spec_optional_str(content_type),
            ) is None,
        },
{
    match validator.validate_content_type(content_type) {
        ValidationResult::Invalid(err) => Some(
            ProxyReply::Reject {
                status: STATUS_UNSUPPORTED_MEDIA_TYPE,
                retry_after_secs: None,
                body: ErrorResponse {
                    error: err.message(),
                    code: "INVALID_CONTENT_TYPE",
                    retry_after_secs: None,
                },
            },
        ),
        ValidationResult::Valid => None,
    }
}

/// Decides on a request that passes through the service itself once the
/// rate limiter has been asked.
pub fn proxy_rate(result: &RateLimitResult) -> (reply: ProxyReply)
    ensures
        match *result {
            RateLimitResult::Allowed { remaining, reset_in_ms } => reply matches ProxyReply::Forward {
                remaining: r,
            } && r == remaining,
            RateLimitResult::Limited { reason, retry_after_ms } => reply matches ProxyReply::Reject {
                status,
                retry_after_secs,
                body,
            } && {
                &&& status == STATUS_TOO_MANY_REQUESTS
                &&& retry_after_secs == Some(spec_whole_secs(retry_after_ms))
                &&& body.retry_after_secs == Some(spec_whole_secs(retry_after_ms))
                &&& body.code@ == "RATE_LIMITED"@
                &&& body.error@ == spec_reason_text(reason)
            },
        },
{
    match result {
        RateLimitResult::Allowed { remaining, .. } => ProxyReply::Forward { remaining: *remaining },
        RateLimitResult::Limited { reason, retry_after_ms } => {
            let retry_secs: u64 = *retry_after_ms / 1000;
            ProxyReply::Reject {
                status: STATUS_TOO_MANY_REQUESTS,
                retry_after_secs: Some(retry_secs),
                body: ErrorResponse {
                    error: reason.message(),
                    code: "RATE_LIMITED",
                    retry_after_secs: Some(retry_secs),
                },
            }
        },
    }
}

} // verus!
