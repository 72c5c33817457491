//! Validation of Webmention requests before they reach the endpoint:
//! the content type, the presence and form of source and target, and the
//! refusal of a site that mentions itself.

use crate::codec_primitives::{
    debug_list, debug_list_text, debug_option, debug_option_text, parse_url, str_lowercase,
    to_lowercase, url_host, url_parses, url_scheme, UrlParts,
};
use crate::config::ValidationConfig;
use crate::text::{
    before, clone_texts, find, spec_all_digits, spec_before, spec_decimal_value, spec_find,
    spec_texts, spec_trim, str_eq, trim,
};
use vstd::prelude::*;
use vstd::string::StrSliceExecFns;
use vstd::string::StringExecFns;

verus! {

/// Why a request was refused.
#[derive(Debug, Clone)]
pub enum ValidationError {
    /// The content type is missing or not one of those expected.
    InvalidContentType { expected: Vec<String>, actual: Option<String> },
    /// A required parameter is missing or blank.
    MissingParameter(&'static str),
    /// A parameter is not a web URL.
    InvalidUrl { param: &'static str, url: String },
    /// Source and target lie on one registrable domain.
    SelfPingBlocked { domain: String },
}

/// The outcome of a validation.
#[derive(Debug, Clone)]
pub enum ValidationResult {
    /// The request may pass.
    Valid,
    /// The request is refused.
    Invalid(ValidationError),
}

/// A refusal as plain text values.
pub enum Refusal {
    InvalidContentType { expected: Seq<Seq<char>>, actual: Option<Seq<char>> },
    MissingParameter { param: Seq<char> },
    InvalidUrl { param: Seq<char>, url: Seq<char> },
    SelfPingBlocked { domain: Seq<char> },
}

/// An optional string as an optional text.
pub open spec fn spec_optional_text(s: Option<String>) -> Option<Seq<char>> {
    match s {
        Some(s) => Some(s@),
        None => None,
    }
}

impl View for ValidationError {
    type V = Refusal;

    open spec fn view(&self) -> Refusal {
        match *self {
            ValidationError::InvalidContentType { expected, actual } => Refusal::InvalidContentType {
                expected: spec_texts(expected@),
                actual: spec_optional_text(actual),
            },
            ValidationError::MissingParameter(param) => Refusal::MissingParameter { param: param@ },
            ValidationError::InvalidUrl { param, url } => Refusal::InvalidUrl {
                param: param@,
                url: url@,
            },
            ValidationError::SelfPingBlocked { domain } => Refusal::SelfPingBlocked {
                domain: domain@,
            },
        }
    }
}

impl View for ValidationResult {
    type V = Option<Refusal>;

    open spec fn view(&self) -> Option<Refusal> {
        match *self {
            ValidationResult::Valid => None,
            ValidationResult::Invalid(e) => Some(e@),
        }
    }
}

/// A refusal in words.
pub open spec fn spec_refusal_text(refusal: Refusal) -> Seq<char> {
    match refusal {
        Refusal::InvalidContentType { expected, actual } => "Invalid Content-Type: expected one of "@
            + debug_list_text(expected) + ", got "@ + debug_option_text(actual),
        Refusal::MissingParameter { param } => "Missing required parameter: "@ + param,
        Refusal::InvalidUrl { param, url } => "Invalid URL format for "@ + param + ": "@ + url,
        Refusal::SelfPingBlocked { domain } =>
            "Self-ping blocked: source and target share domain "@ + domain,
    }
}

impl ValidationError {
    /// The refusal in words.
    pub fn message(&self) -> (text: String)
        ensures
            text@ == spec_refusal_text(self@),
    {
        let mut text: String = String::new();
        match self {
            ValidationError::InvalidContentType { expected, actual } => {
                text.append("Invalid Content-Type: expected one of ");
                text.append(debug_list(expected).as_str());
                text.append(", got ");
                text.append(debug_option(actual).as_str());
            },
            ValidationError::MissingParameter(param) => {
                text.append("Missing required parameter: ");
                text.append(param);
            },
            ValidationError::InvalidUrl { param, url } => {
                text.append("Invalid URL format for ");
                text.append(param);
                text.append(": ");
                text.append(url.as_str());
            },
            ValidationError::SelfPingBlocked { domain } => {
                text.append("Self-ping blocked: source and target share domain ");
                text.append(domain.as_str());
            },
        }
        assert(text@ =~= spec_refusal_text(self@));
        text
    }
}

impl ValidationResult {
    /// Whether the request may pass.
    pub fn is_valid(&self) -> (valid: bool)
        ensures
            valid == (self@ is None),
            valid == (*self is Valid),
    {
        match self {
            ValidationResult::Valid => true,
            ValidationResult::Invalid(_) => false,
        }
    }

    /// The reason for the refusal, if the request was refused.
    pub fn error(&self) -> (error: Option<&ValidationError>)
        ensures
            match *self {
                ValidationResult::Valid => error is None,
                ValidationResult::Invalid(e) => error == Some(&e),
            },
    {
        match self {
            ValidationResult::Valid => None,
            ValidationResult::Invalid(e) => Some(e),
        }
    }
}

/// Validates Webmention requests against a configuration.
pub struct WebmentionValidator {
    config: ValidationConfig,
}

/// The media type that a `Content-Type` header names: what stands before
/// the first semicolon, without surrounding white space, in lower case.
pub open spec fn spec_media_type(header: Seq<char>) -> Seq<char> {
    str_lowercase(spec_trim(spec_before(header, ';')))
}

/// Whether `media_type` is, case aside, one of `expected`.
pub open spec fn spec_is_expected(expected: Seq<Seq<char>>, media_type: Seq<char>) -> bool {
    exists|i: int| 0 <= i < expected.len() && str_lowercase(#[trigger] expected[i]) == media_type
}

/// What validating a `Content-Type` header yields.
pub open spec fn spec_validate_content_type(
    expected: Seq<Seq<char>>,
    content_type: Option<Seq<char>>,
) -> Option<Refusal> {
    match content_type {
        Some(header) => if spec_is_expected(expected, spec_media_type(header)) {
            None
        } else {
            Some(
                Refusal::InvalidContentType { expected, actual: Some(spec_media_type(header)) },
            )
        },
        None => Some(Refusal::InvalidContentType { expected, actual: None }),
    }
}

/// Whether a parameter is missing: absent, empty, or white space only.
pub open spec fn spec_is_missing(param: Option<Seq<char>>) -> bool {
    match param {
        Some(text) => spec_trim(text).len() == 0,
        None => true,
    }
}

/// Whether `text` is a web URL: it parses, its scheme is `http` or `https`,
/// and it has a host.
pub open spec fn spec_is_web_url(text: Seq<char>) -> bool {
    &&& url_parses(text)
    &&& (url_scheme(text) == "http"@ || url_scheme(text) == "https"@)
    &&& url_host(text) is Some
}

/// Whether `s` writes one part of a dotted IPv4 address: one to three
/// digits, no leading zero before another digit, at most 255.
pub open spec fn spec_is_octet(s: Seq<char>) -> bool {
    &&& 1 <= s.len() <= 3
    &&& spec_all_digits(s)
    &&& (s.len() == 1 || s[0] != '0')
    &&& spec_decimal_value(s) <= 255
}

/// Whether `s` is an IPv4 address in dotted form: four parts, three dots.
pub open spec fn spec_is_ipv4(s: Seq<char>) -> bool {
    let d1 = spec_find(s, '.', 0);
    let d2 = spec_find(s, '.', d1 + 1);
    let d3 = spec_find(s, '.', d2 + 1);
    &&& d1 < s.len()
    &&& d2 < s.len()
    &&& d3 < s.len()
    &&& spec_find(s, '.', d3 + 1) == s.len()
    &&& spec_is_octet(s.subrange(0, d1))
    &&& spec_is_octet(s.subrange(d1 + 1, d2))
    &&& spec_is_octet(s.subrange(d2 + 1, d3))
    &&& spec_is_octet(s.subrange(d3 + 1, s.len() as int))
}

/// Whether `s` holds at least two dots, that is at least three labels.
pub open spec fn spec_has_three_labels(s: Seq<char>) -> bool {
    let d1 = spec_find(s, '.', 0);
    d1 < s.len() && spec_find(s, '.', d1 + 1) < s.len()
}

/// Where the last `labels` dot-separated labels of the first `end`
/// characters of `s` begin; zero if there are no more labels than that.
pub open spec fn spec_label_suffix_start(s: Seq<char>, labels: nat, end: int) -> int
    decreases end,
{
    if end <= 0 || end > s.len() {
        0
    } else if s[end - 1] == '.' {
        if labels <= 1 {
            end
        } else {
            spec_label_suffix_start(s, (labels - 1) as nat, end - 1)
        }
    } else {
        spec_label_suffix_start(s, labels, end - 1)
    }
}

/// The last `labels` dot-separated labels of `s`.
pub open spec fn spec_last_labels(s: Seq<char>, labels: nat) -> Seq<char> {
    s.skip(spec_label_suffix_start(s, labels, s.len() as int))
}

/// Whether `suffix` is one of the known suffixes of two labels under which
/// domains are registered.
pub open spec fn spec_is_two_part_tld(suffix: Seq<char>) -> bool {
    ||| suffix == "co.uk"@
    ||| suffix == "org.uk"@
    ||| suffix == "me.uk"@
    ||| suffix == "co.nz"@
    ||| suffix == "co.jp"@
    ||| suffix == "co.kr"@
    ||| suffix == "com.au"@
    ||| suffix == "net.au"@
    ||| suffix == "org.au"@
    ||| suffix == "com.br"@
    ||| suffix == "co.za"@
}

/// The registrable domain of a host that is already in lower case: an IPv4
/// address and a host of one or two labels stand for themselves; otherwise
/// the last two labels, or the last three where the last two are a known
/// suffix.
pub open spec fn spec_registrable_of_lower(host: Seq<char>) -> Seq<char> {
    if spec_is_ipv4(host) || !spec_has_three_labels(host) {
        host
    } else if spec_is_two_part_tld(spec_last_labels(host, 2)) {
        spec_last_labels(host, 3)
    } else {
        spec_last_labels(host, 2)
    }
}

/// The registrable domain of `host`.
pub open spec fn spec_registrable_domain(host: Seq<char>) -> Seq<char> {
    spec_registrable_of_lower(str_lowercase(host))
}

/// What validating source and target yields, given the two switches of the
/// configuration.
pub open spec fn spec_validate_source_target(
    require_source_target: bool,
    block_self_ping: bool,
    source: Option<Seq<char>>,
    target: Option<Seq<char>>,
) -> Option<Refusal> {
    if !require_source_target {
        None
    } else if spec_is_missing(source) {
        Some(Refusal::MissingParameter { param: "source"@ })
    } else if spec_is_missing(target) {
        Some(Refusal::MissingParameter { param: "target"@ })
    } else if !url_parses(source->0) {
        Some(Refusal::InvalidUrl { param: "source"@, url: source->0 })
    } else if !url_parses(target->0) {
        Some(Refusal::InvalidUrl { param: "target"@, url: target->0 })
    } else if !spec_is_web_url(source->0) {
        Some(Refusal::InvalidUrl { param: "source"@, url: source->0 })
    } else if !spec_is_web_url(target->0) {
        Some(Refusal::InvalidUrl { param: "target"@, url: target->0 })
    } else if block_self_ping && spec_registrable_domain(url_host(source->0)->0)
        == spec_registrable_domain(url_host(target->0)->0) {
        Some(
            Refusal::SelfPingBlocked { domain: spec_registrable_domain(url_host(source->0)->0) },
        )
    } else {
        None
    }
}

/// An optional string slice as an optional text.
pub open spec fn spec_optional_str(s: Option<&str>) -> Option<Seq<char>> {
    match s {
        Some(s) => Some(s@),
        None => None,
    }
}

fn is_octet(s: &str) -> (yes: bool)
    ensures
        yes == spec_is_octet(s@),
{
    let len: usize = s.unicode_len();
    if len < 1 || len > 3 {
        return false;
    }
    let mut value: u32 = 0;
    let mut at: usize = 0;
    while at < len
        invariant
            at <= len <= 3,
            len == s@.len(),
            spec_all_digits(s@.take(at as int)),
            value == spec_decimal_value(s@.take(at as int)),
            value <= 999,
            at == 0 ==> value == 0,
            at == 1 ==> value <= 9,
            at == 2 ==> value <= 99,
        decreases len - at,
    {
        let c: char = s.get_char(at);
        if !('0' <= c && c <= '9') {
            return false;
        }
        proof {
            crate::text::lemma_decimal_step(s@, at as int);
            assert forall|i: int| 0 <= i < at + 1 implies crate::text::spec_is_digit(
                #[trigger] s@.take(at + 1)[i],
            ) by {
                if i < at {
                    assert(s@.take(at as int)[i] == s@[i]);
                }
            }
        }
        value = value * 10 + (c as u32 - 0x30);
        at = at + 1;
    }
    assert(s@.take(len as int) =~= s@);
    if len > 1 && s.get_char(0) == '0' {
        return false;
    }
    value <= 255
}

/// Whether `s` is an IPv4 address in dotted form.
pub fn is_ipv4(s: &str) -> (yes: bool)
    ensures
        yes == spec_is_ipv4(s@),
{
    let len: usize = s.unicode_len();
    let d1: usize = find(s, '.', 0);
    if d1 >= len {
        return false;
    }
    let d2: usize = find(s, '.', d1 + 1);
    if d2 >= len {
        return false;
    }
    let d3: usize = find(s, '.', d2 + 1);
    if d3 >= len {
        return false;
    }
    if find(s, '.', d3 + 1) != len {
        return false;
    }
    is_octet(s.substring_char(0, d1)) && is_octet(s.substring_char(d1 + 1, d2)) && is_octet(
        s.substring_char(d2 + 1, d3),
    ) && is_octet(s.substring_char(d3 + 1, len))
}

fn label_suffix_start(s: &str, labels: usize) -> (start: usize)
    ensures
        start == spec_label_suffix_start(s@, labels as nat, s@.len() as int),
        start <= s@.len(),
{
    let len: usize = s.unicode_len();
    let mut end: usize = len;
    let mut left: usize = labels;
    while end > 0
        invariant
            end <= len,
            len == s@.len(),
            spec_label_suffix_start(s@, labels as nat, len as int) == spec_label_suffix_start(
                s@,
                left as nat,
                end as int,
            ),
        decreases end,
    {
        if s.get_char(end - 1) == '.' {
            if left <= 1 {
                return end;
            }
            left = left - 1;
        }
        end = end - 1;
    }
    0
}

/// Checks whether a suffix is one of the known two-label suffixes.
pub fn is_two_part_tld(suffix: &str) -> (yes: bool)
    ensures
        yes == spec_is_two_part_tld(suffix@),
{
    str_eq(suffix, "co.uk") || str_eq(suffix, "org.uk") || str_eq(suffix, "me.uk") || str_eq(
        suffix,
        "co.nz",
    ) || str_eq(suffix, "co.jp") || str_eq(suffix, "co.kr") || str_eq(suffix, "com.au") || str_eq(
        suffix,
        "net.au",
    ) || str_eq(suffix, "org.au") || str_eq(suffix, "com.br") || str_eq(suffix, "co.za")
}

/// Extracts the registrable domain from a host name. The list of suffixes
/// known here is short; it is no substitute for the Public Suffix List.
///
/// Of addresses only IPv4 in dotted form is recognised. An IPv6 host as a
/// URL holds it, in square brackets, has no dots and stands for itself all
/// the same.
pub fn extract_registrable_domain(host: &str) -> (domain: String)
    ensures
        domain@ == spec_registrable_domain(host@),
{
    let lower: String = to_lowercase(host);
    let h: &str = lower.as_str();
    if is_ipv4(h) {
        return lower;
    }
    let len: usize = h.unicode_len();
    let d1: usize = find(h, '.', 0);
    if d1 >= len || find(h, '.', d1 + 1) >= len {
        return lower;
    }
    let start2: usize = label_suffix_start(h, 2);
    let last_two: &str = h.substring_char(start2, len);
    assert(last_two@ =~= spec_last_labels(h@, 2));
    if is_two_part_tld(last_two) {
        let start3: usize = label_suffix_start(h, 3);
        let last_three: &str = h.substring_char(start3, len);
        assert(last_three@ =~= spec_last_labels(h@, 3));
        last_three.to_owned()
    } else {
        last_two.to_owned()
    }
}

fn is_web_url(parts: &UrlParts) -> (yes: bool)
    ensures
        yes == ((parts.scheme@ == "http"@ || parts.scheme@ == "https"@) && parts.host is Some),
{
    let scheme: &str = parts.scheme.as_str();
    (str_eq(scheme, "http") || str_eq(scheme, "https")) && parts.host.is_some()
}

fn is_missing(param: Option<&str>) -> (yes: bool)
    ensures
        yes == spec_is_missing(spec_optional_str(param)),
{
    match param {
        Some(text) => trim(text).unicode_len() == 0,
        None => true,
    }
}

impl WebmentionValidator {
    /// The configuration the validator was made with.
    pub closed spec fn config(&self) -> ValidationConfig {
        self.config
    }

    /// Creates a validator with the given configuration.
    pub fn new(config: ValidationConfig) -> (validator: WebmentionValidator)
        ensures
            validator.config() == config,
    {
        WebmentionValidator { config }
    }

    /// Validates the `Content-Type` header: its media type, parameters such
    /// as the character set left aside, must be one of those configured.
    pub fn validate_content_type(&self, content_type: Option<&str>) -> (result: ValidationResult)
        ensures
            result@ == spec_validate_content_type(
                spec_texts(self.config().require_content_type@),
                spec_optional_str(content_type),
            ),
    {
        let ghost expected = spec_texts(self.config.require_content_type@);
        let actual: Option<String> = match content_type {
            Some(header) => Some(to_lowercase(trim(before(header, ';')))),
            None => None,
        };
        match &actual {
            Some(media_type) => {
                let mut at: usize = 0;
                while at < self.config.require_content_type.len()
                    invariant
                        at <= self.config.require_content_type.len(),
                        expected == spec_texts(self.config.require_content_type@),
                        content_type matches Some(header) && media_type@ == spec_media_type(
                            header@,
                        ),
                        forall|i: int|
                            0 <= i < at ==> str_lowercase(#[trigger] expected[i]) != media_type@,
                    decreases self.config.require_content_type.len() - at,
                {
                    let candidate: String = to_lowercase(
                        self.config.require_content_type[at].as_str(),
                    );
                    assert(expected[at as int] == self.config.require_content_type@[at as int]@);
                    if str_eq(candidate.as_str(), media_type.as_str()) {
                        assert(str_lowercase(expected[at as int]) == media_type@);
                        return ValidationResult::Valid;
                    }
                    at = at + 1;
                }
            },
            None => {},
        }
        ValidationResult::Invalid(
            ValidationError::InvalidContentType {
                expected: clone_texts(&self.config.require_content_type),
                actual,
            },
        )
    }

    /// Validates source and target: both present, both web URLs, and, where
    /// self-pings are blocked, not on one registrable domain.
    pub fn validate_source_target(&self, source: Option<&str>, target: Option<&str>) -> (result:
        ValidationResult)
        ensures
            result@ == spec_validate_source_target(
                self.config().require_source_target,
                self.config().block_self_ping,
                spec_optional_str(source),
                spec_optional_str(target),
            ),
    {
        if !self.config.require_source_target {
            return ValidationResult::Valid;
        }
        if is_missing(source) {
            return ValidationResult::Invalid(ValidationError::MissingParameter("source"));
        }
        if is_missing(target) {
            return ValidationResult::Invalid(ValidationError::MissingParameter("target"));
        }
        let source: &str = match source {
            Some(s) => s,
            None => "",
        };
        let target: &str = match target {
            Some(t) => t,
            None => "",
        };
        let source_url: UrlParts = match parse_url(source) {
            Some(parts) => parts,
            None => {
                return ValidationResult::Invalid(
                    ValidationError::InvalidUrl { param: "source", url: source.to_owned() },
                );
            },
        };
        let target_url: UrlParts = match parse_url(target) {
            Some(parts) => parts,
            None => {
                return ValidationResult::Invalid(
                    ValidationError::InvalidUrl { param: "target", url: target.to_owned() },
                );
            },
        };
        if !is_web_url(&source_url) {
            return ValidationResult::Invalid(
                ValidationError::InvalidUrl { param: "source", url: source.to_owned() },
            );
        }
        if !is_web_url(&target_url) {
            return ValidationResult::Invalid(
                ValidationError::InvalidUrl { param: "target", url: target.to_owned() },
            );
        }
        if self.config.block_self_ping {
            match (&source_url.host, &target_url.host) {
                (Some(source_host), Some(target_host)) => {
                    let source_domain: String = extract_registrable_domain(source_host.as_str());
                    let target_domain: String = extract_registrable_domain(target_host.as_str());
                    if str_eq(source_domain.as_str(), target_domain.as_str()) {
                        return ValidationResult::Invalid(
                            ValidationError::SelfPingBlocked { domain: source_domain },
                        );
                    }
                },
                _ => {},
            }
        }
        ValidationResult::Valid
    }

    /// Validates a complete request: the content type first, then source
    /// and target.
    pub fn validate(
        &self,
        content_type: Option<&str>,
        source: Option<&str>,
        target: Option<&str>,
    ) -> (result: ValidationResult)
        ensures
            result@ == match spec_validate_content_type(
                spec_texts(self.config().require_content_type@),
                spec_optional_str(content_type),
            ) {
                Some(refusal) => Some(refusal),
                None => spec_validate_source_target(
                    self.config().require_source_target,
                    self.config().block_self_ping,
                    spec_optional_str(source),
                    spec_optional_str(target),
                ),
            },
    {
        let ct_result: ValidationResult = self.validate_content_type(content_type);
        if !ct_result.is_valid() {
            return ct_result;
        }
        self.validate_source_target(source, target)
    }
}

} // verus!
