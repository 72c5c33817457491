//! Parsers and encoders that the library takes from outside crates.
//!
//! Each function hands its argument to the outside crate and nothing here is
//! proved. What a decoder makes of a given input is given a name; no contract
//! says what that is for any particular input.

use base64::Engine;
use vstd::prelude::*;

verus! {

/// Largest input that is handed to the Base64 encoder.
pub const BASE64_MAX_INPUT: usize = 0x1000_0000;

/// Whether `wire` parses as a DNS message in wire format.
pub uninterp spec fn dns_message_well_formed(wire: Seq<u8>) -> bool;

/// The standard, padded Base64 text of `bytes`.
pub uninterp spec fn base64_text(bytes: Seq<u8>) -> Seq<char>;

/// The bytes that `text` stands for in standard, padded Base64, if it is
/// well-formed.
pub uninterp spec fn base64_bytes(text: Seq<char>) -> Option<Seq<u8>>;

/// `text` in lower case, by Unicode's rules for whole strings.
pub uninterp spec fn str_lowercase(text: Seq<char>) -> Seq<char>;

/// Whether `text` parses as a URL.
pub uninterp spec fn url_parses(text: Seq<char>) -> bool;

/// The scheme of the URL that `text` parses as, in lower case as the parser
/// reports it.
pub uninterp spec fn url_scheme(text: Seq<char>) -> Seq<char>;

/// The host of the URL that `text` parses as, as the parser reports it, if
/// the URL has one.
pub uninterp spec fn url_host(text: Seq<char>) -> Option<Seq<char>>;

/// What the logic reads of a parsed URL.
pub struct UrlParts {
    /// The scheme, such as `https`.
    pub scheme: String,
    /// The host as text, if the URL has one.
    pub host: Option<String>,
}

impl UrlParts {
    /// The host as a sequence of characters, if there is one.
    pub open spec fn host_text(&self) -> Option<Seq<char>> {
        match self.host {
            Some(h) => Some(h@),
            None => None,
        }
    }
}

/// A list of texts as `Debug` formatting writes it: in square brackets, each
/// text in double quotes with what needs it escaped.
pub uninterp spec fn debug_list_text(list: Seq<Seq<char>>) -> Seq<char>;

/// An optional text as `Debug` formatting writes it: `None`, or `Some` and
/// the text in double quotes with what needs it escaped.
pub uninterp spec fn debug_option_text(text: Option<Seq<char>>) -> Seq<char>;

/// The URL that `text` parses as, written out again without its query;
/// nothing if `text` is no URL.
pub uninterp spec fn url_without_query(text: Seq<char>) -> Option<Seq<char>>;

/// The URL that `text` parses as, written out again without its fragment;
/// nothing if `text` is no URL.
pub uninterp spec fn url_without_fragment(text: Seq<char>) -> Option<Seq<char>>;

/// The URL that `text` parses as, written out again with `host` in place of
/// its host; nothing if `text` is no URL or the URL does not take the host.
pub uninterp spec fn url_with_host(text: Seq<char>, host: Seq<char>) -> Option<Seq<char>>;

/// Formats a list of strings with `{:?}`.
///
/// Claimed: the result depends on the texts alone.
#[verifier::external_body]
pub(crate) fn debug_list(list: &Vec<String>) -> (text: String)
    ensures
        text@ == debug_list_text(list@.map_values(|s: String| s@)),
{
    format!("{:?}", list)
}

/// Formats an optional string with `{:?}`.
///
/// Claimed: the result depends on the text alone.
#[verifier::external_body]
pub(crate) fn debug_option(value: &Option<String>) -> (text: String)
    ensures
        text@ == debug_option_text(
            match *value {
                Some(s) => Some(s@),
                None => None,
            },
        ),
{
    format!("{:?}", value)
}

/// Calls `url::Url::set_query` with nothing on the URL that `text` parses
/// as, and writes the URL out.
///
/// Claimed: the result depends on the text alone.
#[verifier::external_body]
pub(crate) fn clear_url_query(text: &str) -> (cleared: Option<String>)
    ensures
        match cleared {
            Some(c) => url_without_query(text@) == Some(c@),
            None => url_without_query(text@) is None,
        },
{
    let mut url = url::Url::parse(text).ok()?;
    url.set_query(None);
    Some(url.to_string())
}

/// Calls `url::Url::set_fragment` with nothing on the URL that `text` parses
/// as, and writes the URL out.
///
/// Claimed: the result depends on the text alone.
#[verifier::external_body]
pub(crate) fn clear_url_fragment(text: &str) -> (cleared: Option<String>)
    ensures
        match cleared {
            Some(c) => url_without_fragment(text@) == Some(c@),
            None => url_without_fragment(text@) is None,
        },
{
    let mut url = url::Url::parse(text).ok()?;
    url.set_fragment(None);
    Some(url.to_string())
}

/// Calls `url::Url::set_host` with `host` on the URL that `text` parses as,
/// and writes the URL out.
///
/// Claimed: the result depends on the two texts alone.
#[verifier::external_body]
pub(crate) fn set_url_host(text: &str, host: &str) -> (changed: Option<String>)
    ensures
        match changed {
            Some(c) => url_with_host(text@, host@) == Some(c@),
            None => url_with_host(text@, host@) is None,
        },
{
    let mut url = url::Url::parse(text).ok()?;
    url.set_host(Some(host)).ok()?;
    Some(url.to_string())
}

/// The 32-byte BLAKE3 hash of `data`.
pub uninterp spec fn blake3_digest(data: Seq<u8>) -> Seq<u8>;

/// Calls `blake3::hash`.
///
/// Claimed: the hash is 32 bytes that depend on the data alone.
#[verifier::external_body]
pub(crate) fn blake3_hash(data: &[u8]) -> (digest: Vec<u8>)
    ensures
        digest@ == blake3_digest(data@),
        digest@.len() == 32,
{
    blake3::hash(data).as_bytes().to_vec()
}

/// Calls `str::to_lowercase`.
///
/// Claimed: the result depends on the text alone.
#[verifier::external_body]
pub(crate) fn to_lowercase(text: &str) -> (lower: String)
    ensures
        lower@ == str_lowercase(text@),
{
    text.to_lowercase()
}

/// Calls `url::Url::parse` and, where it succeeds, `scheme` and `host_str`
/// on the result.
///
/// Claimed: whether the text parses, and the scheme and host then reported,
/// depend on the text alone.
#[verifier::external_body]
pub(crate) fn parse_url(text: &str) -> (parts: Option<UrlParts>)
    ensures
        parts.is_some() == url_parses(text@),
        parts matches Some(p) ==> (p.scheme@ == url_scheme(text@) && p.host_text() == url_host(
            text@,
        )),
{
    let url = url::Url::parse(text).ok()?;
    Some(UrlParts { scheme: url.scheme().to_string(), host: url.host_str().map(|h| h.to_string()) })
}

/// Calls `hickory_proto::op::Message::from_bytes` and reports whether it
/// accepted `wire`.
///
/// Claimed: the answer depends on the bytes alone.
#[verifier::external_body]
pub(crate) fn dns_message_parses(wire: &[u8]) -> (ok: bool)
    ensures
        ok == dns_message_well_formed(wire@),
{
    <hickory_proto::op::Message as hickory_proto::serialize::binary::BinDecodable>::from_bytes(
        wire,
    ).is_ok()
}

/// Calls `encode` on `base64::engine::general_purpose::STANDARD`.
///
/// Claimed: the text depends on the bytes alone, and decoding it gives the
/// bytes back.
#[verifier::external_body]
pub(crate) fn base64_encode(bytes: &[u8]) -> (text: String)
    requires
        bytes@.len() <= BASE64_MAX_INPUT,
    ensures
        text@ == base64_text(bytes@),
        base64_bytes(text@) == Some(bytes@),
{
    base64::engine::general_purpose::STANDARD.encode(bytes)
}

/// Calls `decode` on `base64::engine::general_purpose::STANDARD`.
///
/// Claimed: the result depends on the text alone.
#[verifier::external_body]
pub(crate) fn base64_decode(text: &str) -> (bytes: Option<Vec<u8>>)
    ensures
        match bytes {
            Some(b) => base64_bytes(text@) == Some(b@),
            None => base64_bytes(text@) is None,
        },
{
    base64::engine::general_purpose::STANDARD.decode(text).ok()
}

} // verus!
