//! DNS record types and the checks made on a record before it is stored.

use crate::codec_primitives::{blake3_digest, blake3_hash};
use crate::text::{
    append_decimal, append_signed_decimal, find, hex_lower, parse_u64, spec_decimal_text,
    spec_find, spec_hex, spec_parse_u64, spec_signed_decimal_text,
};
use vstd::utf8::encode_utf8;
use vstd::prelude::*;
use vstd::string::StrSliceExecFns;
use vstd::string::StringExecFns;

verus! {

/// The record types that can be managed.
#[derive(Debug, Clone, Copy, PartialEq, Eq, Structural)]
pub enum DNSRecordType {
    /// IPv4 address.
    A,
    /// IPv6 address.
    AAAA,
    /// Canonical name (alias).
    CNAME,
    /// Mail exchange.
    MX,
    /// Text record.
    TXT,
    /// Service locator.
    SRV,
    /// Certification authority authorization.
    CAA,
    /// DANE certificate association.
    TLSA,
    /// Name server.
    NS,
    /// Start of authority.
    SOA,
    /// Pointer (reverse DNS).
    PTR,
}

/// A DNS record as it is stored. Times are in milliseconds since the epoch.
#[derive(Debug)]
pub struct DNSRecord {
    /// Unique identifier.
    pub id: String,
    /// Fully qualified domain name.
    pub name: String,
    /// Record type.
    pub record_type: DNSRecordType,
    /// Time to live in seconds.
    pub ttl: i32,
    /// Value, in the form its type asks for.
    pub value: String,
    /// Whether DNSSEC is switched on for the record.
    pub dnssec: bool,
    /// Signature, if the record is signed.
    pub rrsig: Option<String>,
    /// Transaction that anchors the record, if it is anchored.
    pub blockchain_tx_hash: Option<String>,
    /// When the record was created.
    pub created_at: i64,
    /// When the record was last changed.
    pub updated_at: i64,
}

/// DNSSEC configuration of a zone.
#[derive(Debug)]
pub struct DNSSECZone {
    pub zone: String,
    pub enabled: bool,
    pub ksk: Option<String>,
    pub zsk: Option<String>,
    pub ds_record: Option<String>,
    pub last_rotation: Option<i64>,
}

/// What a reverse lookup found.
#[derive(Debug)]
pub struct ReverseDNSResult {
    pub ip: String,
    pub hostnames: Vec<String>,
    pub ptr_records: Vec<DNSRecord>,
}

/// Where and when the hash of a record was anchored.
#[derive(Debug)]
pub struct BlockchainProvenance {
    pub record_id: String,
    pub content_hash: String,
    pub network: String,
    pub tx_hash: String,
    pub block_number: i64,
    pub timestamp: i64,
}

/// What a caller hands in to create or update a record.
#[derive(Debug, Clone)]
pub struct DNSRecordInput {
    pub name: String,
    pub record_type: DNSRecordType,
    pub ttl: i32,
    pub value: String,
    pub dnssec: Option<bool>,
}

/// How many records of one type there are.
#[derive(Debug, Clone, Copy, PartialEq, Eq, Structural)]
pub struct RecordTypeCount {
    pub record_type: DNSRecordType,
    pub count: i32,
}

/// Counts over all records.
#[derive(Debug, Clone)]
pub struct DNSStatistics {
    /// Number of records.
    pub total_records: i32,
    /// Number of records of each type.
    pub records_by_type: Vec<RecordTypeCount>,
    /// Number of zones with DNSSEC switched on.
    pub dnssec_zones: i32,
    /// Number of records anchored on a blockchain.
    pub blockchain_anchored: i32,
}

/// Why a record was refused.
#[derive(Debug, Clone, Copy, PartialEq, Eq, Structural)]
pub enum RecordError {
    /// The name is empty.
    EmptyName,
    /// The time to live is negative.
    NegativeTtl,
    /// The value of an `A` record is not made of numbers up to 255 between
    /// dots.
    InvalidIpv4,
    /// The value of an `AAAA` record holds no colon.
    InvalidIpv6,
    /// The value is empty.
    EmptyValue,
}

/// The type code of a record type in DNS wire format.
pub open spec fn spec_type_code(record_type: DNSRecordType) -> u16 {
    match record_type {
        DNSRecordType::A => 1,
        DNSRecordType::NS => 2,
        DNSRecordType::CNAME => 5,
        DNSRecordType::SOA => 6,
        DNSRecordType::PTR => 12,
        DNSRecordType::MX => 15,
        DNSRecordType::TXT => 16,
        DNSRecordType::AAAA => 28,
        DNSRecordType::SRV => 33,
        DNSRecordType::TLSA => 52,
        DNSRecordType::CAA => 257,
    }
}

/// The position of a record type in the list of types, from zero.
pub open spec fn spec_ordinal(record_type: DNSRecordType) -> nat {
    match record_type {
        DNSRecordType::A => 0,
        DNSRecordType::AAAA => 1,
        DNSRecordType::CNAME => 2,
        DNSRecordType::MX => 3,
        DNSRecordType::TXT => 4,
        DNSRecordType::SRV => 5,
        DNSRecordType::CAA => 6,
        DNSRecordType::TLSA => 7,
        DNSRecordType::NS => 8,
        DNSRecordType::SOA => 9,
        DNSRecordType::PTR => 10,
    }
}

/// The text that is hashed for a record: name, position of the type, time
/// to live and value, with colons between them.
pub open spec fn spec_hashed_content(
    name: Seq<char>,
    record_type: DNSRecordType,
    ttl: i32,
    value: Seq<char>,
) -> Seq<char> {
    name + ":"@ + spec_decimal_text(spec_ordinal(record_type)) + ":"@ + spec_signed_decimal_text(
        ttl as int,
    ) + ":"@ + value
}

impl DNSRecordType {
    /// The position of the type in the list of types.
    pub fn ordinal(&self) -> (n: u64)
        ensures
            n == spec_ordinal(*self),
    {
        match self {
            DNSRecordType::A => 0,
            DNSRecordType::AAAA => 1,
            DNSRecordType::CNAME => 2,
            DNSRecordType::MX => 3,
            DNSRecordType::TXT => 4,
            DNSRecordType::SRV => 5,
            DNSRecordType::CAA => 6,
            DNSRecordType::TLSA => 7,
            DNSRecordType::NS => 8,
            DNSRecordType::SOA => 9,
            DNSRecordType::PTR => 10,
        }
    }
}

impl DNSRecord {
    /// Creates a record under the identifier `id` at the time `now`:
    /// unsigned, not anchored, DNSSEC off.
    pub fn new(
        id: String,
        now: i64,
        name: String,
        record_type: DNSRecordType,
        ttl: i32,
        value: String,
    ) -> (record: DNSRecord)
        ensures
            record.id == id,
            record.name == name,
            record.record_type == record_type,
            record.ttl == ttl,
            record.value == value,
            !record.dnssec,
            record.rrsig is None,
            record.blockchain_tx_hash is None,
            record.created_at == now,
            record.updated_at == now,
    {
        DNSRecord {
            id,
            name,
            record_type,
            ttl,
            value,
            dnssec: false,
            rrsig: None,
            blockchain_tx_hash: None,
            created_at: now,
            updated_at: now,
        }
    }

    /// The hash of the record's content, for anchoring: BLAKE3 in base
    /// sixteen.
    pub fn content_hash(&self) -> (hash: String)
        ensures
            hash@ == spec_hex(
                blake3_digest(
                    encode_utf8(
                        spec_hashed_content(self.name@, self.record_type, self.ttl, self.value@),
                    ),
                ),
            ),
            hash@.len() == 64,
    {
        let mut content: String = String::new();
        content.append(self.name.as_str());
        content.append(":");
        append_decimal(&mut content, self.record_type.ordinal());
        content.append(":");
        append_signed_decimal(&mut content, self.ttl as i64);
        content.append(":");
        content.append(self.value.as_str());
        assert(content@ =~= spec_hashed_content(
            self.name@,
            self.record_type,
            self.ttl,
            self.value@,
        ));
        let digest: Vec<u8> = blake3_hash(content.as_str().as_bytes());
        hex_lower(digest.as_slice())
    }
}

impl DNSRecordType {
    /// Converts to the type code of DNS wire format.
    pub fn to_type_code(&self) -> (code: u16)
        ensures
            code == spec_type_code(*self),
    {
        match self {
            DNSRecordType::A => 1,
            DNSRecordType::NS => 2,
            DNSRecordType::CNAME => 5,
            DNSRecordType::SOA => 6,
            DNSRecordType::PTR => 12,
            DNSRecordType::MX => 15,
            DNSRecordType::TXT => 16,
            DNSRecordType::AAAA => 28,
            DNSRecordType::SRV => 33,
            DNSRecordType::CAA => 257,
            DNSRecordType::TLSA => 52,
        }
    }
}

/// Whether `label` writes a number from 0 to 255.
pub open spec fn spec_is_byte(label: Seq<char>) -> bool {
    spec_parse_u64(label) matches Some(n) && n <= 255
}

/// Whether every dot-separated part of `s` from position `from` on writes a
/// number from 0 to 255.
pub open spec fn spec_all_parts_bytes(s: Seq<char>, from: int) -> bool
    decreases s.len() - from,
{
    if from < 0 || from > s.len() {
        false
    } else {
        let dot = spec_find(s, '.', from);
        from <= dot && spec_is_byte(s.subrange(from, dot)) && (dot >= s.len()
            || spec_all_parts_bytes(s, dot + 1))
    }
}

/// What is wrong with a record, if anything. The name is looked at first,
/// then the time to live, then the value as its type asks.
pub open spec fn spec_record_defect(
    name: Seq<char>,
    record_type: DNSRecordType,
    ttl: i32,
    value: Seq<char>,
) -> Option<RecordError> {
    if name.len() == 0 {
        Some(RecordError::EmptyName)
    } else if ttl < 0 {
        Some(RecordError::NegativeTtl)
    } else {
        match record_type {
            DNSRecordType::A => if spec_all_parts_bytes(value, 0) {
                None
            } else {
                Some(RecordError::InvalidIpv4)
            },
            DNSRecordType::AAAA => if spec_find(value, ':', 0) < value.len() {
                None
            } else {
                Some(RecordError::InvalidIpv6)
            },
            _ => if value.len() == 0 {
                Some(RecordError::EmptyValue)
            } else {
                None
            },
        }
    }
}

fn all_parts_bytes(s: &str) -> (yes: bool)
    ensures
        yes == spec_all_parts_bytes(s@, 0),
{
    let len: usize = s.unicode_len();
    let mut from: usize = 0;
    loop
        invariant
            from <= len,
            len == s@.len(),
            spec_all_parts_bytes(s@, 0) == spec_all_parts_bytes(s@, from as int),
        decreases len - from,
    {
        let dot: usize = find(s, '.', from);
        let ok: bool = match parse_u64(s.substring_char(from, dot)) {
            Some(n) => n <= 255,
            None => false,
        };
        if !ok {
            return false;
        }
        if dot >= len {
            return true;
        }
        from = dot + 1;
    }
}

/// Checks a record before it is stored.
pub fn validate_dns_record(input: &DNSRecordInput) -> (result: Result<(), RecordError>)
    ensures
        match result {
            Ok(()) => spec_record_defect(input.name@, input.record_type, input.ttl, input.value@)
                is None,
            Err(e) => spec_record_defect(input.name@, input.record_type, input.ttl, input.value@)
                == Some(e),
        },
{
    if input.name.as_str().unicode_len() == 0 {
        return Err(RecordError::EmptyName);
    }
    if input.ttl < 0 {
        return Err(RecordError::NegativeTtl);
    }
    let value: &str = input.value.as_str();
    match input.record_type {
        DNSRecordType::A => {
            if !all_parts_bytes(value) {
                return Err(RecordError::InvalidIpv4);
            }
        },
        DNSRecordType::AAAA => {
            if find(value, ':', 0) >= value.unicode_len() {
                return Err(RecordError::InvalidIpv6);
            }
        },
        _ => {
            if value.unicode_len() == 0 {
                return Err(RecordError::EmptyValue);
            }
        },
    }
    Ok(())
}

/// `s` with every colon replaced by a dot.
pub open spec fn spec_colons_to_dots(s: Seq<char>) -> Seq<char> {
    s.map_values(
        |c: char|
            if c == ':' {
                '.'
            } else {
                c
            },
    )
}

/// The name under which the reverse record of an address is looked up, if
/// the address has a form for which one can be made: anything with a colon
/// is taken as IPv6; anything else must be four parts between three dots.
pub open spec fn spec_reverse_name(ip: Seq<char>) -> Option<Seq<char>> {
    if spec_find(ip, ':', 0) < ip.len() {
        Some(spec_colons_to_dots(ip) + ".ip6.arpa"@)
    } else {
        let d1 = spec_find(ip, '.', 0);
        let d2 = spec_find(ip, '.', d1 + 1);
        let d3 = spec_find(ip, '.', d2 + 1);
        if d1 < ip.len() && d2 < ip.len() && d3 < ip.len() && spec_find(ip, '.', d3 + 1)
            == ip.len() {
            Some(
                ip.subrange(d3 + 1, ip.len() as int) + "."@ + ip.subrange(d2 + 1, d3) + "."@
                    + ip.subrange(d1 + 1, d2) + "."@ + ip.subrange(0, d1) + ".in-addr.arpa"@,
            )
        } else {
            None
        }
    }
}

/// Converts an address to the name of its reverse record.
pub fn ip_to_reverse_name(ip: &str) -> (name: Option<String>)
    ensures
        match name {
            Some(n) => spec_reverse_name(ip@) == Some(n@),
            None => spec_reverse_name(ip@) is None,
        },
{
    let len: usize = ip.unicode_len();
    if find(ip, ':', 0) < len {
        let mut name: String = String::new();
        let mut at: usize = 0;
        while at < len
            invariant
                at <= len,
                len == ip@.len(),
                name@ == spec_colons_to_dots(ip@.take(at as int)),
            decreases len - at,
        {
            let ghost before = name@;
            if ip.get_char(at) == ':' {
                proof {
                    reveal_strlit(".");
                }
                name.append(".");
                assert(name@ =~= before + seq!['.']);
            } else {
                name.append(ip.substring_char(at, at + 1));
                assert(name@ =~= before + seq![ip@[at as int]]);
            }
            assert(name@ =~= spec_colons_to_dots(ip@.take(at + 1)));
            at = at + 1;
        }
        assert(ip@.take(len as int) =~= ip@);
        name.append(".ip6.arpa");
        return Some(name);
    }
    let d1: usize = find(ip, '.', 0);
    if d1 >= len {
        return None;
    }
    let d2: usize = find(ip, '.', d1 + 1);
    if d2 >= len {
        return None;
    }
    let d3: usize = find(ip, '.', d2 + 1);
    if d3 >= len {
        return None;
    }
    if find(ip, '.', d3 + 1) != len {
        return None;
    }
    let mut name: String = String::new();
    name.append(ip.substring_char(d3 + 1, len));
    name.append(".");
    name.append(ip.substring_char(d2 + 1, d3));
    name.append(".");
    name.append(ip.substring_char(d1 + 1, d2));
    name.append(".");
    name.append(ip.substring_char(0, d1));
    name.append(".in-addr.arpa");
    assert(name@ =~= spec_reverse_name(ip@)->0);
    Some(name)
}

} // verus!
