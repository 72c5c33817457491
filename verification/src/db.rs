//! The query texts that go to the record store. Running them is the
//! caller's part.

use crate::models::DNSRecordType;
use crate::text::{append_signed_decimal, spec_signed_decimal_text, str_eq};
use vstd::prelude::*;
use vstd::string::StringExecFns;

verus! {

/// Counts all records.
pub const COUNT_RECORDS: &'static str = "SELECT count() FROM dns_records GROUP ALL";

/// Counts the records of each type.
pub const COUNT_RECORDS_BY_TYPE: &'static str = "SELECT type, count() FROM dns_records GROUP BY type";

/// Counts the zones with DNSSEC switched on.
pub const COUNT_DNSSEC_ZONES: &'static str =
    "SELECT count() FROM dnssec_zones WHERE enabled = true GROUP ALL";

/// Counts the records that are anchored.
pub const COUNT_ANCHORED_RECORDS: &'static str =
    "SELECT count() FROM dns_records WHERE blockchain_tx_hash IS NOT NULL GROUP ALL";

/// Selects the configuration of the zone bound to `$zone`.
pub const SELECT_ZONE: &'static str = "SELECT * FROM dnssec_zones WHERE zone = $zone";

/// Selects the provenance of the record bound to `$record_id`.
pub const SELECT_PROVENANCE: &'static str =
    "SELECT * FROM blockchain_provenance WHERE record_id = $record_id";

/// The name of a record type as it is stored.
pub open spec fn spec_stored_name(record_type: DNSRecordType) -> Seq<char> {
    match record_type {
        DNSRecordType::A => "A"@,
        DNSRecordType::AAAA => "AAAA"@,
        DNSRecordType::CNAME => "CNAME"@,
        DNSRecordType::MX => "MX"@,
        DNSRecordType::TXT => "TXT"@,
        DNSRecordType::SRV => "SRV"@,
        DNSRecordType::CAA => "CAA"@,
        DNSRecordType::TLSA => "TLSA"@,
        DNSRecordType::NS => "NS"@,
        DNSRecordType::SOA => "SOA"@,
        DNSRecordType::PTR => "PTR"@,
    }
}

/// The conditions of a query for records: on the name, on the type, on
/// both, or none.
pub open spec fn spec_conditions(name: Option<Seq<char>>, record_type: Option<DNSRecordType>) -> Seq<
    char,
> {
    match (name, record_type) {
        (Some(n), Some(t)) => " WHERE name = '"@ + n + "' AND type = '"@ + spec_stored_name(t) + "'"@,
        (Some(n), None) => " WHERE name = '"@ + n + "'"@,
        (None, Some(t)) => " WHERE type = '"@ + spec_stored_name(t) + "'"@,
        (None, None) => Seq::empty(),
    }
}

/// The text of a query for records with the given name and type, at most
/// `limit` of them from the `offset`-th on. The name is put into the text as
/// it stands.
pub open spec fn spec_records_query(
    name: Option<Seq<char>>,
    record_type: Option<DNSRecordType>,
    limit: i32,
    offset: i32,
) -> Seq<char> {
    "SELECT * FROM dns_records"@ + spec_conditions(name, record_type) + " LIMIT "@
        + spec_signed_decimal_text(limit as int) + " START "@ + spec_signed_decimal_text(
        offset as int,
    )
}

/// The name of a record type as it is stored.
pub fn stored_name(record_type: DNSRecordType) -> (name: &'static str)
    ensures
        name@ == spec_stored_name(record_type),
{
    match record_type {
        DNSRecordType::A => "A",
        DNSRecordType::AAAA => "AAAA",
        DNSRecordType::CNAME => "CNAME",
        DNSRecordType::MX => "MX",
        DNSRecordType::TXT => "TXT",
        DNSRecordType::SRV => "SRV",
        DNSRecordType::CAA => "CAA",
        DNSRecordType::TLSA => "TLSA",
        DNSRecordType::NS => "NS",
        DNSRecordType::SOA => "SOA",
        DNSRecordType::PTR => "PTR",
    }
}

/// Whether the store is kept in memory rather than under a path.
pub fn is_memory_store(path: &str) -> (memory: bool)
    ensures
        memory == (path@ == "memory"@),
{
    str_eq(path, "memory")
}

/// Builds the text of a query for records.
pub fn records_query(name: Option<&str>, record_type: Option<DNSRecordType>, limit: i32, offset: i32) -> (query:
    String)
    ensures
        query@ == spec_records_query(
            crate::validator::spec_optional_str(name),
            record_type,
            limit,
            offset,
        ),
{
    let mut query: String = String::new();
    query.append("SELECT * FROM dns_records");
    match (name, record_type) {
        (Some(n), Some(t)) => {
            query.append(" WHERE name = '");
            query.append(n);
            query.append("' AND type = '");
            query.append(stored_name(t));
            query.append("'");
        },
        (Some(n), None) => {
            query.append(" WHERE name = '");
            query.append(n);
            query.append("'");
        },
        (None, Some(t)) => {
            query.append(" WHERE type = '");
            query.append(stored_name(t));
            query.append("'");
        },
        (None, None) => {},
    }
    assert(query@ =~= "SELECT * FROM dns_records"@ + spec_conditions(
        crate::validator::spec_optional_str(name),
        record_type,
    ));
    query.append(" LIMIT ");
    append_signed_decimal(&mut query, limit as i64);
    query.append(" START ");
    append_signed_decimal(&mut query, offset as i64);
    assert(query@ =~= spec_records_query(
        crate::validator::spec_optional_str(name),
        record_type,
        limit,
        offset,
    ));
    query
}

/// A count as the store reports it: nothing counts as zero.
pub fn count_or_zero(count: Option<i32>) -> (n: i32)
    ensures
        n == match count {
            Some(c) => c,
            None => 0,
        },
{
    match count {
        Some(c) => c,
        None => 0,
    }
}

} // verus!
