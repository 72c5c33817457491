//! What the API answers once the stores have been asked: the values it
//! builds for queries and mutations. Fetching and storing is the caller's
//! part; so are the clock and fresh identifiers.

use crate::models::{
    spec_record_defect, validate_dns_record, BlockchainProvenance, DNSRecord, DNSRecordInput,
    DNSSECZone, DNSStatistics, RecordError, RecordTypeCount, ReverseDNSResult,
};
use crate::policy::{
    copy_proposal, spec_proposals, MutationProposal, ProposalStatus, ProposalView,
};
use crate::text::spec_texts;
use vstd::prelude::*;

verus! {

/// The root of all queries.
pub struct QueryRoot;

/// The root of all mutations.
pub struct MutationRoot;

/// Why a mutation was refused before anything was looked up.
#[derive(Debug, Clone, Copy, PartialEq, Eq, Structural)]
pub enum ApiError {
    /// The request carries no identity.
    AuthenticationRequired,
}

/// The values of a list of records, in order.
pub open spec fn spec_values(records: Seq<DNSRecord>) -> Seq<Seq<char>> {
    records.map_values(|r: DNSRecord| r.value@)
}

/// The proposals of `list` that have the status `status`, in order.
pub open spec fn spec_with_status(list: Seq<ProposalView>, status: ProposalStatus) -> Seq<ProposalView>
    decreases list.len(),
{
    if list.len() == 0 {
        Seq::empty()
    } else if list.last().status == status {
        spec_with_status(list.drop_last(), status).push(list.last())
    } else {
        spec_with_status(list.drop_last(), status)
    }
}

impl QueryRoot {
    /// The answer of the health check.
    pub fn health(&self) -> (answer: String)
        ensures
            answer@ == "OK"@,
    {
        "OK".to_owned()
    }

    /// The result of a reverse lookup from the pointer records found: the
    /// host names are their values.
    pub fn reverse_dns(&self, ip: String, ptr_records: Vec<DNSRecord>) -> (result: ReverseDNSResult)
        ensures
            result.ip == ip,
            result.ptr_records == ptr_records,
            spec_texts(result.hostnames@) == spec_values(ptr_records@),
    {
        let mut hostnames: Vec<String> = Vec::new();
        let mut at: usize = 0;
        while at < ptr_records.len()
            invariant
                at <= ptr_records.len(),
                hostnames@.len() == at,
                forall|i: int| 0 <= i < at ==> hostnames@[i]@ == ptr_records@[i].value@,
            decreases ptr_records.len() - at,
        {
            hostnames.push(ptr_records[at].value.clone());
            at = at + 1;
        }
        assert(spec_texts(hostnames@) =~= spec_values(ptr_records@));
        ReverseDNSResult { ip, hostnames, ptr_records }
    }

    /// The statistics from the four counts.
    pub fn statistics(
        &self,
        total_records: i32,
        records_by_type: Vec<RecordTypeCount>,
        dnssec_zones: i32,
        blockchain_anchored: i32,
    ) -> (stats: DNSStatistics)
        ensures
            stats.total_records == total_records,
            stats.records_by_type == records_by_type,
            stats.dnssec_zones == dnssec_zones,
            stats.blockchain_anchored == blockchain_anchored,
    {
        DNSStatistics { total_records, records_by_type, dnssec_zones, blockchain_anchored }
    }

    /// The proposals to show: all of them, or those with the status asked
    /// for.
    pub fn proposals(&self, all: Vec<MutationProposal>, status: Option<ProposalStatus>) -> (shown:
        Vec<MutationProposal>)
        ensures
            spec_proposals(shown@) == match status {
                Some(wanted) => spec_with_status(spec_proposals(all@), wanted),
                None => spec_proposals(all@),
            },
    {
        let wanted: ProposalStatus = match status {
            Some(wanted) => wanted,
            None => {
                return all;
            },
        };
        let ghost views = spec_proposals(all@);
        let mut shown: Vec<MutationProposal> = Vec::new();
        let mut at: usize = 0;
        while at < all.len()
            invariant
                at <= all.len(),
                views == spec_proposals(all@),
                spec_proposals(shown@) == spec_with_status(views.take(at as int), wanted),
            decreases all.len() - at,
        {
            let ghost before = spec_proposals(shown@);
            proof {
                assert(views.take(at + 1).drop_last() =~= views.take(at as int));
                assert(views.take(at + 1).last() == all@[at as int]@);
            }
            if all[at].status == wanted {
                shown.push(copy_proposal(&all[at]));
                assert(spec_proposals(shown@) =~= before.push(all@[at as int]@));
            }
            at = at + 1;
        }
        assert(views.take(at as int) =~= views);
        shown
    }
}

impl MutationRoot {
    /// The identity a mutation is made under. A request without one is
    /// refused.
    pub fn require_identity(&self, identity: Option<String>) -> (result: Result<String, ApiError>)
        ensures
            match result {
                Ok(id) => identity == Some(id),
                Err(e) => identity is None && e == ApiError::AuthenticationRequired,
            },
    {
        match identity {
            Some(id) => Ok(id),
            None => Err(ApiError::AuthenticationRequired),
        }
    }

    /// The record to store for a new input: the input is validated, and the
    /// record made under `id` at `now` with DNSSEC as the input asks.
    pub fn create_dns_record(&self, input: DNSRecordInput, id: String, now: i64) -> (result: Result<
        DNSRecord,
        RecordError,
    >)
        ensures
            match result {
                Ok(record) => {
                    &&& spec_record_defect(input.name@, input.record_type, input.ttl, input.value@)
                        is None
                    &&& record.id == id
                    &&& record.name == input.name
                    &&& record.record_type == input.record_type
                    &&& record.ttl == input.ttl
                    &&& record.value == input.value
                    &&& record.dnssec == (input.dnssec == Some(true))
                    &&& record.rrsig is None
                    &&& record.blockchain_tx_hash is None
                    &&& record.created_at == now
                    &&& record.updated_at == now
                },
                Err(e) => spec_record_defect(
                    input.name@,
                    input.record_type,
                    input.ttl,
                    input.value@,
                ) == Some(e),
            },
    {
        match validate_dns_record(&input) {
            Ok(()) => {},
            Err(e) => {
                return Err(e);
            },
        }
        let dnssec: Option<bool> = input.dnssec;
        let mut record: DNSRecord = DNSRecord::new(
            id,
            now,
            input.name,
            input.record_type,
            input.ttl,
            input.value,
        );
        match dnssec {
            Some(on) => {
                record.dnssec = on;
            },
            None => {},
        }
        Ok(record)
    }

    /// The record to store for an update: the input is validated and takes
    /// the place of name, type, time to live and value; DNSSEC changes only
    /// if the input says so; the time of change is `now`.
    pub fn update_dns_record(&self, record: DNSRecord, input: DNSRecordInput, now: i64) -> (result:
        Result<DNSRecord, RecordError>)
        ensures
            match result {
                Ok(updated) => {
                    &&& spec_record_defect(input.name@, input.record_type, input.ttl, input.value@)
                        is None
                    &&& updated.id == record.id
                    &&& updated.name == input.name
                    &&& updated.record_type == input.record_type
                    &&& updated.ttl == input.ttl
                    &&& updated.value == input.value
                    &&& updated.dnssec == match input.dnssec {
                        Some(on) => on,
                        None => record.dnssec,
                    }
                    &&& updated.rrsig == record.rrsig
                    &&& updated.blockchain_tx_hash == record.blockchain_tx_hash
                    &&& updated.created_at == record.created_at
                    &&& updated.updated_at == now
                },
                Err(e) => spec_record_defect(
                    input.name@,
                    input.record_type,
                    input.ttl,
                    input.value@,
                ) == Some(e),
            },
    {
        match validate_dns_record(&input) {
            Ok(()) => {},
            Err(e) => {
                return Err(e);
            },
        }
        let dnssec: bool = match input.dnssec {
            Some(on) => on,
            None => record.dnssec,
        };
        Ok(
            DNSRecord {
                id: record.id,
                name: input.name,
                record_type: input.record_type,
                ttl: input.ttl,
                value: input.value,
                dnssec,
                rrsig: record.rrsig,
                blockchain_tx_hash: record.blockchain_tx_hash,
                created_at: record.created_at,
                updated_at: now,
            },
        )
    }

    /// The zone to store once keys were generated for it: DNSSEC on, the
    /// keys and the `DS` record in place, rotated at `now`.
    pub fn enable_dnssec(&self, zone: String, keys: (String, String, String), now: i64) -> (result:
        DNSSECZone)
        ensures
            result.zone == zone,
            result.enabled,
            result.ksk == Some(keys.0),
            result.zsk == Some(keys.1),
            result.ds_record == Some(keys.2),
            result.last_rotation == Some(now),
    {
        DNSSECZone {
            zone,
            enabled: true,
            ksk: Some(keys.0),
            zsk: Some(keys.1),
            ds_record: Some(keys.2),
            last_rotation: Some(now),
        }
    }

    /// The zone to store once its keys were rotated: the new keys and `DS`
    /// record in place, rotated at `now`, all else as it was.
    pub fn rotate_dnssec_keys(&self, zone: DNSSECZone, keys: (String, String, String), now: i64) -> (result:
        DNSSECZone)
        ensures
            result.zone == zone.zone,
            result.enabled == zone.enabled,
            result.ksk == Some(keys.0),
            result.zsk == Some(keys.1),
            result.ds_record == Some(keys.2),
            result.last_rotation == Some(now),
    {
        DNSSECZone {
            zone: zone.zone,
            enabled: zone.enabled,
            ksk: Some(keys.0),
            zsk: Some(keys.1),
            ds_record: Some(keys.2),
            last_rotation: Some(now),
        }
    }

    /// The provenance to store once a record's hash was anchored.
    pub fn anchor_to_blockchain(
        &self,
        record_id: String,
        content_hash: String,
        network: String,
        tx_hash: String,
        block_number: i64,
        now: i64,
    ) -> (provenance: BlockchainProvenance)
        ensures
            provenance.record_id == record_id,
            provenance.content_hash == content_hash,
            provenance.network == network,
            provenance.tx_hash == tx_hash,
            provenance.block_number == block_number,
            provenance.timestamp == now,
    {
        BlockchainProvenance {
            record_id,
            content_hash,
            network,
            tx_hash,
            block_number,
            timestamp: now,
        }
    }
}

} // verus!
