use odns::blockchain::{anchor_data, network_from_name, stored_hash_matches, Network};
use odns::consent::{
    consent_check_url, consent_from_response, consent_url, health_url, record_from_response,
    require_dns_consent, ConsentError, ConsentRecord,
};
use odns::models::{DNSRecord, DNSRecordInput, DNSRecordType, DNSSECZone, RecordError, RecordTypeCount};
use odns::resolvers::{MutationRoot, QueryRoot};

fn input(value: &str, dnssec: Option<bool>) -> DNSRecordInput {
    DNSRecordInput {
        name: "example.com".to_string(),
        record_type: DNSRecordType::A,
        ttl: 300,
        value: value.to_string(),
        dnssec,
    }
}

#[test]
fn consent_answers() {
    assert_eq!(consent_from_response(200, Some(true)), Ok(true));
    assert_eq!(consent_from_response(200, Some(false)), Ok(false));
    assert_eq!(consent_from_response(204, None), Ok(false));
    assert_eq!(consent_from_response(299, Some(true)), Ok(true));
    assert_eq!(consent_from_response(404, Some(true)), Ok(false));
    assert_eq!(consent_from_response(404, None), Ok(false));
    assert_eq!(consent_from_response(500, Some(true)), Err(ConsentError::Api { status: 500 }));
    assert_eq!(consent_from_response(199, None), Err(ConsentError::Api { status: 199 }));
    assert_eq!(consent_from_response(300, None), Err(ConsentError::Api { status: 300 }));
    assert_eq!(require_dns_consent(true), Ok(()));
    assert_eq!(require_dns_consent(false), Err(ConsentError::NotConsented));
}

#[test]
fn consent_records() {
    let record = || ConsentRecord {
        identity: "identity:alice".to_string(),
        telemetry: "off".to_string(),
        indexing: "on".to_string(),
        webmentions: "on".to_string(),
        dns_operations: "on".to_string(),
        timestamp: "2026-01-01T00:00:00Z".to_string(),
        source: "user".to_string(),
    };
    let found = record_from_response(200, Some(record())).unwrap().unwrap();
    assert_eq!(found.dns_operations, "on");
    assert!(record_from_response(404, Some(record())).unwrap().is_none());
    assert!(record_from_response(200, None).unwrap().is_none());
    assert!(matches!(
        record_from_response(503, Some(record())),
        Err(ConsentError::Api { status: 503 })
    ));
}

#[test]
fn consent_addresses() {
    assert_eq!(
        consent_check_url("http://localhost:8082", "identity%3Aalice"),
        "http://localhost:8082/consent/identity%3Aalice/check"
    );
    assert_eq!(
        consent_url("http://localhost:8082", "identity%3Aalice"),
        "http://localhost:8082/consent/identity%3Aalice"
    );
    assert_eq!(health_url("http://localhost:8082"), "http://localhost:8082/health");
}

#[test]
fn networks() {
    assert_eq!(network_from_name("ethereum"), Some(Network::Ethereum));
    assert_eq!(network_from_name("sepolia"), Some(Network::Sepolia));
    assert_eq!(network_from_name("polygon"), Some(Network::Polygon));
    assert_eq!(network_from_name("polygon-amoy"), Some(Network::PolygonAmoy));
    assert_eq!(network_from_name("unsupported"), None);
    assert_eq!(network_from_name("Sepolia"), None);
    assert_eq!(Network::Sepolia.rpc_url_variable(), "SEPOLIA_RPC_URL");
    assert_eq!(Network::Sepolia.default_rpc_url(), "https://rpc.sepolia.org");
    assert_eq!(Network::Ethereum.default_rpc_url(), "https://eth.llamarpc.com");
    assert_eq!(Network::Polygon.rpc_url_variable(), "POLYGON_RPC_URL");
    assert_eq!(Network::PolygonAmoy.default_rpc_url(), "https://rpc-amoy.polygon.technology");
}

#[test]
fn anchored_data() {
    assert_eq!(anchor_data("abcdef"), "0x444e533aabcdef");
    assert_eq!(anchor_data(""), "0x444e533a");
    assert!(stored_hash_matches("444e533aabcdef", "abcdef"));
    assert!(!stored_hash_matches("444e533aabcdef", "abcdee"));
    assert!(!stored_hash_matches("444e533a", ""));
    assert!(!stored_hash_matches("", ""));
    assert!(stored_hash_matches("00000000ab", "ab"));
}

#[test]
fn created_records() {
    let root = MutationRoot;
    let record = root.create_dns_record(input("192.0.2.1", Some(true)), "id".to_string(), 5).unwrap();
    assert!(record.dnssec);
    assert_eq!(record.id, "id");
    assert_eq!(record.created_at, 5);
    let record = root.create_dns_record(input("192.0.2.1", None), "id".to_string(), 5).unwrap();
    assert!(!record.dnssec);
    let record = root.create_dns_record(input("192.0.2.1", Some(false)), "id".to_string(), 5).unwrap();
    assert!(!record.dnssec);
    assert_eq!(
        root.create_dns_record(input("nope", None), "id".to_string(), 5).unwrap_err(),
        RecordError::InvalidIpv4
    );
}

#[test]
fn updated_records() {
    let root = MutationRoot;
    let mut stored = DNSRecord::new(
        "id".to_string(),
        10,
        "old.example.com".to_string(),
        DNSRecordType::TXT,
        60,
        "old".to_string(),
    );
    stored.dnssec = true;
    stored.rrsig = Some("sig".to_string());
    let updated = root.update_dns_record(stored, input("192.0.2.7", None), 20).unwrap();
    assert_eq!(updated.id, "id");
    assert_eq!(updated.name, "example.com");
    assert_eq!(updated.record_type, DNSRecordType::A);
    assert_eq!(updated.ttl, 300);
    assert_eq!(updated.value, "192.0.2.7");
    assert!(updated.dnssec);
    assert_eq!(updated.rrsig.as_deref(), Some("sig"));
    assert_eq!(updated.created_at, 10);
    assert_eq!(updated.updated_at, 20);
    let updated = root.update_dns_record(updated, input("192.0.2.8", Some(false)), 30).unwrap();
    assert!(!updated.dnssec);
    assert_eq!(
        root.update_dns_record(updated, input("", None), 40).unwrap_err(),
        RecordError::InvalidIpv4
    );
}

#[test]
fn zones_and_provenance() {
    let root = MutationRoot;
    let keys = || ("ksk".to_string(), "zsk".to_string(), "ds".to_string());
    let zone = root.enable_dnssec("example.com".to_string(), keys(), 7);
    assert!(zone.enabled);
    assert_eq!(zone.ksk.as_deref(), Some("ksk"));
    assert_eq!(zone.zsk.as_deref(), Some("zsk"));
    assert_eq!(zone.ds_record.as_deref(), Some("ds"));
    assert_eq!(zone.last_rotation, Some(7));
    let off = DNSSECZone {
        zone: "example.org".to_string(),
        enabled: false,
        ksk: None,
        zsk: None,
        ds_record: None,
        last_rotation: None,
    };
    let rotated = root.rotate_dnssec_keys(off, keys(), 9);
    assert_eq!(rotated.zone, "example.org");
    assert!(!rotated.enabled);
    assert_eq!(rotated.ksk.as_deref(), Some("ksk"));
    assert_eq!(rotated.last_rotation, Some(9));
    let provenance = root.anchor_to_blockchain(
        "id".to_string(),
        "hash".to_string(),
        "sepolia".to_string(),
        "0xabc".to_string(),
        123,
        456,
    );
    assert_eq!(provenance.record_id, "id");
    assert_eq!(provenance.content_hash, "hash");
    assert_eq!(provenance.network, "sepolia");
    assert_eq!(provenance.tx_hash, "0xabc");
    assert_eq!(provenance.block_number, 123);
    assert_eq!(provenance.timestamp, 456);
}

#[test]
fn query_answers() {
    let root = QueryRoot;
    assert_eq!(root.health(), "OK");
    let ptr = |value: &str| {
        DNSRecord::new(
            "id".to_string(),
            0,
            "1.2.0.192.in-addr.arpa".to_string(),
            DNSRecordType::PTR,
            60,
            value.to_string(),
        )
    };
    let result = root.reverse_dns("192.0.2.1".to_string(), vec![ptr("a.example.com"), ptr("b.example.com")]);
    assert_eq!(result.ip, "192.0.2.1");
    assert_eq!(result.hostnames, vec!["a.example.com".to_string(), "b.example.com".to_string()]);
    assert_eq!(result.ptr_records.len(), 2);
    let stats = root.statistics(
        3,
        vec![RecordTypeCount { record_type: DNSRecordType::A, count: 3 }],
        1,
        2,
    );
    assert_eq!(stats.total_records, 3);
    assert_eq!(stats.records_by_type.len(), 1);
    assert_eq!(stats.dnssec_zones, 1);
    assert_eq!(stats.blockchain_anchored, 2);
}

#[test]
fn record_queries() {
    assert_eq!(
        odns::db::records_query(None, None, 100, 0),
        "SELECT * FROM dns_records LIMIT 100 START 0"
    );
    assert_eq!(
        odns::db::records_query(Some("example.com"), None, 10, 20),
        "SELECT * FROM dns_records WHERE name = 'example.com' LIMIT 10 START 20"
    );
    assert_eq!(
        odns::db::records_query(None, Some(DNSRecordType::PTR), 1, 0),
        "SELECT * FROM dns_records WHERE type = 'PTR' LIMIT 1 START 0"
    );
    assert_eq!(
        odns::db::records_query(Some("a"), Some(DNSRecordType::AAAA), -1, -2),
        "SELECT * FROM dns_records WHERE name = 'a' AND type = 'AAAA' LIMIT -1 START -2"
    );
    for (record_type, name) in [
        (DNSRecordType::A, "A"),
        (DNSRecordType::AAAA, "AAAA"),
        (DNSRecordType::CNAME, "CNAME"),
        (DNSRecordType::MX, "MX"),
        (DNSRecordType::TXT, "TXT"),
        (DNSRecordType::SRV, "SRV"),
        (DNSRecordType::CAA, "CAA"),
        (DNSRecordType::TLSA, "TLSA"),
        (DNSRecordType::NS, "NS"),
        (DNSRecordType::SOA, "SOA"),
        (DNSRecordType::PTR, "PTR"),
    ] {
        assert_eq!(odns::db::stored_name(record_type), name);
        assert_eq!(format!("{:?}", record_type), name);
    }
    assert!(odns::db::is_memory_store("memory"));
    assert!(!odns::db::is_memory_store("/var/lib/dns"));
    assert_eq!(odns::db::count_or_zero(None), 0);
    assert_eq!(odns::db::count_or_zero(Some(7)), 7);
    assert_eq!(odns::db::COUNT_RECORDS, "SELECT count() FROM dns_records GROUP ALL");
}

#[test]
fn mutations_need_an_identity() {
    let root = MutationRoot;
    assert_eq!(root.require_identity(Some("identity:alice".to_string())), Ok("identity:alice".to_string()));
    assert_eq!(
        root.require_identity(None),
        Err(odns::resolvers::ApiError::AuthenticationRequired)
    );
}
