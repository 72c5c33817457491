use odns::models::{
    ip_to_reverse_name, validate_dns_record, DNSRecordInput, DNSRecordType, DNSStatistics,
    RecordError, RecordTypeCount,
};

fn input(record_type: DNSRecordType, value: &str) -> DNSRecordInput {
    DNSRecordInput {
        name: "example.com".to_string(),
        record_type,
        ttl: 300,
        value: value.to_string(),
        dnssec: None,
    }
}

#[test]
fn type_codes() {
    assert_eq!(DNSRecordType::A.to_type_code(), 1);
    assert_eq!(DNSRecordType::NS.to_type_code(), 2);
    assert_eq!(DNSRecordType::CNAME.to_type_code(), 5);
    assert_eq!(DNSRecordType::SOA.to_type_code(), 6);
    assert_eq!(DNSRecordType::PTR.to_type_code(), 12);
    assert_eq!(DNSRecordType::MX.to_type_code(), 15);
    assert_eq!(DNSRecordType::TXT.to_type_code(), 16);
    assert_eq!(DNSRecordType::AAAA.to_type_code(), 28);
    assert_eq!(DNSRecordType::SRV.to_type_code(), 33);
    assert_eq!(DNSRecordType::TLSA.to_type_code(), 52);
    assert_eq!(DNSRecordType::CAA.to_type_code(), 257);
}

#[test]
fn record_checks_in_order() {
    let mut record = input(DNSRecordType::A, "not an address");
    record.name = String::new();
    record.ttl = -1;
    assert_eq!(validate_dns_record(&record), Err(RecordError::EmptyName));
    record.name = "example.com".to_string();
    assert_eq!(validate_dns_record(&record), Err(RecordError::NegativeTtl));
    record.ttl = 0;
    assert_eq!(validate_dns_record(&record), Err(RecordError::InvalidIpv4));
    record.value = "192.0.2.1".to_string();
    assert_eq!(validate_dns_record(&record), Ok(()));
}

#[test]
fn a_record_values() {
    for value in ["192.0.2.1", "0.0.0.0", "255.255.255.255", "1.2", "7", "+1.002.3.4"] {
        assert_eq!(validate_dns_record(&input(DNSRecordType::A, value)), Ok(()), "{}", value);
    }
    for value in ["", "256.1.1.1", "1.2.3.", ".1.2.3", "1..2", "a.b.c.d", "1.2.3.4 ", "-1.2.3.4"] {
        assert_eq!(
            validate_dns_record(&input(DNSRecordType::A, value)),
            Err(RecordError::InvalidIpv4),
            "{}",
            value
        );
    }
}

#[test]
fn aaaa_record_values() {
    assert_eq!(validate_dns_record(&input(DNSRecordType::AAAA, "2001:db8::1")), Ok(()));
    assert_eq!(validate_dns_record(&input(DNSRecordType::AAAA, ":")), Ok(()));
    assert_eq!(
        validate_dns_record(&input(DNSRecordType::AAAA, "192.0.2.1")),
        Err(RecordError::InvalidIpv6)
    );
    assert_eq!(validate_dns_record(&input(DNSRecordType::AAAA, "")), Err(RecordError::InvalidIpv6));
}

#[test]
fn other_record_values() {
    for record_type in [
        DNSRecordType::CNAME,
        DNSRecordType::MX,
        DNSRecordType::TXT,
        DNSRecordType::SRV,
        DNSRecordType::CAA,
        DNSRecordType::TLSA,
        DNSRecordType::NS,
        DNSRecordType::SOA,
        DNSRecordType::PTR,
    ] {
        assert_eq!(validate_dns_record(&input(record_type, "x")), Ok(()));
        assert_eq!(validate_dns_record(&input(record_type, "")), Err(RecordError::EmptyValue));
    }
}

#[test]
fn reverse_names() {
    assert_eq!(ip_to_reverse_name("192.0.2.1"), Some("1.2.0.192.in-addr.arpa".to_string()));
    assert_eq!(ip_to_reverse_name("10.20.30.40"), Some("40.30.20.10.in-addr.arpa".to_string()));
    assert_eq!(ip_to_reverse_name("a.b.c.d"), Some("d.c.b.a.in-addr.arpa".to_string()));
    assert_eq!(ip_to_reverse_name("1.2.3"), None);
    assert_eq!(ip_to_reverse_name("1.2.3.4.5"), None);
    assert_eq!(ip_to_reverse_name(""), None);
    assert_eq!(ip_to_reverse_name("2001:db8::1"), Some("2001.db8..1.ip6.arpa".to_string()));
    assert_eq!(ip_to_reverse_name("::"), Some("...ip6.arpa".to_string()));
}

#[test]
fn statistics_hold_counts_by_type() {
    let stats = DNSStatistics {
        total_records: 3,
        records_by_type: vec![
            RecordTypeCount { record_type: DNSRecordType::A, count: 2 },
            RecordTypeCount { record_type: DNSRecordType::MX, count: 1 },
        ],
        dnssec_zones: 0,
        blockchain_anchored: 0,
    };
    assert_eq!(stats.records_by_type[0], RecordTypeCount { record_type: DNSRecordType::A, count: 2 });
    assert_eq!(stats.records_by_type.iter().map(|c| c.count).sum::<i32>(), stats.total_records);
}

#[test]
fn test_content_hash_consistency() {
    let record1 = odns::models::DNSRecord::new(
        "id-1".to_string(),
        1_700_000_000_000,
        "example.com".to_string(),
        DNSRecordType::A,
        3600,
        "192.0.2.1".to_string(),
    );
    let record2 = odns::models::DNSRecord::new(
        "id-2".to_string(),
        1_700_000_000_001,
        "example.com".to_string(),
        DNSRecordType::A,
        3600,
        "192.0.2.1".to_string(),
    );
    // Same content should produce same hash
    assert_eq!(record1.content_hash(), record2.content_hash());
}

#[test]
fn content_hash_is_blake3_over_the_joined_fields() {
    let record = odns::models::DNSRecord::new(
        "id".to_string(),
        0,
        "example.com".to_string(),
        DNSRecordType::MX,
        -5,
        "10 mail.example.com".to_string(),
    );
    let expected = blake3::hash(b"example.com:3:-5:10 mail.example.com").to_hex().to_string();
    assert_eq!(record.content_hash(), expected);
    assert_eq!(record.content_hash().len(), 64);

    let record = odns::models::DNSRecord::new(
        "id".to_string(),
        0,
        "é.example".to_string(),
        DNSRecordType::PTR,
        i32::MIN,
        String::new(),
    );
    let expected = blake3::hash("é.example:10:-2147483648:".as_bytes()).to_hex().to_string();
    assert_eq!(record.content_hash(), expected);
    let record = odns::models::DNSRecord::new(
        "id".to_string(),
        0,
        String::new(),
        DNSRecordType::A,
        i32::MAX,
        "x".to_string(),
    );
    assert_eq!(record.content_hash(), blake3::hash(b":0:2147483647:x").to_hex().to_string());
}

#[test]
fn new_records_are_unsigned_and_not_anchored() {
    let record = odns::models::DNSRecord::new(
        "abc".to_string(),
        42,
        "example.com".to_string(),
        DNSRecordType::TXT,
        60,
        "v=spf1 -all".to_string(),
    );
    assert_eq!(record.id, "abc");
    assert_eq!(record.created_at, 42);
    assert_eq!(record.updated_at, 42);
    assert!(!record.dnssec);
    assert!(record.rrsig.is_none());
    assert!(record.blockchain_tx_hash.is_none());
    assert_eq!(record.record_type.ordinal(), 4);
    assert_eq!(DNSRecordType::A.ordinal(), 0);
    assert_eq!(DNSRecordType::PTR.ordinal(), 10);
}

#[test]
fn numbers_and_bytes_in_text() {
    let mut text = String::from("n=");
    odns::text::append_decimal(&mut text, 0);
    odns::text::append_decimal(&mut text, 9);
    odns::text::append_decimal(&mut text, 10);
    odns::text::append_decimal(&mut text, u64::MAX);
    assert_eq!(text, "n=091018446744073709551615");
    let mut text = String::new();
    odns::text::append_signed_decimal(&mut text, -1);
    odns::text::append_signed_decimal(&mut text, i64::MIN);
    odns::text::append_signed_decimal(&mut text, i64::MAX);
    assert_eq!(text, "-1-92233720368547758089223372036854775807");
    assert_eq!(odns::text::hex_lower(&[]), "");
    assert_eq!(odns::text::hex_lower(&[0x00, 0x0f, 0xa5, 0xff]), "000fa5ff");
    assert_eq!(odns::text::hex_lower(b"DNS:"), "444e533a");
}
