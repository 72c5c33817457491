use odns::config::{
    default_bind_addr, default_content_types, default_cooldown_ms, default_max_rate_per_source,
    default_max_rate_rpm, default_metrics_path, default_true, default_window_secs, MetricsConfig,
    ValidationConfig,
};
use odns::validator::{
    extract_registrable_domain, is_ipv4, is_two_part_tld, ValidationError, ValidationResult,
    WebmentionValidator,
};

fn default_validator() -> WebmentionValidator {
    WebmentionValidator::new(ValidationConfig::default())
}

#[test]
fn test_valid_content_type() {
    let validator = default_validator();

    assert!(validator
        .validate_content_type(Some("application/x-www-form-urlencoded"))
        .is_valid());

    assert!(validator
        .validate_content_type(Some("application/x-www-form-urlencoded; charset=utf-8"))
        .is_valid());
}

#[test]
fn test_invalid_content_type() {
    let validator = default_validator();

    assert!(!validator.validate_content_type(Some("application/json")).is_valid());
    assert!(!validator.validate_content_type(None).is_valid());
}

#[test]
fn test_valid_source_target() {
    let validator = default_validator();

    assert!(validator
        .validate_source_target(
            Some("https://source.example.com/post/1"),
            Some("https://target.example.org/post/2")
        )
        .is_valid());
}

#[test]
fn test_missing_source() {
    let validator = default_validator();

    let result = validator.validate_source_target(None, Some("https://target.example.org/post/2"));
    assert!(!result.is_valid());
    assert!(matches!(result.error(), Some(ValidationError::MissingParameter("source"))));
}

#[test]
fn test_self_ping_blocked() {
    let validator = default_validator();

    let result = validator.validate_source_target(
        Some("https://blog.example.com/post/1"),
        Some("https://www.example.com/post/2"),
    );
    assert!(!result.is_valid());
    assert!(matches!(result.error(), Some(ValidationError::SelfPingBlocked { .. })));
}

#[test]
fn test_extract_registrable_domain() {
    assert_eq!(extract_registrable_domain("example.com"), "example.com");
    assert_eq!(extract_registrable_domain("www.example.com"), "example.com");
    assert_eq!(extract_registrable_domain("blog.example.com"), "example.com");
    assert_eq!(extract_registrable_domain("example.co.uk"), "example.co.uk");
    assert_eq!(extract_registrable_domain("www.example.co.uk"), "example.co.uk");
}

#[test]
fn test_malformed_urls_rejected() {
    let validator = default_validator();

    // FTP scheme should be rejected
    let result =
        validator.validate_source_target(Some("ftp://example.com/file"), Some("https://target.com/"));
    assert!(!result.is_valid(), "FTP URL should be rejected");

    // Empty host should be rejected (https:// fails to parse)
    let result = validator.validate_source_target(Some("https://"), Some("https://target.com/"));
    assert!(!result.is_valid(), "URL with empty host should be rejected");

    // javascript: scheme should be rejected
    let result =
        validator.validate_source_target(Some("javascript:alert(1)"), Some("https://target.com/"));
    assert!(!result.is_valid(), "javascript: URL should be rejected");

    // file: scheme should be rejected
    let result =
        validator.validate_source_target(Some("file:///etc/passwd"), Some("https://target.com/"));
    assert!(!result.is_valid(), "file: URL should be rejected");
}

#[test]
fn content_type_is_compared_without_case_and_parameters() {
    let validator = default_validator();
    assert!(validator.validate_content_type(Some("APPLICATION/X-WWW-FORM-URLENCODED")).is_valid());
    assert!(validator
        .validate_content_type(Some("  application/x-www-form-urlencoded  ; boundary=---"))
        .is_valid());
    assert!(!validator.validate_content_type(Some("")).is_valid());
    assert!(!validator.validate_content_type(Some("   ")).is_valid());
    assert!(!validator.validate_content_type(Some("text/plain")).is_valid());
    assert!(!validator
        .validate_content_type(Some("text/plain; application/x-www-form-urlencoded"))
        .is_valid());
}

#[test]
fn invalid_content_type_reports_expected_and_actual() {
    let validator = default_validator();
    match validator.validate_content_type(Some("Application/JSON; charset=utf-8")) {
        ValidationResult::Invalid(ValidationError::InvalidContentType { expected, actual }) => {
            assert_eq!(expected, vec!["application/x-www-form-urlencoded".to_string()]);
            assert_eq!(actual, Some("application/json".to_string()));
        }
        other => panic!("unexpected {:?}", other),
    }
    match validator.validate_content_type(None) {
        ValidationResult::Invalid(ValidationError::InvalidContentType { expected, actual }) => {
            assert_eq!(expected.len(), 1);
            assert_eq!(actual, None);
        }
        other => panic!("unexpected {:?}", other),
    }
}

#[test]
fn several_content_types_can_be_configured() {
    let validator = WebmentionValidator::new(ValidationConfig {
        require_content_type: vec!["Text/Plain".to_string(), "application/json".to_string()],
        require_source_target: true,
        block_self_ping: true,
    });
    assert!(validator.validate_content_type(Some("text/plain")).is_valid());
    assert!(validator.validate_content_type(Some("application/JSON")).is_valid());
    assert!(!validator.validate_content_type(Some("application/x-www-form-urlencoded")).is_valid());
    let none = WebmentionValidator::new(ValidationConfig {
        require_content_type: vec![],
        require_source_target: true,
        block_self_ping: true,
    });
    assert!(!none.validate_content_type(Some("text/plain")).is_valid());
}

#[test]
fn missing_and_blank_parameters() {
    let validator = default_validator();
    let ok = Some("https://target.example.org/");
    for source in [None, Some(""), Some("   "), Some("\t\n")] {
        let result = validator.validate_source_target(source, ok);
        assert!(matches!(result.error(), Some(ValidationError::MissingParameter("source"))));
    }
    for target in [None, Some(""), Some("  ")] {
        let result = validator.validate_source_target(Some("https://a.example.com/"), target);
        assert!(matches!(result.error(), Some(ValidationError::MissingParameter("target"))));
    }
    // The source is looked at first.
    let result = validator.validate_source_target(None, None);
    assert!(matches!(result.error(), Some(ValidationError::MissingParameter("source"))));
}

#[test]
fn invalid_urls_name_the_parameter() {
    let validator = default_validator();
    match validator.validate_source_target(Some("not-a-url"), Some("https://target.com/")) {
        ValidationResult::Invalid(ValidationError::InvalidUrl { param, url }) => {
            assert_eq!(param, "source");
            assert_eq!(url, "not-a-url");
        }
        other => panic!("unexpected {:?}", other),
    }
    match validator.validate_source_target(Some("https://source.com/"), Some("ftp://target.com/")) {
        ValidationResult::Invalid(ValidationError::InvalidUrl { param, url }) => {
            assert_eq!(param, "target");
            assert_eq!(url, "ftp://target.com/");
        }
        other => panic!("unexpected {:?}", other),
    }
    // A target that does not parse is reported before a source with a bad scheme.
    match validator.validate_source_target(Some("ftp://source.com/"), Some("://nothing")) {
        ValidationResult::Invalid(ValidationError::InvalidUrl { param, .. }) => {
            assert_eq!(param, "target");
        }
        other => panic!("unexpected {:?}", other),
    }
    match validator.validate_source_target(Some("data:text/html,x"), Some("https://target.com/")) {
        ValidationResult::Invalid(ValidationError::InvalidUrl { param, .. }) => {
            assert_eq!(param, "source");
        }
        other => panic!("unexpected {:?}", other),
    }
}

#[test]
fn self_ping_reports_the_shared_domain() {
    let validator = default_validator();
    match validator.validate_source_target(
        Some("https://Blog.Example.CO.UK/post/1"),
        Some("http://www.example.co.uk/post/2"),
    ) {
        ValidationResult::Invalid(ValidationError::SelfPingBlocked { domain }) => {
            assert_eq!(domain, "example.co.uk");
        }
        other => panic!("unexpected {:?}", other),
    }
    assert!(validator
        .validate_source_target(Some("https://one.co.uk/"), Some("https://two.co.uk/"))
        .is_valid());
    assert!(!validator
        .validate_source_target(Some("http://192.0.2.1/a"), Some("http://192.0.2.1/b"))
        .is_valid());
    assert!(validator
        .validate_source_target(Some("http://192.0.2.1/a"), Some("http://198.51.2.1/b"))
        .is_valid());
}

#[test]
fn switches_turn_checks_off() {
    let lax = WebmentionValidator::new(ValidationConfig {
        require_content_type: default_content_types(),
        require_source_target: false,
        block_self_ping: true,
    });
    assert!(lax.validate_source_target(None, None).is_valid());
    assert!(lax.validate_source_target(Some("junk"), Some("junk")).is_valid());
    let pings = WebmentionValidator::new(ValidationConfig {
        require_content_type: default_content_types(),
        require_source_target: true,
        block_self_ping: false,
    });
    assert!(pings
        .validate_source_target(Some("https://a.example.com/"), Some("https://b.example.com/"))
        .is_valid());
}

#[test]
fn validate_checks_content_type_first() {
    let validator = default_validator();
    let result = validator.validate(Some("application/json"), None, None);
    assert!(matches!(result.error(), Some(ValidationError::InvalidContentType { .. })));
    let result = validator.validate(Some("application/x-www-form-urlencoded"), None, None);
    assert!(matches!(result.error(), Some(ValidationError::MissingParameter("source"))));
    let result = validator.validate(
        Some("application/x-www-form-urlencoded"),
        Some("https://source.example.com/post/1"),
        Some("https://target.example.org/post/2"),
    );
    assert!(result.is_valid());
    assert!(result.error().is_none());
}

#[test]
fn registrable_domain_edge_cases() {
    assert_eq!(extract_registrable_domain("localhost"), "localhost");
    assert_eq!(extract_registrable_domain(""), "");
    assert_eq!(extract_registrable_domain("WWW.Example.COM"), "example.com");
    assert_eq!(extract_registrable_domain("a.b.c.d.example.com.au"), "example.com.au");
    assert_eq!(extract_registrable_domain("co.uk"), "co.uk");
    assert_eq!(extract_registrable_domain("x.co.uk"), "x.co.uk");
    assert_eq!(extract_registrable_domain("192.168.1.10"), "192.168.1.10");
    assert_eq!(extract_registrable_domain("1.2.3.256"), "3.256");
    assert_eq!(extract_registrable_domain("1.2.3.04"), "3.04");
    assert_eq!(extract_registrable_domain("[::1]"), "[::1]");
    assert_eq!(extract_registrable_domain("a..b"), ".b");
}

#[test]
fn dotted_addresses_are_recognised() {
    assert!(is_ipv4("0.0.0.0"));
    assert!(is_ipv4("255.255.255.255"));
    assert!(is_ipv4("10.1.2.3"));
    assert!(!is_ipv4("256.1.1.1"));
    assert!(!is_ipv4("1.2.3"));
    assert!(!is_ipv4("1.2.3.4.5"));
    assert!(!is_ipv4("01.2.3.4"));
    assert!(!is_ipv4("1.2.3.4 "));
    assert!(!is_ipv4("a.b.c.d"));
    assert!(!is_ipv4("1..3.4"));
    assert!(!is_ipv4(""));
    assert!(!is_ipv4("1.2.3.1000"));
}

#[test]
fn two_part_suffixes() {
    for suffix in [
        "co.uk", "org.uk", "me.uk", "co.nz", "co.jp", "co.kr", "com.au", "net.au", "org.au",
        "com.br", "co.za",
    ] {
        assert!(is_two_part_tld(suffix), "{}", suffix);
    }
    for suffix in ["com", "example.com", "uk", "co.uk.", "CO.UK", ""] {
        assert!(!is_two_part_tld(suffix), "{}", suffix);
    }
}

#[test]
fn refusals_in_words() {
    assert_eq!(
        ValidationError::MissingParameter("source").message(),
        "Missing required parameter: source"
    );
    assert_eq!(
        ValidationError::InvalidUrl { param: "target", url: "ftp://x/".to_string() }.message(),
        "Invalid URL format for target: ftp://x/"
    );
    assert_eq!(
        ValidationError::SelfPingBlocked { domain: "example.com".to_string() }.message(),
        "Self-ping blocked: source and target share domain example.com"
    );
    assert_eq!(
        ValidationError::InvalidContentType {
            expected: vec!["application/x-www-form-urlencoded".to_string()],
            actual: Some("text/\"plain\"".to_string()),
        }
        .message(),
        "Invalid Content-Type: expected one of [\"application/x-www-form-urlencoded\"], got Some(\"text/\\\"plain\\\"\")"
    );
    assert_eq!(
        ValidationError::InvalidContentType { expected: vec![], actual: None }.message(),
        "Invalid Content-Type: expected one of [], got None"
    );
}

#[test]
fn defaults() {
    assert_eq!(default_bind_addr(), "0.0.0.0:8080");
    assert_eq!(default_max_rate_rpm(), 60);
    assert_eq!(default_max_rate_per_source(), 10);
    assert_eq!(default_cooldown_ms(), 30000);
    assert_eq!(default_window_secs(), 60);
    assert_eq!(default_content_types(), vec!["application/x-www-form-urlencoded".to_string()]);
    assert!(default_true());
    assert_eq!(default_metrics_path(), "/metrics");
    let validation = ValidationConfig::default();
    assert_eq!(validation.require_content_type, default_content_types());
    assert!(validation.require_source_target);
    assert!(validation.block_self_ping);
    let metrics = MetricsConfig::default();
    assert!(metrics.enabled);
    assert_eq!(metrics.path, "/metrics");
}
