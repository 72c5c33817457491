use odns::config::ValidationConfig;
use odns::validator::WebmentionValidator;
use std::collections::HashMap;
use std::time::{Duration, Instant};

/// Generate a pool of source URLs for testing.
fn generate_sources(count: usize) -> Vec<String> {
    (0..count)
        .map(|i| format!("https://source-{}.example.com/post/{}", i / 10, i % 10))
        .collect()
}

/// Generate various Content-Type values for bypass testing.
fn generate_content_types() -> Vec<Option<&'static str>> {
    vec![
        Some("application/x-www-form-urlencoded"),
        Some("application/x-www-form-urlencoded; charset=utf-8"),
        Some("application/json"),
        Some("text/plain"),
        Some("multipart/form-data"),
        Some("text/html"),
        Some("application/xml"),
        Some("APPLICATION/X-WWW-FORM-URLENCODED"),
        Some("application/x-www-form-urlencoded; boundary=---"),
        None,
        Some(""),
        Some("   "),
    ]
}

/// Classify a Content-Type as valid or invalid.
fn is_valid_content_type(ct: Option<&str>) -> bool {
    match ct {
        Some(s) => {
            let normalized = s.split(';').next().unwrap_or("").trim().to_lowercase();
            normalized == "application/x-www-form-urlencoded"
        }
        None => false,
    }
}

/// Generate malformed URL variations for testing.
fn generate_malformed_urls() -> Vec<&'static str> {
    vec![
        "",
        "   ",
        "not-a-url",
        "ftp://wrong-scheme.com/",
        "://missing-scheme.com/",
        "https://",
        "javascript:alert(1)",
        "data:text/html,<script>",
        "file:///etc/passwd",
    ]
}

#[derive(Debug, Clone, Copy, PartialEq, Eq, Hash)]
enum Outcome {
    Allowed,
    RateLimitedIp,
}

#[derive(Debug, Default)]
struct AttackMetrics {
    start_time: Option<Instant>,
    end_time: Option<Instant>,
    outcomes: HashMap<Outcome, usize>,
    requests_per_ip: HashMap<String, usize>,
    requests_per_source: HashMap<String, usize>,
    latencies: Vec<u64>,
}

impl AttackMetrics {
    fn new() -> Self {
        Self::default()
    }

    fn start(&mut self) {
        self.start_time = Some(Instant::now());
    }

    fn finish(&mut self) {
        self.end_time = Some(Instant::now());
    }

    fn record(&mut self, outcome: Outcome, ip: &str, source: Option<&str>, latency: Duration) {
        *self.outcomes.entry(outcome).or_insert(0) += 1;
        *self.requests_per_ip.entry(ip.to_string()).or_insert(0) += 1;
        if let Some(s) = source {
            *self.requests_per_source.entry(s.to_string()).or_insert(0) += 1;
        }
        self.latencies.push(latency.as_micros() as u64);
    }

    fn total_requests(&self) -> usize {
        self.outcomes.values().sum()
    }

    fn count(&self, outcome: Outcome) -> usize {
        self.outcomes.get(&outcome).copied().unwrap_or(0)
    }

    fn block_rate(&self) -> f64 {
        let total = self.total_requests();
        if total == 0 {
            return 0.0;
        }
        let allowed = self.count(Outcome::Allowed);
        (total - allowed) as f64 / total as f64
    }

    fn unique_ips(&self) -> usize {
        self.requests_per_ip.len()
    }

    fn unique_sources(&self) -> usize {
        self.requests_per_source.len()
    }
}

#[test]
fn test_generate_sources() {
    let sources = generate_sources(100);
    assert_eq!(sources.len(), 100);
    assert!(sources[0].starts_with("https://"));
}

#[test]
fn test_content_type_validation() {
    assert!(is_valid_content_type(Some("application/x-www-form-urlencoded")));
    assert!(is_valid_content_type(Some("application/x-www-form-urlencoded; charset=utf-8")));
    assert!(!is_valid_content_type(Some("application/json")));
    assert!(!is_valid_content_type(None));
}

#[test]
fn test_metrics_collection() {
    let mut metrics = AttackMetrics::new();
    metrics.start();

    metrics.record(Outcome::Allowed, "10.0.0.1", Some("https://a.com"), Duration::from_micros(100));
    metrics.record(Outcome::Allowed, "10.0.0.1", Some("https://b.com"), Duration::from_micros(150));
    metrics.record(Outcome::RateLimitedIp, "10.0.0.1", Some("https://c.com"), Duration::from_micros(50));

    metrics.finish();

    assert_eq!(metrics.total_requests(), 3);
    assert_eq!(metrics.count(Outcome::Allowed), 2);
    assert_eq!(metrics.count(Outcome::RateLimitedIp), 1);
    assert_eq!(metrics.unique_ips(), 1);
    assert_eq!(metrics.unique_sources(), 3);
}

#[test]
fn test_block_rate() {
    let mut metrics = AttackMetrics::new();
    for _ in 0..3 {
        metrics.record(Outcome::Allowed, "10.0.0.1", None, Duration::ZERO);
    }
    for _ in 0..7 {
        metrics.record(Outcome::RateLimitedIp, "10.0.0.1", None, Duration::ZERO);
    }

    assert!((metrics.block_rate() - 0.7).abs() < 0.01);
}

#[test]
fn validator_agrees_with_the_classification_of_content_types() {
    let validator = WebmentionValidator::new(ValidationConfig::default());
    for ct in generate_content_types() {
        assert_eq!(
            validator.validate_content_type(ct).is_valid(),
            is_valid_content_type(ct),
            "{:?}",
            ct
        );
    }
}

#[test]
fn validator_refuses_every_malformed_url() {
    let validator = WebmentionValidator::new(ValidationConfig::default());
    for url in generate_malformed_urls() {
        assert!(
            !validator.validate_source_target(Some(url), Some("https://target.example.org/")).is_valid(),
            "{:?} as source",
            url
        );
        assert!(
            !validator.validate_source_target(Some("https://source.example.com/"), Some(url)).is_valid(),
            "{:?} as target",
            url
        );
    }
}

#[test]
fn generated_sources_do_not_ping_the_target() {
    let validator = WebmentionValidator::new(ValidationConfig::default());
    for source in generate_sources(30) {
        assert!(validator
            .validate(
                Some("application/x-www-form-urlencoded"),
                Some(&source),
                Some("https://target.example.org/article/1"),
            )
            .is_valid());
        // All generated sources share example.com with this target.
        assert!(!validator
            .validate(
                Some("application/x-www-form-urlencoded"),
                Some(&source),
                Some("https://www.example.com/article/1"),
            )
            .is_valid());
    }
}

#[test]
fn test_validation_rejects_invalid_content_type() {
    let validator = WebmentionValidator::new(ValidationConfig::default());

    let result = validator.validate(
        Some("application/json"),
        Some("https://source.com"),
        Some("https://target.com"),
    );
    assert!(!result.is_valid());
}

#[test]
fn test_validation_rejects_self_ping() {
    let validator = WebmentionValidator::new(ValidationConfig::default());

    // Same domain should be rejected
    let result = validator.validate(
        Some("application/x-www-form-urlencoded"),
        Some("https://blog.example.com/post/1"),
        Some("https://www.example.com/post/2"),
    );
    assert!(!result.is_valid());
}

#[test]
fn test_content_type_variations() {
    let validator = WebmentionValidator::new(ValidationConfig::default());

    let test_cases = generate_content_types();

    for ct in test_cases {
        let result = validator.validate(ct, Some("https://source.com"), Some("https://target.com"));
        let expected_valid = is_valid_content_type(ct);

        assert_eq!(
            result.is_valid(),
            expected_valid,
            "Content-Type {:?} validation mismatch",
            ct
        );
    }
}

#[test]
fn test_malformed_urls() {
    let validator = WebmentionValidator::new(ValidationConfig::default());

    for url in generate_malformed_urls() {
        // Malformed source
        let result = validator.validate(
            Some("application/x-www-form-urlencoded"),
            Some(url),
            Some("https://target.example.com/"),
        );
        assert!(!result.is_valid(), "Malformed source URL '{}' should be rejected", url);

        // Malformed target
        let result = validator.validate(
            Some("application/x-www-form-urlencoded"),
            Some("https://source.example.com/"),
            Some(url),
        );
        assert!(!result.is_valid(), "Malformed target URL '{}' should be rejected", url);
    }
}
