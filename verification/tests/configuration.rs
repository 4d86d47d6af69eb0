//! Configuration parsing: whitespace stripping, comma splitting, and
//! host validation, run against the real host parser.

use rusty_resizer::client::validate_host;
use rusty_resizer::config::Configuration;

#[test]
fn test_configuration_new_transforms_options() {
    let config = Configuration::new(
        String::from("test"),
        String::from("  x.com,  y.com,z.com"),
        2880,
        60,
        50,
    );
    assert_eq!(config.env, "test");
    assert_eq!(config.allowed_hosts, vec!["x.com", "y.com", "z.com"]);
    assert_eq!(config.cache_expiration, 2880);
    assert_eq!(config.cache_jitter, 60);
    assert_eq!(config.default_quality, 50);
}

#[test]
fn test_configuration_drops_invalid_hosts() {
    let config = Configuration::new(
        String::from("test"),
        String::from("ok.example.com,,bad/host,also-ok.example.com"),
        1,
        0,
        85,
    );
    assert_eq!(config.allowed_hosts, vec!["ok.example.com", "also-ok.example.com"]);
}

#[test]
fn test_configuration_normalizes_host_case() {
    let config = Configuration::new(String::from("test"), String::from("X.com"), 1, 0, 85);
    assert_eq!(config.allowed_hosts, vec!["x.com"]);
}

#[test]
fn test_configured_hosts_validate_matching_urls() {
    let config = Configuration::new(
        String::from("test"),
        String::from("raw.githubusercontent.com"),
        1,
        0,
        85,
    );
    assert!(validate_host(
        "https://raw.githubusercontent.com/org/repo/main/img.jpg",
        &config.allowed_hosts
    )
    .is_ok());
    assert!(validate_host("https://content.com/img.jpg", &config.allowed_hosts).is_err());
}
