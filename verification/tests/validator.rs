//! The host allowlist validator, run against the real URL parser.

use rusty_resizer::client::{validate_host, ClientError};

fn hosts(list: &[&str]) -> Vec<String> {
    list.iter().map(|s| s.to_string()).collect()
}

#[test]
fn test_validate_host_accepts_allowed_host() {
    let allowed = hosts(&["raw.githubusercontent.com"]);
    let r = validate_host("https://raw.githubusercontent.com/a/b/test.jpg", &allowed);
    assert!(r.is_ok());
}

#[test]
fn test_validate_host_rejects_disallowed_host() {
    let allowed = hosts(&["raw.githubusercontent.com"]);
    let r = validate_host("https://content.com/test.jpg", &allowed);
    assert_eq!(r, Err(ClientError::BlockedHost));
    assert_eq!(r.unwrap_err().message(), "Image Host Is Not Allowed");
}

#[test]
fn test_validate_host_rejects_unparsable_url() {
    let allowed = hosts(&["raw.githubusercontent.com"]);
    let r = validate_host("img.jpg", &allowed);
    assert_eq!(r, Err(ClientError::InvalidRequest));
    assert_eq!(r.unwrap_err().message(), "Invalid Request For Image");
}

#[test]
fn test_validate_host_rejects_url_without_host() {
    let allowed = hosts(&["raw.githubusercontent.com"]);
    let r = validate_host("data:text/plain,hello", &allowed);
    assert_eq!(r, Err(ClientError::BlockedHost));
}

#[test]
fn test_validate_host_is_exact_no_subdomain_matching() {
    let allowed = hosts(&["example.com"]);
    assert_eq!(
        validate_host("https://sub.example.com/x.png", &allowed),
        Err(ClientError::BlockedHost)
    );
    assert!(validate_host("https://example.com/x.png", &allowed).is_ok());
}

#[test]
fn test_validate_host_with_empty_allowlist_blocks_everything() {
    let allowed: Vec<String> = Vec::new();
    assert_eq!(
        validate_host("https://example.com/x.png", &allowed),
        Err(ClientError::BlockedHost)
    );
}

#[test]
fn test_client_error_messages() {
    assert_eq!(ClientError::InvalidRequest.message(), "Invalid Request For Image");
    assert_eq!(ClientError::InvalidPayload.message(), "Invalid Image Payload");
    assert_eq!(ClientError::NotFound.message(), "Image Not Found");
    assert_eq!(ClientError::BlockedHost.message(), "Image Host Is Not Allowed");
    assert_eq!(ClientError::InaccessibleImage.message(), "Inaccessible Image");
}
