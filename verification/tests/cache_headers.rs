//! The cache header composer: exact lifetimes, jitter bounds, and the
//! rendered header values.

use rusty_resizer::format::ImageFormat;
use rusty_resizer::headers::{
    compose_cache_directive, compose_headers, fresh_cache_directive,
};

#[test]
fn test_one_hour_no_jitter_is_exactly_3600() {
    let c = fresh_cache_directive(1_000_000, 1, 0);
    assert_eq!(c.max_age, 3600);
    assert_eq!(c.last_modified, 1_000_000);
    assert_eq!(c.expires, 1_003_600);
}

#[test]
fn test_expires_minus_last_modified_is_max_age() {
    let c = fresh_cache_directive(1_700_000_000, 2880, 60);
    assert_eq!(c.expires - c.last_modified, c.max_age);
    let d = compose_cache_directive(5, 2, 7);
    assert_eq!(d.expires - d.last_modified, d.max_age);
    assert_eq!(d.max_age, 2 * 3600 + 7);
}

#[test]
fn test_jitter_stays_within_bound() {
    for _ in 0..50 {
        let c = fresh_cache_directive(0, 1, 60);
        assert!(c.max_age >= 3600);
        assert!(c.max_age <= 3660);
    }
}

#[test]
fn test_headers_render_the_directive() {
    let c = compose_cache_directive(0, 1, 0);
    let h = compose_headers(ImageFormat::Jpeg, c, false);
    assert_eq!(h.content_type, "image/jpeg");
    assert_eq!(h.cache_control, "max-age=3600");
    assert_eq!(h.last_modified, "Thu, 01 Jan 1970 00:00:00 GMT");
    assert_eq!(h.expires, "Thu, 01 Jan 1970 01:00:00 GMT");
    assert!(!h.vary_accept);
}

#[test]
fn test_headers_keep_the_vary_marker() {
    let c = compose_cache_directive(1_700_000_000, 1, 0);
    let h = compose_headers(ImageFormat::WebP, c, true);
    assert!(h.vary_accept);
    assert_eq!(h.content_type, "image/webp");
}

#[test]
fn test_header_dates_use_the_http_date_format() {
    let c = compose_cache_directive(1475601851, 0, 0);
    let h = compose_headers(ImageFormat::Png, c, false);
    assert_eq!(h.last_modified, "Tue, 04 Oct 2016 17:24:11 GMT");
    assert_eq!(h.expires, h.last_modified);
    assert_eq!(h.cache_control, "max-age=0");
}
