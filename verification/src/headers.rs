//! The cache-header composer: a jittered expiry window and the response
//! header values built from it.

use crate::format::ImageFormat;
use crate::strutil::{decimal_digits, u64_to_string};
use vstd::prelude::*;

verus! {

/// The first second of year 9999; timestamps from here on cannot be
/// rendered as an HTTP date.
pub const HTTP_DATE_LIMIT_SECS: u64 = 253402300800;

/// The cache metadata of one response, in seconds since the epoch:
/// when it was produced, how long it may be cached, and when it expires.
#[derive(Clone, Copy, PartialEq, Eq, Structural, Debug)]
pub struct CacheDirective {
    pub last_modified: u64,
    pub max_age: u64,
    pub expires: u64,
}

impl CacheDirective {
    /// The expiry time is always the production time plus the lifetime.
    pub open spec fn wf(self) -> bool {
        self.expires == self.last_modified + self.max_age
    }
}

/// Relies on `rand::random_range`: a draw from `0..=bound` is uniform,
/// never fails, and is at most `bound`. Nothing more is assumed of it.
#[verifier::external_body]
fn draw_jitter(bound: u64) -> (r: u64)
    ensures
        r <= bound,
{
    rand::random_range(0..=bound)
}

/// Build the cache metadata for a response produced at `now`, with a
/// lifetime of `base_hours` hours plus `jitter` seconds.
pub fn compose_cache_directive(now: u64, base_hours: u64, jitter: u64) -> (c: CacheDirective)
    requires
        now + base_hours * 3600 + jitter <= u64::MAX,
    ensures
        c.last_modified == now,
        c.max_age == base_hours * 3600 + jitter,
        c.wf(),
{
    let max_age = base_hours * 3600 + jitter;
    CacheDirective { last_modified: now, max_age, expires: now + max_age }
}

/// Build the cache metadata for a response produced at `now`, drawing the
/// jitter at random from `0..=jitter_bound`. Whatever is drawn, the
/// lifetime stays within the configured window, and with a zero bound it
/// is exactly the base expiration.
pub fn fresh_cache_directive(now: u64, base_hours: u64, jitter_bound: u64) -> (c: CacheDirective)
    requires
        now + base_hours * 3600 + jitter_bound <= u64::MAX,
    ensures
        c.last_modified == now,
        c.wf(),
        base_hours * 3600 <= c.max_age <= base_hours * 3600 + jitter_bound,
        jitter_bound == 0 ==> c.max_age == base_hours * 3600,
{
    let jitter = draw_jitter(jitter_bound);
    compose_cache_directive(now, base_hours, jitter)
}

/// Whatever jitter was drawn, the Expires timestamp minus the
/// Last-Modified timestamp is exactly the advertised lifetime.
pub proof fn lemma_expires_is_last_modified_plus_max_age(c: CacheDirective)
    requires
        c.wf(),
    ensures
        c.expires - c.last_modified == c.max_age,
{
}

/// What `httpdate` renders a timestamp as: an IMF-fixdate, a function of
/// the timestamp alone.
pub uninterp spec fn http_date_of(secs: u64) -> Seq<char>;

/// Relies on `httpdate::fmt_http_date`: the rendered IMF-fixdate depends
/// on the timestamp alone. It refuses dates from year 9999 on, so those
/// are excluded here.
#[verifier::external_body]
fn format_http_date(secs: u64) -> (s: String)
    requires
        secs < HTTP_DATE_LIMIT_SECS,
    ensures
        s@ == http_date_of(secs),
{
    let t = std::time::UNIX_EPOCH + std::time::Duration::from_secs(secs);
    httpdate::fmt_http_date(t)
}

/// The header values of a successful response: the negotiated content
/// type, the cache lifetime, the two timestamps, and whether a `Vary`
/// marker on the Accept header is owed.
pub struct ResponseHeaders {
    pub content_type: String,
    pub cache_control: String,
    pub last_modified: String,
    pub expires: String,
    pub vary_accept: bool,
}

/// Render the response headers: `Content-Type` is the MIME type of the
/// chosen format, `Cache-Control` carries the lifetime, `Last-Modified`
/// and `Expires` render the two timestamps, and the `Vary` marker is kept
/// as decided by the negotiator.
pub fn compose_headers(format: ImageFormat, cache: CacheDirective, vary: bool) -> (h:
    ResponseHeaders)
    requires
        cache.wf(),
        cache.expires < HTTP_DATE_LIMIT_SECS,
    ensures
        h.content_type@ == format.mime_type_spec(),
        h.cache_control@ == "max-age="@ + decimal_digits(cache.max_age as int),
        h.last_modified@ == http_date_of(cache.last_modified),
        h.expires@ == http_date_of(cache.expires),
        h.vary_accept == vary,
{
    let age = u64_to_string(cache.max_age);
    let cache_control = String::from_str("max-age=").concat(age.as_str());
    ResponseHeaders {
        content_type: String::from_str(format.mime_type()),
        cache_control,
        last_modified: format_http_date(cache.last_modified),
        expires: format_http_date(cache.expires),
        vary_accept: vary,
    }
}

} // verus!
