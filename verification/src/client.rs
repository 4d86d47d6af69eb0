//! The verified half of the bounded fetch client: source-host validation,
//! status classification, and the response-size cap.

use crate::strutil::{list_has, vec_has_str};
use vstd::prelude::*;

verus! {

/// The hard cap on a fetched body, in bytes: responses beyond it are
/// rejected to bound memory use regardless of what the server declares.
pub const MAX_ALLOWED_BYTES: usize = 20_000_000;

/// Why a fetch was refused or failed.
#[derive(Clone, Copy, PartialEq, Eq, Structural, Debug)]
pub enum ClientError {
    /// The source URL is unparsable, or the source answered with an
    /// unexpected status, or the transport failed.
    InvalidRequest,
    /// The response body exceeded the byte cap or could not be read fully.
    InvalidPayload,
    /// The source answered 404.
    NotFound,
    /// The source host is not on the allowlist.
    BlockedHost,
    /// The source answered 403.
    InaccessibleImage,
}

impl ClientError {
    /// The client-visible message for this error.
    pub open spec fn message_spec(self) -> Seq<char> {
        match self {
            ClientError::InvalidRequest => "Invalid Request For Image"@,
            ClientError::InvalidPayload => "Invalid Image Payload"@,
            ClientError::NotFound => "Image Not Found"@,
            ClientError::BlockedHost => "Image Host Is Not Allowed"@,
            ClientError::InaccessibleImage => "Inaccessible Image"@,
        }
    }

    /// The plain-text body a failed request is answered with.
    pub fn message(&self) -> (m: &'static str)
        ensures
            m@ == self.message_spec(),
    {
        match self {
            ClientError::InvalidRequest => "Invalid Request For Image",
            ClientError::InvalidPayload => "Invalid Image Payload",
            ClientError::NotFound => "Image Not Found",
            ClientError::BlockedHost => "Image Host Is Not Allowed",
            ClientError::InaccessibleImage => "Inaccessible Image",
        }
    }
}

/// How a fetch status code is answered: 200 means the body may be used,
/// everything else maps to an error of the taxonomy.
pub open spec fn classify_status_spec(status: u16) -> Result<(), ClientError> {
    if status == 200 {
        Ok(())
    } else if status == 404 {
        Err(ClientError::NotFound)
    } else if status == 403 {
        Err(ClientError::InaccessibleImage)
    } else {
        Err(ClientError::InvalidRequest)
    }
}

/// Map the status of the source's response to the fetch outcome.
pub fn classify_status(status: u16) -> (r: Result<(), ClientError>)
    ensures
        r == classify_status_spec(status),
{
    if status == 200 {
        Ok(())
    } else if status == 404 {
        Err(ClientError::NotFound)
    } else if status == 403 {
        Err(ClientError::InaccessibleImage)
    } else {
        Err(ClientError::InvalidRequest)
    }
}

/// What the `url` crate finds in a URL string: `None` when the string is
/// not a parsable URL, `Some(None)` when it parses but has no host
/// component, and `Some(Some(h))` when its host is `h`.
pub uninterp spec fn url_host_of(s: Seq<char>) -> Option<Option<Seq<char>>>;

/// Relies on `url::Url::parse` and `url::Url::host_str`: parsing a URL
/// string and extracting its host component depend on the string alone.
#[verifier::external_body]
fn parse_url_host(url: &str) -> (r: Option<Option<String>>)
    ensures
        r.deep_view() == url_host_of(url@),
{
    match url::Url::parse(url) {
        Ok(u) => match u.host_str() {
            Some(h) => Some(Some(h.to_string())),
            None => Some(None),
        },
        Err(_) => None,
    }
}

/// Is this host an exact member of the allowed set? No normalization, no
/// subdomain matching: a case-sensitive, character-for-character test.
pub open spec fn host_allowed(host: Seq<char>, allowed: Seq<Seq<char>>) -> bool {
    list_has(allowed, host)
}

/// The validator's verdict on a source URL: `InvalidRequest` for an
/// unparsable URL, `BlockedHost` for one whose host is missing or not
/// allowed, `Ok` exactly when the host is an allowed one.
pub open spec fn validate_host_spec(url: Seq<char>, allowed: Seq<Seq<char>>) -> Result<
    (),
    ClientError,
> {
    match url_host_of(url) {
        None => Err(ClientError::InvalidRequest),
        Some(None) => Err(ClientError::BlockedHost),
        Some(Some(h)) => if host_allowed(h, allowed) {
            Ok(())
        } else {
            Err(ClientError::BlockedHost)
        },
    }
}

/// Validate a source URL against the allowlist, before any network call.
pub fn validate_host(url: &str, allowed: &Vec<String>) -> (r: Result<(), ClientError>)
    ensures
        r == validate_host_spec(url@, allowed.deep_view()),
{
    match parse_url_host(url) {
        None => Err(ClientError::InvalidRequest),
        Some(None) => Err(ClientError::BlockedHost),
        Some(Some(h)) => {
            if vec_has_str(allowed, h.as_str()) {
                Ok(())
            } else {
                Err(ClientError::BlockedHost)
            }
        },
    }
}

/// Validation succeeds exactly when the URL has a host and that host is an
/// exact member of the allowed set.
pub proof fn lemma_validation_succeeds_iff_host_allowed(url: Seq<char>, allowed: Seq<Seq<char>>)
    ensures
        validate_host_spec(url, allowed) is Ok <==> match url_host_of(url) {
            Some(Some(h)) => host_allowed(h, allowed),
            _ => false,
        },
{
}

/// The body of a successful bounded fetch: raw bytes, no longer than the
/// byte cap. The bound is enforced by construction, not assumed of the
/// caller.
pub struct FetchResult {
    bytes: Vec<u8>,
}

impl View for FetchResult {
    type V = Seq<u8>;

    closed spec fn view(&self) -> Seq<u8> {
        self.bytes@
    }
}

impl FetchResult {
    #[verifier::type_invariant]
    spec fn wf(self) -> bool {
        self.bytes@.len() <= MAX_ALLOWED_BYTES
    }

    /// Admit a fully read body, or reject it with `InvalidPayload` when it
    /// exceeds the byte cap.
    pub fn accept_body(bytes: Vec<u8>) -> (r: Result<FetchResult, ClientError>)
        ensures
            match r {
                Ok(f) => f@ == bytes@ && bytes@.len() <= MAX_ALLOWED_BYTES,
                Err(e) => e == ClientError::InvalidPayload && bytes@.len() > MAX_ALLOWED_BYTES,
            },
    {
        if bytes.len() > MAX_ALLOWED_BYTES {
            Err(ClientError::InvalidPayload)
        } else {
            Ok(FetchResult { bytes })
        }
    }

    /// The fetched bytes; never more than the byte cap of them.
    pub fn bytes(&self) -> (b: &Vec<u8>)
        ensures
            b@ == self@,
            self@.len() <= MAX_ALLOWED_BYTES,
    {
        proof {
            use_type_invariant(self);
        }
        &self.bytes
    }

    /// How many bytes were fetched; never more than the byte cap.
    pub fn len(&self) -> (n: usize)
        ensures
            n == self@.len(),
            n <= MAX_ALLOWED_BYTES,
    {
        proof {
            use_type_invariant(self);
        }
        self.bytes.len()
    }

    /// The fetched bytes, owned; never more than the byte cap of them.
    pub fn into_bytes(self) -> (b: Vec<u8>)
        ensures
            b@ == self@,
            b@.len() <= MAX_ALLOWED_BYTES,
    {
        proof {
            use_type_invariant(&self);
        }
        self.bytes
    }
}

} // verus!
