//! The schema registry's polling decisions: its configuration, which entity
//! tag to send back, whether a response carries a body worth reading, and
//! whether a fetched schema differs from the last one handed on.
use vstd::prelude::*;
use sha2::Digest;
use crate::bytes::{is_visible, is_visible_text};
use crate::decimal::{decimal_u64, parse_u64};

verus! {

/// The SHA-256 digest of a text's UTF-8 bytes.
pub uninterp spec fn sha256_of_text(s: Seq<char>) -> Seq<u8>;

/// What `url::Url::parse` makes of a text: its serialization, or nothing
/// where the text is not an absolute URL.
pub uninterp spec fn url_parse_of(s: Seq<char>) -> Option<Seq<char>>;

/// Relies on sha2::Sha256 (new, update, finalize): the digest depends on the
/// bytes alone and is 32 bytes long.
#[verifier::external_body]
fn sha256_text(s: &str) -> (r: Vec<u8>)
    ensures
        r@ == sha256_of_text(s@),
        r@.len() == 32,
{
    let mut hasher = sha2::Sha256::new();
    hasher.update(s.as_bytes());
    let digest: [u8; 32] = hasher.finalize().into();
    digest.to_vec()
}

/// Relies on url::Url::parse, and on the serialization that `String::from`
/// takes out of the parsed `Url`.
#[verifier::external_body]
fn parse_url(s: &str) -> (r: Option<String>)
    ensures
        match r {
            Some(u) => url_parse_of(s@) == Some(u@),
            None => url_parse_of(s@) is None,
        },
{
    match url::Url::parse(s) {
        Ok(u) => Some(String::from(u)),
        Err(_) => None,
    }
}

/// Seconds between polls when none is configured.
pub const DEFAULT_POLL_INTERVAL_SECS: u64 = 10;

/// Where and how often the registry is polled.
pub struct RegistryConfig {
    /// The endpoint URL, as `url` serializes it.
    pub endpoint: String,
    /// The CDN access key.
    pub key: String,
    pub poll_interval_secs: u64,
}

/// Why a registry configuration was refused.
#[derive(Clone, Copy, Debug, PartialEq, Eq, Structural)]
pub enum ConfigError {
    MissingEndpoint,
    InvalidEndpoint,
    MissingKey,
    InvalidPollInterval,
}

/// The sentence each configuration error is reported with.
pub open spec fn config_error_message(e: ConfigError) -> Seq<char> {
    match e {
        ConfigError::MissingEndpoint => "missing HIVE_CDN_ENDPOINT environment variable"@,
        ConfigError::InvalidEndpoint => "invalid CDN endpoint"@,
        ConfigError::MissingKey => "missing HIVE_CDN_KEY environment variable"@,
        ConfigError::InvalidPollInterval => "invalid poll interval format"@,
    }
}

impl ConfigError {
    /// A sentence saying what is wrong.
    pub fn message(&self) -> (r: &'static str)
        ensures
            r@ == config_error_message(*self),
    {
        match self {
            ConfigError::MissingEndpoint => "missing HIVE_CDN_ENDPOINT environment variable",
            ConfigError::InvalidEndpoint => "invalid CDN endpoint",
            ConfigError::MissingKey => "missing HIVE_CDN_KEY environment variable",
            ConfigError::InvalidPollInterval => "invalid poll interval format",
        }
    }
}

pub open spec fn opt_text(o: Option<String>) -> Option<Seq<char>> {
    match o {
        Some(s) => Some(s@),
        None => None,
    }
}

/// The configuration, as (endpoint, key, seconds), that the given values make,
/// or the first check they fail: endpoint present, endpoint a URL, key
/// present, interval (10 where absent) a decimal `u64`.
pub open spec fn config_outcome(
    endpoint: Option<Seq<char>>,
    key: Option<Seq<char>>,
    poll_interval: Option<Seq<char>>,
) -> Result<(Seq<char>, Seq<char>, u64), ConfigError> {
    match endpoint {
        None => Err(ConfigError::MissingEndpoint),
        Some(e) => match url_parse_of(e) {
            None => Err(ConfigError::InvalidEndpoint),
            Some(u) => match key {
                None => Err(ConfigError::MissingKey),
                Some(k) => match poll_interval {
                    None => Ok((u, k, DEFAULT_POLL_INTERVAL_SECS)),
                    Some(p) => match decimal_u64(p) {
                        None => Err(ConfigError::InvalidPollInterval),
                        Some(n) => Ok((u, k, n)),
                    },
                },
            },
        },
    }
}

impl RegistryConfig {
    /// Builds the configuration from the endpoint, the key and the poll
    /// interval in seconds, each as text where it was given. The checks run
    /// in that order and the first that fails gives the error.
    pub fn from_values(endpoint: Option<String>, key: Option<String>, poll_interval: Option<String>) -> (r:
        Result<RegistryConfig, ConfigError>)
        ensures
            match r {
                Ok(c) => config_outcome(opt_text(endpoint), opt_text(key), opt_text(poll_interval))
                    == Ok::<(Seq<char>, Seq<char>, u64), ConfigError>(
                    (c.endpoint@, c.key@, c.poll_interval_secs),
                ),
                Err(e) => config_outcome(opt_text(endpoint), opt_text(key), opt_text(poll_interval))
                    == Err::<(Seq<char>, Seq<char>, u64), ConfigError>(e),
            },
    {
        let endpoint = match endpoint {
            Some(e) => e,
            None => return Err(ConfigError::MissingEndpoint),
        };
        let endpoint = match parse_url(endpoint.as_str()) {
            Some(u) => u,
            None => return Err(ConfigError::InvalidEndpoint),
        };
        let key = match key {
            Some(k) => k,
            None => return Err(ConfigError::MissingKey),
        };
        let poll_interval_secs = match poll_interval {
            Some(p) => match parse_u64(p.as_str()) {
                Some(n) => n,
                None => return Err(ConfigError::InvalidPollInterval),
            },
            None => DEFAULT_POLL_INTERVAL_SECS,
        };
        Ok(RegistryConfig { endpoint, key, poll_interval_secs })
    }
}

/// The HTTP status of a response that says the schema has not changed.
pub const NOT_MODIFIED: u16 = 304;

/// What the poller knows between polls.
pub struct PollStateView {
    /// The entity tag to send back in `If-None-Match`.
    pub etag: Option<Seq<u8>>,
    /// The digest of the last schema handed on.
    pub last_digest: Option<Seq<u8>>,
}

pub struct PollState {
    etag: Option<Vec<u8>>,
    last_digest: Option<Vec<u8>>,
}

pub open spec fn opt_bytes(o: Option<Vec<u8>>) -> Option<Seq<u8>> {
    match o {
        Some(v) => Some(v@),
        None => None,
    }
}

/// The entity tag kept from a response's `ETag` header: its value where it
/// reads as text, else none.
pub open spec fn kept_etag(header: Option<Seq<u8>>) -> Option<Seq<u8>> {
    match header {
        Some(v) => if is_visible_text(v) {
            Some(v)
        } else {
            None
        },
        None => None,
    }
}

impl View for PollState {
    type V = PollStateView;

    closed spec fn view(&self) -> PollStateView {
        PollStateView { etag: opt_bytes(self.etag), last_digest: opt_bytes(self.last_digest) }
    }
}

impl PollState {
    /// The state before the first poll: no entity tag, no schema handed on.
    pub fn new() -> (r: PollState)
        ensures
            r@.etag is None,
            r@.last_digest is None,
    {
        PollState { etag: None, last_digest: None }
    }

    /// The entity tag to send in `If-None-Match`, if any.
    pub fn etag(&self) -> (r: Option<&Vec<u8>>)
        ensures
            match r {
                Some(v) => self@.etag == Some(v@),
                None => self@.etag is None,
            },
    {
        match &self.etag {
            Some(v) => Some(v),
            None => None,
        }
    }

    /// The digest of the last schema handed on, if any.
    pub fn last_digest(&self) -> (r: Option<&Vec<u8>>)
        ensures
            match r {
                Some(v) => self@.last_digest == Some(v@),
                None => self@.last_digest is None,
            },
    {
        match &self.last_digest {
            Some(v) => Some(v),
            None => None,
        }
    }

    /// Takes a response's status and `ETag` header: keeps the tag for the
    /// next poll and says whether the body is to be read, which it is unless
    /// the registry answered that nothing changed.
    pub fn on_response_head(&mut self, status: u16, etag: Option<Vec<u8>>) -> (read_body: bool)
        ensures
            final(self)@.etag == kept_etag(opt_bytes(etag)),
            final(self)@.last_digest == old(self)@.last_digest,
            read_body == (status != NOT_MODIFIED),
    {
        self.etag = match etag {
            Some(v) => if is_visible(v.as_slice()) {
                Some(v)
            } else {
                None
            },
            None => None,
        };
        status != NOT_MODIFIED
    }

    /// Takes the digest of a fetched schema and says whether the schema is
    /// new, that is, whether its digest differs from the last one handed on;
    /// the digest is remembered either way.
    pub fn on_digest(&mut self, digest: Vec<u8>) -> (changed: bool)
        ensures
            changed == (old(self)@.last_digest != Some(digest@)),
            final(self)@.last_digest == Some(digest@),
            final(self)@.etag == old(self)@.etag,
    {
        let changed = match &self.last_digest {
            Some(last) => !crate::bytes::same_bytes(last.as_slice(), digest.as_slice()),
            None => true,
        };
        self.last_digest = Some(digest);
        changed
    }

    /// Takes a fetched schema and says whether to hand it on: only when its
    /// SHA-256 digest differs from that of the last schema handed on.
    pub fn on_schema(&mut self, schema: &String) -> (changed: bool)
        ensures
            changed == (old(self)@.last_digest != Some(sha256_of_text(schema@))),
            final(self)@.last_digest == Some(sha256_of_text(schema@)),
            final(self)@.etag == old(self)@.etag,
    {
        let digest = sha256_text(schema.as_str());
        self.on_digest(digest)
    }
}

/// Whether a fetch of the registry succeeded, for the fetch counter.
#[derive(Clone, Copy, Debug, PartialEq, Eq, Structural)]
pub enum FetchStatus {
    Success,
    Failure,
}

/// The event recorded for one attempted fetch of the registry.
pub struct FetchRecord {
    pub status: FetchStatus,
    /// The error code and message of a failed fetch.
    pub error: Option<(&'static str, String)>,
}

/// The error code that failed registry fetches are logged under.
pub const FETCH_FAILURE_CODE: &'static str = "HIVE_REGISTRY_FETCH_FAILURE";

/// The record of a successful fetch.
pub fn fetch_succeeded() -> (r: FetchRecord)
    ensures
        r.status == FetchStatus::Success,
        r.error is None,
{
    FetchRecord { status: FetchStatus::Success, error: None }
}

/// The record of a failed fetch: counted as a failure and logged with the
/// error's text under the registry's failure code.
pub fn log_fetch_failure(message: String) -> (r: FetchRecord)
    ensures
        r.status == FetchStatus::Failure,
        r matches FetchRecord { error: Some((code, m)), .. } && code@ == FETCH_FAILURE_CODE@ && m@
            == message@,
{
    FetchRecord { status: FetchStatus::Failure, error: Some((FETCH_FAILURE_CODE, message)) }
}

} // verus!
