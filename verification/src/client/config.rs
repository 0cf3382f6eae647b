//! Client configuration, the client itself and the base URL it sends to.

use std::time::Duration;
use vstd::prelude::*;
use vstd::string::*;

use super::error::{
    ApiErrorBody, IndexerClientError, api_error_code, api_error_message, is_api_failure,
    is_transport_failure, map_api_error,
};
use super::transport::{
    build_client, builder_with_timeout, client_total_timeout, duration_from_secs, duration_of_secs,
    http_error_from_builder, http_error_message, http_error_times_out, new_client_builder,
};

verus! {

/// Seconds a request may take when no timeout is configured.
pub const DEFAULT_TIMEOUT_SECS: u64 = 30;

/// Where the indexer is and how long a request may take.
#[derive(Debug, Clone)]
pub struct IndexerClientConfig {
    pub base_url: String,
    pub timeout: Duration,
}

impl IndexerClientConfig {
    /// A configuration for the indexer at `base_url`, with the default
    /// timeout of `DEFAULT_TIMEOUT_SECS` seconds.
    pub fn new(base_url: &str) -> (c: Self)
        ensures
            c.base_url@ == base_url@,
            c.timeout == duration_of_secs(DEFAULT_TIMEOUT_SECS),
    {
        IndexerClientConfig {
            base_url: String::from_str(base_url),
            timeout: duration_from_secs(DEFAULT_TIMEOUT_SECS),
        }
    }

    /// The same configuration with another timeout.
    pub fn with_timeout(self, timeout: Duration) -> (c: Self)
        ensures
            c.base_url == self.base_url,
            c.timeout == timeout,
    {
        let mut c = self;
        c.timeout = timeout;
        c
    }
}

/// `s` without the '/' characters at its end.
pub open spec fn without_trailing_slashes(s: Seq<char>) -> Seq<char>
    decreases s.len(),
{
    if s.len() > 0 && s.last() == '/' {
        without_trailing_slashes(s.drop_last())
    } else {
        s
    }
}

/// Removing the trailing slashes leaves a prefix of `s` that does not end
/// with '/', and `s` is that prefix followed by slashes only; removing them
/// once more changes nothing.
pub proof fn lemma_without_trailing_slashes(s: Seq<char>)
    ensures
        s.take(without_trailing_slashes(s).len() as int) == without_trailing_slashes(s),
        without_trailing_slashes(s).len() <= s.len(),
        without_trailing_slashes(s).len() > 0 ==> without_trailing_slashes(s).last() != '/',
        forall|i: int|
            without_trailing_slashes(s).len() <= i < s.len() ==> #[trigger] s[i] == '/',
        without_trailing_slashes(without_trailing_slashes(s)) == without_trailing_slashes(s),
    decreases s.len(),
{
    if s.len() > 0 && s.last() == '/' {
        let t = s.drop_last();
        lemma_without_trailing_slashes(t);
        let r = without_trailing_slashes(t);
        assert(s.take(r.len() as int) =~= t.take(r.len() as int));
        assert forall|i: int| r.len() <= i < s.len() implies #[trigger] s[i] == '/' by {
            if i < t.len() {
                assert(s[i] == t[i]);
            }
        }
    } else {
        assert(s.take(s.len() as int) =~= s);
    }
}

/// Copies `s` without the '/' characters at its end.
pub fn trim_trailing_slashes(s: &str) -> (r: String)
    ensures
        r@ == without_trailing_slashes(s@),
{
    let mut end = s.unicode_len();
    assert(s@.take(end as int) =~= s@);
    while end > 0 && s.get_char(end - 1) == '/'
        invariant
            end <= s@.len(),
            without_trailing_slashes(s@.take(end as int)) == without_trailing_slashes(s@),
        decreases end,
    {
        assert(s@.take(end as int).drop_last() =~= s@.take(end - 1));
        end = end - 1;
    }
    let kept = s.substring_char(0, end);
    assert(kept@ =~= s@.take(end as int));
    String::from_str(kept)
}

/// A response status that the indexer uses for success (2xx).
pub open spec fn is_success(status: u16) -> bool {
    200 <= status < 300
}

/// Whether a response with `status` carries a result rather than an error.
pub fn is_success_status(status: u16) -> (r: bool)
    ensures
        r == is_success(status),
        r <==> 200 <= status <= 299,
{
    200 <= status && status < 300
}

/// Judges a response: `Ok` for a success status, and otherwise the error
/// that `map_api_error` gives for the status, the envelope read from the
/// body (if it is one) and the body.
pub fn check_response(status: u16, envelope: Option<ApiErrorBody>, body: &[u8]) -> (r: Result<
    (),
    IndexerClientError,
>)
    ensures
        r is Ok <==> is_success(status),
        r is Ok <==> 200 <= status <= 299,
        r matches Err(e) ==> is_api_failure(
            e,
            status,
            api_error_code(envelope),
            api_error_message(envelope, body@),
        ),
{
    if is_success_status(status) {
        Ok(())
    } else {
        Err(map_api_error(status, envelope, body))
    }
}

/// A client of the indexer at a base URL.
#[derive(Debug, Clone)]
pub struct IndexerClient {
    base_url: String,
    http: reqwest::Client,
}

impl IndexerClient {
    /// The base URL that request paths are appended to.
    pub closed spec fn base_url_text(&self) -> Seq<char> {
        self.base_url@
    }

    /// The HTTP client that sends the requests.
    pub closed spec fn http_client(&self) -> reqwest::Client {
        self.http
    }

    /// A client for the indexer at `base_url` with the default timeout.
    pub fn new(base_url: &str) -> (r: Result<Self, IndexerClientError>)
        ensures
            r matches Ok(c) ==> c.base_url_text() == without_trailing_slashes(base_url@),
            r matches Ok(c) ==> client_total_timeout(c.http_client()) == Some(
                duration_of_secs(DEFAULT_TIMEOUT_SECS),
            ),
            r matches Err(e) ==> e is Timeout || e is InvalidConfig || e is Transport,
    {
        Self::with_config(IndexerClientConfig::new(base_url))
    }

    /// A client for `config`: its HTTP client times out after
    /// `config.timeout`, and its base URL is `config.base_url` without
    /// trailing slashes. Fails when the HTTP client cannot be built.
    pub fn with_config(config: IndexerClientConfig) -> (r: Result<Self, IndexerClientError>)
        ensures
            r matches Ok(c) ==> c.base_url_text() == without_trailing_slashes(config.base_url@),
            r matches Ok(c) ==> client_total_timeout(c.http_client()) == Some(config.timeout),
            r matches Err(e) ==> e is Timeout || e is InvalidConfig || e is Transport,
    {
        let builder = builder_with_timeout(new_client_builder(), config.timeout);
        let built = build_client(builder);
        Self::from_built(config.base_url.as_str(), built)
    }

    /// A client at `base_url` (without its trailing slashes) around the
    /// outcome of building its HTTP client; a build failure is mapped onto
    /// an `IndexerClientError`.
    pub fn from_built(base_url: &str, built: Result<reqwest::Client, reqwest::Error>) -> (r: Result<
        Self,
        IndexerClientError,
    >)
        ensures
            built is Ok <==> r is Ok,
            r matches Ok(c) ==> c.base_url_text() == without_trailing_slashes(base_url@)
                && c.http_client() == built->Ok_0,
            r matches Err(e) ==> e is Timeout || e is InvalidConfig || e is Transport,
            built matches Err(err) ==> is_transport_failure(
                r->Err_0,
                http_error_times_out(err),
                http_error_from_builder(err),
                http_error_message(err),
            ),
    {
        match built {
            Ok(http) => Ok(IndexerClient { base_url: trim_trailing_slashes(base_url), http }),
            Err(error) => Err(IndexerClientError::from_http_error(error)),
        }
    }

    /// The base URL that request paths are appended to.
    pub fn base_url(&self) -> (r: &str)
        ensures
            r@ == self.base_url_text(),
    {
        self.base_url.as_str()
    }

    /// The HTTP client that sends the requests.
    pub fn http(&self) -> (r: &reqwest::Client)
        ensures
            *r == self.http_client(),
    {
        &self.http
    }

    /// The URL of `path` at the indexer: the base URL followed by `path`.
    pub fn url_for(&self, path: &str) -> (r: String)
        ensures
            r@ == self.base_url_text() + path@,
    {
        let mut url = self.base_url.clone();
        url.append(path);
        url
    }
}

} // verus!
