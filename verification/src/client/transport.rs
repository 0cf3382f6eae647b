//! The HTTP layer the client is built on (reqwest), seen from verified code
//! as opaque values behind trusted calls.

use std::time::Duration;
use vstd::prelude::*;

verus! {

/// The HTTP client that sends the requests.
#[verifier::external_type_specification]
#[verifier::external_body]
pub struct ExHttpClient(reqwest::Client);

/// The builder of an HTTP client.
#[verifier::external_type_specification]
#[verifier::external_body]
pub struct ExHttpClientBuilder(reqwest::ClientBuilder);

/// A failure of the HTTP layer.
#[verifier::external_type_specification]
#[verifier::external_body]
pub struct ExHttpError(reqwest::Error);

/// The span that `Duration::from_secs` makes of a number of seconds.
pub uninterp spec fn duration_of_secs(secs: u64) -> Duration;

/// Calls `std::time::Duration::from_secs`. Trusted: the span depends on the
/// number of seconds alone.
#[verifier::external_body]
pub(crate) fn duration_from_secs(secs: u64) -> (d: Duration)
    ensures
        d == duration_of_secs(secs),
{
    Duration::from_secs(secs)
}

/// `Clone` of `std::time::Duration`, which is `Copy`: the clone is the same
/// span.
pub assume_specification[ <Duration as Clone>::clone ](d: &Duration) -> (r: Duration)
    ensures
        r == *d,
;

/// `Clone` of `reqwest::Client`: another handle on the same connection
/// pool. The client is opaque here: nothing is stated of the clone.
pub assume_specification[ <reqwest::Client as Clone>::clone ](c: &reqwest::Client) -> reqwest::Client;

/// Calls `reqwest::Client::builder`. The builder is opaque here: nothing is
/// stated of it.
#[verifier::external_body]
pub(crate) fn new_client_builder() -> reqwest::ClientBuilder {
    reqwest::Client::builder()
}

/// The total timeout that a client builder holds for each request
/// (`config.timeout` in reqwest's source), `None` for no timeout.
pub uninterp spec fn builder_total_timeout(builder: reqwest::ClientBuilder) -> Option<Duration>;

/// The total timeout that a client applies to each request
/// (`total_timeout` in reqwest's source), `None` for no timeout.
pub uninterp spec fn client_total_timeout(client: reqwest::Client) -> Option<Duration>;

/// Calls `reqwest::ClientBuilder::timeout`. Trusted: the builder then holds
/// `timeout` as the total timeout of each request (the source sets
/// `config.timeout = Some(timeout)`). Nothing else is stated of the builder.
#[verifier::external_body]
pub(crate) fn builder_with_timeout(
    builder: reqwest::ClientBuilder,
    timeout: Duration,
) -> (r: reqwest::ClientBuilder)
    ensures
        builder_total_timeout(r) == Some(timeout),
{
    builder.timeout(timeout)
}

/// Calls `reqwest::ClientBuilder::build`. Whether it succeeds depends on the
/// machine (TLS and resolver set-up), so success is not stated. Trusted: a
/// client that is built applies the builder's total timeout to each request
/// (the source copies `config.timeout` into `total_timeout`).
#[verifier::external_body]
pub(crate) fn build_client(
    builder: reqwest::ClientBuilder,
) -> (r: Result<reqwest::Client, reqwest::Error>)
    ensures
        r matches Ok(c) ==> client_total_timeout(c) == builder_total_timeout(builder),
{
    builder.build()
}

/// What `reqwest::Error::is_timeout` answers for an error: whether a
/// timeout is found in the error's source chain.
pub uninterp spec fn http_error_times_out(error: reqwest::Error) -> bool;

/// What `reqwest::Error::is_builder` answers for an error: whether it arose
/// while building a client or a request.
pub uninterp spec fn http_error_from_builder(error: reqwest::Error) -> bool;

/// The text that the `Display` impl of `reqwest::Error` writes for an error.
pub uninterp spec fn http_error_message(error: reqwest::Error) -> Seq<char>;

/// Calls `reqwest::Error::is_timeout`. Trusted: the answer depends on the
/// error alone (the source code reads only the error's source chain).
#[verifier::external_body]
pub(crate) fn error_is_timeout(error: &reqwest::Error) -> (r: bool)
    ensures
        r == http_error_times_out(*error),
{
    error.is_timeout()
}

/// Calls `reqwest::Error::is_builder`. Trusted: the answer depends on the
/// error alone (the source code reads only the error's kind).
#[verifier::external_body]
pub(crate) fn error_is_builder(error: &reqwest::Error) -> (r: bool)
    ensures
        r == http_error_from_builder(*error),
{
    error.is_builder()
}

/// Calls the `Display` impl of `reqwest::Error`. Trusted: the text depends
/// on the error alone (its kind, URL and source).
#[verifier::external_body]
pub(crate) fn http_error_text(error: &reqwest::Error) -> (r: String)
    ensures
        r@ == http_error_message(*error),
{
    error.to_string()
}

} // verus!
