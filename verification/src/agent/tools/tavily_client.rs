use vstd::prelude::*;
use vstd::string::*;
use std::time::Duration;
use crate::agent::tools::search_web::{topic_name, SearchWebInput};

verus! {

/// A client of the Tavily search API (`tavily::Tavily`), held as it is.
#[verifier::external_type_specification]
#[verifier::external_body]
pub struct ExTavily(::tavily::Tavily);

/// An error of the Tavily client (`tavily::TavilyError`), held as it is.
#[verifier::external_type_specification]
#[verifier::external_body]
pub struct ExTavilyError(::tavily::TavilyError);

/// A search request of the Tavily API (`tavily::SearchRequest`), held as it
/// is.
#[verifier::external_type_specification]
#[verifier::external_body]
pub struct ExSearchRequest(::tavily::SearchRequest);

/// The request that `tavily::SearchRequest::new` makes for an API key and a query.
pub uninterp spec fn search_request_for(api_key: Seq<char>, query: Seq<char>) -> ::tavily::SearchRequest;

/// The variants of `tavily::TavilyError`: an error that the API answered,
/// an HTTP failure, a refused configuration, or a rate limit.
#[derive(Debug, PartialEq, Eq, Structural, Copy, Clone)]
pub enum TavilyErrorKind {
    Api,
    Http,
    Configuration,
    RateLimit,
}

/// The variant of a Tavily error.
pub uninterp spec fn tavily_error_kind(e: ::tavily::TavilyError) -> TavilyErrorKind;

/// The settings that a built Tavily client holds: its API key, its timeout
/// in seconds and its number of retries.
pub uninterp spec fn client_settings(c: ::tavily::Tavily) -> (Seq<char>, u64, u32);

/// The request that `tavily::SearchRequest::new(api_key, query)` gives once
/// `max_results` and `topic` were set on it.
pub uninterp spec fn search_request_with(api_key: Seq<char>, query: Seq<char>, max_results: i32, topic: Seq<char>) -> ::tavily::SearchRequest;

/// Builds a client with `tavily::Tavily::builder(api_key)`, then
/// `TavilyBuilder::timeout` with `secs` seconds, `TavilyBuilder::max_retries`
/// and `TavilyBuilder::build`; the builder type is private to the `tavily`
/// crate, so the chain stands in one place. Trusted: an empty key is refused
/// with `TavilyError::Configuration`, as `build` checks first; with a key, the
/// only failure is that of building the HTTP client, `TavilyError::Http`; and a
/// built client holds the key, the timeout and the retries it was built with.
/// Whether a build with a key succeeds is not stated: building the HTTP client
/// can fail on the machine it runs on.
#[verifier::external_body]
fn build_tavily(api_key: &str, secs: u64, retries: u32) -> (r: Result<::tavily::Tavily, ::tavily::TavilyError>)
    ensures
        api_key@.len() == 0 ==> r is Err,
        r matches Err(e) ==> tavily_error_kind(e) == (if api_key@.len() == 0 {
            TavilyErrorKind::Configuration
        } else {
            TavilyErrorKind::Http
        }),
        r matches Ok(c) ==> client_settings(c) == (api_key@, secs, retries),
{
    ::tavily::Tavily::builder(api_key).timeout(Duration::from_secs(secs)).max_retries(retries).build()
}

/// Calls `tavily::SearchRequest::new`. Trusted: the request is `search_request_for`
/// the key and the query.
#[verifier::external_body]
fn new_search_request(api_key: &str, query: &str) -> (r: ::tavily::SearchRequest)
    ensures
        r == search_request_for(api_key@, query@),
{
    ::tavily::SearchRequest::new(api_key, query)
}

/// Calls `tavily::SearchRequest::new`, then `SearchRequest::max_results` and
/// `SearchRequest::topic` on the request. Trusted: the request is
/// `search_request_with` the key, the query, the number and the topic.
#[verifier::external_body]
pub(crate) fn new_search_request_with(api_key: &str, query: &str, max_results: i32, topic: &str) -> (r: ::tavily::SearchRequest)
    ensures
        r == search_request_with(api_key@, query@, max_results, topic@),
{
    ::tavily::SearchRequest::new(api_key, query).max_results(max_results).topic(topic)
}

/// The timeout of a search, in seconds.
pub const SEARCH_TIMEOUT_SECS: u64 = 60;

/// How many times a search is tried again.
pub const SEARCH_MAX_RETRIES: u32 = 5;

/// A Tavily client with the API key it was made with.
pub struct TavilyClient {
    pub client: ::tavily::Tavily,
    pub api_key: String,
}

impl TavilyClient {
    /// A client for `api_key`, built with a timeout of `SEARCH_TIMEOUT_SECS`
    /// seconds and `SEARCH_MAX_RETRIES` retries, or the error of the build: a
    /// configuration error for an empty key, else an HTTP error.
    pub fn new(api_key: &str) -> (r: Result<Self, ::tavily::TavilyError>)
        ensures
            r matches Ok(c) ==> c.api_key@ == api_key@,
            r matches Ok(c) ==> client_settings(c.client) == (api_key@, SEARCH_TIMEOUT_SECS, SEARCH_MAX_RETRIES),
            api_key@.len() == 0 ==> r is Err,
            r matches Err(e) ==> tavily_error_kind(e) == (if api_key@.len() == 0 {
                TavilyErrorKind::Configuration
            } else {
                TavilyErrorKind::Http
            }),
    {
        Self::from_build(api_key, build_tavily(api_key, SEARCH_TIMEOUT_SECS, SEARCH_MAX_RETRIES))
    }

    /// The client that `new` gives for `api_key` once the Tavily client was
    /// built: the built client with the key, or the error of the build.
    pub fn from_build(
        api_key: &str,
        built: Result<::tavily::Tavily, ::tavily::TavilyError>,
    ) -> (r: Result<Self, ::tavily::TavilyError>)
        ensures
            match built {
                Ok(c) => r matches Ok(t) && t.client == c && t.api_key@ == api_key@,
                Err(e) => r matches Err(f) && f == e,
            },
    {
        match built {
            Ok(client) => Ok(Self { client, api_key: String::from_str(api_key) }),
            Err(e) => Err(e),
        }
    }

    /// A search request for `query` with the key of this client.
    pub fn new_request(&self, query: &str) -> (r: ::tavily::SearchRequest)
        ensures
            r == search_request_for(self.api_key@, query@),
    {
        new_search_request(self.api_key.as_str(), query)
    }

    /// The request that the web-search tool sends for `input`: its query, its
    /// number of results and its topic, with the key of this client. The time
    /// range and the country of the input are not sent.
    pub fn search_request(&self, input: &SearchWebInput) -> (r: ::tavily::SearchRequest)
        ensures
            r == search_request_with(self.api_key@, input.query@, input.max_result, topic_name(input.topic)),
    {
        new_search_request_with(self.api_key.as_str(), input.query.as_str(), input.max_result, input.topic.as_str())
    }
}

} // verus!
