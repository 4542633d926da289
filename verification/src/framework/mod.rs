//! How requests for the API are put together and how its responses are read.
//!
//! A client holds an environment, credentials and a configuration. For one
//! call it prepares a [`request::Request`], which the caller sends by the
//! transport of its choice, and concludes the call from what the transport
//! hands back: the decoded result, the failure that the API reported, a
//! body that could not be read, or the failure of the transport itself.

pub mod auth;
pub mod endpoint;
pub mod headers;
pub mod json;
pub mod request;
pub mod response;
pub mod url;

use crate::framework::auth::Credentials;
use crate::framework::endpoint::{
    describe, query_string, reports, serialize_query, Endpoint, Operation, OperationView,
};
use crate::framework::headers::{
    empty_header_map, header_entries, header_list, merge_defaults, merged, Header,
};
use crate::framework::json::{json_text, parsed_json, write_text};
use crate::framework::request::{Request, RequestView};
use crate::framework::response::{decode, decoded_from, ApiFailure, ApiResult, ApiSuccess, DecodeError};
use crate::framework::url::{joined_url, query_replaced, Url, UrlError, UrlFault};
use std::time::Duration;
use vstd::prelude::*;
use vstd::std_specs::convert::FromSpecImpl;
use vstd::utf8::encode_utf8;

verus! {

/// `reqwest::Error`, the failure of a transport. The library hands it on
/// and looks at nothing in it.
#[verifier::external_type_specification]
#[verifier::external_body]
pub struct ExReqwestError(::reqwest::Error);

/// The duration that `std::time::Duration::from_secs` makes of `secs` seconds.
pub uninterp spec fn duration_of_secs(secs: u64) -> Duration;

/// `std::time::Duration::from_secs`: the contract only gives the result
/// its name, `duration_of_secs`.
pub assume_specification[ Duration::from_secs ](secs: u64) -> (duration: Duration)
    ensures
        duration == duration_of_secs(secs),
;

/// Why no response of the API could be had.
#[derive(Debug)]
pub enum TransportError {
    /// The transport failed before a response arrived.
    ReqwestError(::reqwest::Error),
}

impl From<::reqwest::Error> for TransportError {
    fn from(error: ::reqwest::Error) -> (wrapped: TransportError) {
        TransportError::ReqwestError(error)
    }
}

impl FromSpecImpl<::reqwest::Error> for TransportError {
    open spec fn obeys_from_spec() -> bool {
        true
    }

    open spec fn from_spec(error: ::reqwest::Error) -> TransportError {
        TransportError::ReqwestError(error)
    }
}

/// Why a call brought no result. The three kinds are never mixed: the
/// transport failed, the body of the response could not be read, or the
/// API answered and turned the operation down.
#[derive(Debug)]
pub enum ClientError {
    Transport(TransportError),
    Decode(DecodeError),
    Api(ApiFailure),
}

/// The order in which a list endpoint sorts what it returns.
#[derive(Clone, Copy, Debug, PartialEq, Eq, Structural)]
pub enum OrderDirection {
    Ascending,
    Descending,
}

impl OrderDirection {
    /// The text that stands for the direction in a request.
    pub open spec fn wire_name(self) -> Seq<char> {
        match self {
            OrderDirection::Ascending => "asc"@,
            OrderDirection::Descending => "desc"@,
        }
    }

    /// Returns the text that stands for the direction in a request.
    pub fn as_str(&self) -> (name: &'static str)
        ensures
            name@ == self.wire_name(),
    {
        match self {
            OrderDirection::Ascending => "asc",
            OrderDirection::Descending => "desc",
        }
    }
}

/// Whether a search returns what meets all of its requirements or what
/// meets at least one of them.
#[derive(Clone, Copy, Debug, PartialEq, Eq, Structural)]
pub enum SearchMatch {
    /// Match all search requirements.
    All,
    /// Match at least one search requirement.
    Any,
}

impl SearchMatch {
    /// The text that stands for the choice in a request.
    pub open spec fn wire_name(self) -> Seq<char> {
        match self {
            SearchMatch::All => "all"@,
            SearchMatch::Any => "any"@,
        }
    }

    /// Returns the text that stands for the choice in a request.
    pub fn as_str(&self) -> (name: &'static str)
        ensures
            name@ == self.wire_name(),
    {
        match self {
            SearchMatch::All => "all",
            SearchMatch::Any => "any",
        }
    }
}

/// Which host and path the calls of a client go to.
#[derive(Debug)]
pub enum Environment {
    /// The production endpoint of the API.
    Production,
    /// A custom endpoint.
    Custom(Url),
}

impl Environment {
    /// The base URL of the environment, against which the path of an
    /// operation is resolved.
    pub open spec fn base_url(&self) -> Seq<char> {
        match self {
            Environment::Production => "https://api.cloudflare.com/client/v4/"@,
            Environment::Custom(url) => url@,
        }
    }
}

impl<'a> From<&'a Environment> for Url {
    /// The base URL of `environment`: a fixed address for production, and
    /// for a custom environment the URL that it was made with.
    fn from(environment: &'a Environment) -> (url: Url)
        ensures
            url@ == environment.base_url(),
            environment matches Environment::Custom(given) ==> url == given,
    {
        match environment {
            Environment::Production => Url::from_serialization(
                "https://api.cloudflare.com/client/v4/",
            ),
            Environment::Custom(url) => url.clone(),
        }
    }
}

/// The conversion is specified by the postcondition of `from`, over the
/// text of the URL.
impl<'a> FromSpecImpl<&'a Environment> for Url {
    open spec fn obeys_from_spec() -> bool {
        false
    }

    open spec fn from_spec(environment: &'a Environment) -> Url {
        arbitrary()
    }
}

/// An address of the Internet Protocol, as its bytes in network order.
#[derive(Clone, Copy, Debug, PartialEq, Eq)]
pub enum IpAddress {
    V4([u8; 4]),
    V6([u8; 16]),
}

/// Configuration for the API client. Allows users to customize its behaviour.
pub struct HttpApiClientConfig {
    /// The maximum time limit for an API request. If a request takes longer
    /// than this, it will be cancelled.
    pub http_timeout: Duration,
    /// A default set of HTTP headers which will be sent with each API request.
    pub default_headers: ::http::HeaderMap,
    /// A specific IP to use when establishing a connection.
    pub resolve_ip: Option<IpAddress>,
}

impl Default for HttpApiClientConfig {
    /// Thirty seconds for a request, no default headers, and no fixed address.
    fn default() -> (config: HttpApiClientConfig)
        ensures
            config.http_timeout == duration_of_secs(30),
            header_entries(config.default_headers) == Seq::<(Seq<char>, Seq<u8>)>::empty(),
            config.resolve_ip is None,
    {
        HttpApiClientConfig {
            http_timeout: Duration::from_secs(30),
            default_headers: empty_header_map(),
            resolve_ip: None,
        }
    }
}

/// What a transport hands back when a response arrived.
#[derive(Debug)]
pub struct Response {
    /// The status code. It is for the caller to look at: what the response
    /// means is decided by its body alone.
    pub status: u16,
    /// The body, as text.
    pub body: String,
}

/// Why no request could be made for an operation.
#[derive(Debug)]
pub enum RequestError {
    /// The path or the query does not make a URL with the base URL.
    Url(UrlError),
    /// The body cannot be written as JSON.
    Body(::serde_json::Error),
}

/// The kinds of [`RequestError`].
#[derive(Clone, Copy, Debug, PartialEq, Eq, Structural)]
pub enum RequestFault {
    /// The path or the query does not make a URL with the base URL.
    Url(UrlFault),
    /// The body holds a number that is no JSON number.
    Body,
}

impl RequestError {
    /// The kind of this error.
    pub open spec fn fault(self) -> RequestFault {
        match self {
            RequestError::Url(error) => RequestFault::Url(error.fault()),
            RequestError::Body(_) => RequestFault::Body,
        }
    }
}

/// The headers that an operation brings of its own: the content type of
/// its body, where it has one.
pub open spec fn own_headers(body: Option<Seq<char>>) -> Seq<(Seq<char>, Seq<u8>)> {
    match body {
        Some(_) => seq![("Content-Type"@, encode_utf8("application/json"@))],
        None => Seq::empty(),
    }
}

/// The query string of an operation, where it has a query.
pub open spec fn query_of(operation: OperationView) -> Option<Seq<char>> {
    match operation.query {
        Some(pairs) => Some(query_string(pairs)),
        None => None,
    }
}

/// The core of a Cloudflare API client: it plans the request of a call and
/// reads the outcome of the call. Sending is left to the caller, so that a
/// blocking and a non-blocking client share this one core.
pub struct HttpApiClient {
    environment: Environment,
    credentials: Credentials,
    config: HttpApiClientConfig,
}

impl HttpApiClient {
    /// The environment that the client was made with.
    pub closed spec fn environment(&self) -> Environment {
        self.environment
    }

    /// The credentials that the client was made with.
    pub closed spec fn credentials(&self) -> Credentials {
        self.credentials
    }

    /// The configuration that the client was made with.
    pub closed spec fn config(&self) -> HttpApiClientConfig {
        self.config
    }

    /// The URL of the request for `operation`: its path resolved against
    /// the base URL of the environment, with its query in place of any
    /// query that the path brought along.
    pub open spec fn planned_url(&self, operation: OperationView) -> Result<Seq<char>, RequestFault> {
        match joined_url(self.environment().base_url(), operation.path) {
            None => Err(RequestFault::Url(UrlFault::Parse)),
            Some(joined) => match query_replaced(joined, query_of(operation)) {
                Ok(url) => Ok(url),
                Err(fault) => Err(RequestFault::Url(fault)),
            },
        }
    }

    /// The request for `operation`, or why there is none.
    ///
    /// The request goes to [`planned_url`](Self::planned_url) with the verb
    /// of the operation and its body as JSON text. Its headers are those
    /// of the operation itself, then the default headers of the
    /// configuration that the operation does not override, and on all of
    /// them the headers of the credentials. Timeout and fixed address are
    /// those of the configuration.
    pub open spec fn planned(&self, operation: OperationView) -> Result<RequestView, RequestFault> {
        match self.planned_url(operation) {
            Err(fault) => Err(fault),
            Ok(url) => {
                let body = match operation.body {
                    Some(json) => json_text(json),
                    None => None,
                };
                if operation.body is Some && body is None {
                    Err(RequestFault::Body)
                } else {
                    Ok(
                        RequestView {
                            method: operation.method,
                            url,
                            headers: self.credentials()@.applied(
                                merged(
                                    own_headers(body),
                                    header_entries(self.config().default_headers),
                                ),
                            ),
                            body,
                            timeout: self.config().http_timeout,
                            resolve_ip: self.config().resolve_ip,
                        },
                    )
                }
            },
        }
    }

    /// Makes a client for `environment` that presents `credentials`.
    pub fn new(
        credentials: Credentials,
        config: HttpApiClientConfig,
        environment: Environment,
    ) -> (client: HttpApiClient)
        ensures
            client.environment() == environment,
            client.credentials() == credentials,
            client.config() == config,
    {
        HttpApiClient { environment, credentials, config }
    }

    /// Builds the request for `operation`.
    pub fn request_for(&self, operation: &Operation) -> (outcome: Result<Request, RequestError>)
        ensures
            match self.planned(operation@) {
                Ok(planned) => outcome matches Ok(request) && request@ == planned,
                Err(fault) => outcome matches Err(error) && error.fault() == fault,
            },
    {
        let base = Url::from(&self.environment);
        let joined = match base.join(operation.path.as_str()) {
            Ok(joined) => joined,
            Err(error) => {
                return Err(RequestError::Url(error));
            },
        };
        let query: Option<String> = match &operation.query {
            Some(pairs) => Some(serialize_query(pairs)),
            None => None,
        };
        let query_text: Option<&str> = match &query {
            Some(text) => Some(text.as_str()),
            None => None,
        };
        let url = match joined.with_query(query_text) {
            Ok(url) => url,
            Err(error) => {
                return Err(RequestError::Url(error));
            },
        };
        let body: Option<String> = match &operation.body {
            Some(json) => match write_text(json) {
                Ok(text) => Some(text),
                Err(error) => {
                    return Err(RequestError::Body(error));
                },
            },
            None => None,
        };
        let mut own: Vec<Header> = Vec::new();
        if body.is_some() {
            own.push(Header::text("Content-Type", "application/json"));
        }
        assert(own.deep_view() =~= own_headers(
            match body {
                Some(text) => Some(text@),
                None => None,
            },
        ));
        let defaults = header_list(&self.config.default_headers);
        let headers = merge_defaults(own, &defaults);
        let request = Request {
            method: operation.method,
            url,
            headers,
            body,
            timeout: self.config.http_timeout,
            resolve_ip: self.config.resolve_ip,
        };
        Ok(self.credentials.apply(request))
    }

    /// Builds the request for `endpoint`: asks it for its verb, path,
    /// query and body, and builds the request for what it reports.
    pub fn prepare<ResultType, E: Endpoint<ResultType>>(&self, endpoint: &E) -> (outcome: Result<
        Request,
        RequestError,
    >)
        ensures
            exists|operation: Operation| #[trigger]
                reports(endpoint, operation) && match self.planned(operation@) {
                    Ok(planned) => outcome matches Ok(request) && request@ == planned,
                    Err(fault) => outcome matches Err(error) && error.fault() == fault,
                },
    {
        let operation = describe(endpoint);
        let outcome = self.request_for(&operation);
        assert(reports(endpoint, operation));
        outcome
    }
}

/// Concludes a call from what the transport handed back.
///
/// Where the transport failed, the call fails with that failure, and no
/// body is looked at. Where a response arrived, its body alone decides,
/// as [`decoded_from`] says.
pub fn conclude<ResultType: ApiResult>(transport: Result<Response, ::reqwest::Error>) -> (outcome:
    Result<ApiSuccess<ResultType>, ClientError>)
    ensures
        match transport {
            Err(failure) => outcome matches Err(
                ClientError::Transport(TransportError::ReqwestError(error)),
            ) && error == failure,
            Ok(response) => match parsed_json(response.body@) {
                Some(json) => decoded_from(json, outcome),
                None => outcome matches Err(ClientError::Decode(DecodeError::Syntax(_))),
            },
        },
{
    match transport {
        Err(failure) => Err(ClientError::Transport(TransportError::from(failure))),
        Ok(response) => decode(response.body.as_str()),
    }
}

} // verus!
