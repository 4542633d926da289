use cloudflare::framework::auth::Credentials;
use cloudflare::framework::endpoint::{Endpoint, Operation};
use cloudflare::framework::headers::Header;
use cloudflare::framework::json::{Json, JsonNumber};
use cloudflare::framework::request::Method;
use cloudflare::framework::response::{ApiError, DecodeError};
use cloudflare::framework::url::{Url, UrlError};
use cloudflare::framework::{
    conclude, ClientError, Environment, HttpApiClient, HttpApiClientConfig, IpAddress,
    RequestError, Response, TransportError,
};
use std::time::Duration;

struct ListZones;

impl Endpoint<Json> for ListZones {
    fn method(&self) -> Method {
        Method::Get
    }

    fn path(&self) -> String {
        "zones".to_owned()
    }
}

fn token_client(config: HttpApiClientConfig, environment: Environment) -> HttpApiClient {
    HttpApiClient::new(
        Credentials::UserAuthToken { token: "secret".to_owned() },
        config,
        environment,
    )
}

fn operation(path: &str) -> Operation {
    Operation { method: Method::Get, path: path.to_owned(), query: None, body: None }
}

fn transport_failure() -> reqwest::Error {
    match reqwest::Client::new().get("not a url").build() {
        Err(error) => error,
        Ok(_) => panic!("a request for no URL should not build"),
    }
}

#[test]
fn default_config_has_thirty_seconds_no_headers_and_no_address() {
    let config = HttpApiClientConfig::default();
    assert_eq!(config.http_timeout, Duration::from_secs(30));
    assert!(config.default_headers.is_empty());
    assert_eq!(config.default_headers.len(), 0);
    assert_eq!(config.resolve_ip, None);
}

#[test]
fn production_client_with_a_token_lists_zones() {
    let client = token_client(HttpApiClientConfig::default(), Environment::Production);
    let request = client.prepare(&ListZones).unwrap();
    assert_eq!(request.method, Method::Get);
    assert_eq!(request.url.as_str(), "https://api.cloudflare.com/client/v4/zones");
    assert!(request.headers == vec![Header::text("Authorization", "Bearer secret")]);
    assert_eq!(request.body, None);
    assert_eq!(request.timeout, Duration::from_secs(30));
    assert_eq!(request.resolve_ip, None);
}

#[test]
fn request_goes_to_the_custom_environment() {
    let environment = Environment::Custom(Url::parse("http://localhost:8787/client/v4/").unwrap());
    let client = token_client(HttpApiClientConfig::default(), environment);
    let request = client.request_for(&operation("zones/abc/dns_records")).unwrap();
    assert_eq!(request.url.as_str(), "http://localhost:8787/client/v4/zones/abc/dns_records");
}

#[test]
fn request_carries_query_body_and_content_type() {
    let client = HttpApiClient::new(
        Credentials::UserAuthKey { email: "e@x.org".to_owned(), key: "k".to_owned() },
        HttpApiClientConfig::default(),
        Environment::Production,
    );
    let described = Operation {
        method: Method::Post,
        path: "zones".to_owned(),
        query: Some(vec![
            ("name".to_owned(), "example.com".to_owned()),
            ("match".to_owned(), "all".to_owned()),
        ]),
        body: Some(Json::Object(vec![(
            "ttl".to_owned(),
            Json::Number(JsonNumber::PosInt(120)),
        )])),
    };
    let request = client.request_for(&described).unwrap();
    assert_eq!(request.method, Method::Post);
    assert_eq!(
        request.url.as_str(),
        "https://api.cloudflare.com/client/v4/zones?name=example.com&match=all"
    );
    assert_eq!(request.body, Some("{\"ttl\":120}".to_owned()));
    assert!(
        request.headers
            == vec![
                Header::text("Content-Type", "application/json"),
                Header::text("X-Auth-Email", "e@x.org"),
                Header::text("X-Auth-Key", "k"),
            ]
    );
}

#[test]
fn query_of_the_operation_takes_the_place_of_a_query_in_the_path() {
    let client = token_client(HttpApiClientConfig::default(), Environment::Production);
    let without = client.request_for(&operation("zones?page=4")).unwrap();
    assert_eq!(without.url.as_str(), "https://api.cloudflare.com/client/v4/zones");
    let mut with = operation("zones?page=4");
    with.query = Some(vec![("page".to_owned(), "5".to_owned())]);
    assert_eq!(
        client.request_for(&with).unwrap().url.as_str(),
        "https://api.cloudflare.com/client/v4/zones?page=5"
    );
}

#[test]
fn config_is_applied_to_every_request() {
    let mut config = HttpApiClientConfig::default();
    config.http_timeout = Duration::from_millis(1500);
    config.resolve_ip = Some(IpAddress::V6([0, 0, 0, 0, 0, 0, 0, 0, 0, 0, 0, 0, 0, 0, 0, 1]));
    config.default_headers.insert("user-agent", http::HeaderValue::from_static("probe/1.0"));
    config.default_headers.insert("authorization", http::HeaderValue::from_static("Basic stale"));
    config.default_headers.insert("content-type", http::HeaderValue::from_static("text/plain"));
    let client = token_client(config, Environment::Production);
    for path in vec!["zones", "user"] {
        let mut described = operation(path);
        described.body = Some(Json::Null);
        let request = client.request_for(&described).unwrap();
        assert_eq!(request.timeout, Duration::from_millis(1500));
        assert_eq!(
            request.resolve_ip,
            Some(IpAddress::V6([0, 0, 0, 0, 0, 0, 0, 0, 0, 0, 0, 0, 0, 0, 0, 1]))
        );
        assert_eq!(request.body, Some("null".to_owned()));
        assert!(
            request.headers
                == vec![
                    Header::text("Content-Type", "application/json"),
                    Header::text("user-agent", "probe/1.0"),
                    Header::text("Authorization", "Bearer secret"),
                ]
        );
    }
}

#[test]
fn default_headers_may_hold_bytes_that_are_no_text() {
    let mut config = HttpApiClientConfig::default();
    config.default_headers.insert("x-raw", http::HeaderValue::from_bytes(&[0xff, 0x80]).unwrap());
    let client = token_client(config, Environment::Production);
    let request = client.request_for(&operation("zones")).unwrap();
    assert!(request.headers[0] == Header { name: "x-raw".to_owned(), value: vec![0xff, 0x80] });
    assert_eq!(request.headers.len(), 2);
}

#[test]
fn a_path_that_makes_no_url_gives_no_request() {
    let client = token_client(HttpApiClientConfig::default(), Environment::Production);
    assert!(matches!(
        client.request_for(&operation("//[bad")),
        Err(RequestError::Url(UrlError::Parse(_)))
    ));
}

#[test]
fn a_body_that_is_no_json_gives_no_request() {
    let client = token_client(HttpApiClientConfig::default(), Environment::Production);
    let mut described = operation("zones");
    described.body = Some(Json::Number(JsonNumber::Float("abc".to_owned())));
    assert!(matches!(client.request_for(&described), Err(RequestError::Body(_))));
}

#[test]
fn a_failure_of_the_transport_is_a_transport_error() {
    let outcome = conclude::<Json>(Err(transport_failure()));
    assert!(matches!(outcome, Err(ClientError::Transport(TransportError::ReqwestError(_)))));
}

#[test]
fn a_refused_connection_is_a_transport_error() {
    let client = reqwest::blocking::Client::builder()
        .timeout(Duration::from_secs(3))
        .build()
        .unwrap();
    let sent = client.get("http://127.0.0.1:9/client/v4/zones").send();
    let transport = match sent {
        Ok(_) => panic!("nothing should answer at that address"),
        Err(error) => Err(error),
    };
    assert!(matches!(
        conclude::<Json>(transport),
        Err(ClientError::Transport(TransportError::ReqwestError(_)))
    ));
}

#[test]
fn transport_error_is_made_from_the_failure_of_the_transport() {
    let error = TransportError::from(transport_failure());
    assert!(matches!(error, TransportError::ReqwestError(_)));
}

#[test]
fn a_response_is_read_by_its_body_whatever_its_status() {
    let failed = "{\"success\": false, \"errors\": [{\"code\": 1003, \"message\": \"Invalid\"}]}";
    for status in vec![200u16, 400, 404, 500] {
        let outcome = conclude::<Json>(Ok(Response { status, body: failed.to_owned() }));
        match outcome {
            Err(ClientError::Api(failure)) => assert_eq!(
                failure.errors,
                vec![ApiError { code: 1003, message: "Invalid".to_owned(), error_chain: Vec::new() }]
            ),
            _ => panic!("the response should be a failure of the API"),
        }
    }
    let succeeded = "{\"success\": true, \"result\": 5}";
    for status in vec![200u16, 403, 502] {
        let outcome = conclude::<Json>(Ok(Response { status, body: succeeded.to_owned() }));
        assert_eq!(outcome.unwrap().result, Json::Number(JsonNumber::PosInt(5)));
    }
}

#[test]
fn a_response_with_an_unreadable_body_is_a_decode_error() {
    let outcome = conclude::<Json>(Ok(Response { status: 200, body: "oops".to_owned() }));
    assert!(matches!(outcome, Err(ClientError::Decode(DecodeError::Syntax(_)))));
}
