use cloudflare::framework::url::{Url, UrlError};
use cloudflare::framework::Environment;

#[test]
fn production_resolves_to_the_fixed_url() {
    let url = Url::from(&Environment::Production);
    assert_eq!(url.as_str(), "https://api.cloudflare.com/client/v4/");
}

#[test]
fn production_resolves_the_same_every_time() {
    let environment = Environment::Production;
    let first = Url::from(&environment);
    let second = Url::from(&environment);
    assert_eq!(first.as_str(), second.as_str());
    let other = Url::from(&Environment::Production);
    assert_eq!(first.as_str(), other.as_str());
}

#[test]
fn custom_resolves_to_the_url_given() {
    let given = Url::parse("https://example.com/api/v4/").unwrap();
    let text = given.as_str().to_owned();
    let environment = Environment::Custom(given);
    assert_eq!(Url::from(&environment).as_str(), text);
    assert_eq!(Url::from(&environment).as_str(), "https://example.com/api/v4/");
}

#[test]
fn custom_keeps_query_and_fragment_of_the_url_given() {
    let given = Url::parse("http://localhost:8080/base?x=1#top").unwrap();
    let environment = Environment::Custom(given);
    assert_eq!(Url::from(&environment).as_str(), "http://localhost:8080/base?x=1#top");
}

#[test]
fn into_gives_the_base_url_too() {
    let url: Url = (&Environment::Production).into();
    assert_eq!(url.as_str(), "https://api.cloudflare.com/client/v4/");
}

#[test]
fn malformed_text_is_rejected_when_the_url_is_made() {
    assert!(matches!(Url::parse("not a url"), Err(UrlError::Parse(_))));
    assert!(matches!(Url::parse(""), Err(UrlError::Parse(_))));
    assert!(matches!(Url::parse("https://"), Err(UrlError::Parse(_))));
}

#[test]
fn parse_gives_the_serialization_of_the_parser() {
    let url = Url::parse("HTTP://EXAMPLE.com").unwrap();
    assert_eq!(url.as_str(), "http://example.com/");
}

#[test]
fn clone_keeps_the_url() {
    let url = Url::parse("https://example.com/a").unwrap();
    let copy = url.clone();
    assert_eq!(copy.as_str(), url.as_str());
}

#[test]
fn join_resolves_against_a_base_with_a_trailing_slash() {
    let base = Url::parse("https://example.net/a/b/").unwrap();
    assert_eq!(base.join("c.png").unwrap().as_str(), "https://example.net/a/b/c.png");
}

#[test]
fn join_replaces_the_last_segment_of_a_base_without_a_trailing_slash() {
    let base = Url::parse("https://example.net/a/b.html").unwrap();
    assert_eq!(base.join("c.png").unwrap().as_str(), "https://example.net/a/c.png");
}

#[test]
fn join_takes_an_absolute_reference_as_it_is() {
    let base = Url::parse("https://alice.com/a").unwrap();
    assert_eq!(base.join("http://eve.com/b").unwrap().as_str(), "http://eve.com/b");
    assert_eq!(base.join("/v1/meta").unwrap().as_str(), "https://alice.com/v1/meta");
}

#[test]
fn join_rejects_a_reference_that_is_no_url() {
    let base = Url::parse("https://example.net/a/").unwrap();
    assert!(matches!(base.join("//[bad"), Err(UrlError::Parse(_))));
}

#[test]
fn with_query_writes_the_query() {
    let url = Url::parse("https://example.com/products").unwrap();
    let paged = url.with_query(Some("page=2")).unwrap();
    assert_eq!(paged.as_str(), "https://example.com/products?page=2");
    assert_eq!(url.as_str(), "https://example.com/products");
}

#[test]
fn with_query_replaces_an_earlier_query_and_keeps_the_fragment() {
    let url = Url::parse("https://example.com/products?page=1#top").unwrap();
    let paged = url.with_query(Some("page=2")).unwrap();
    assert_eq!(paged.as_str(), "https://example.com/products?page=2#top");
}

#[test]
fn with_query_none_removes_the_query() {
    let url = Url::parse("https://example.com/products?page=1").unwrap();
    assert_eq!(url.with_query(None).unwrap().as_str(), "https://example.com/products");
}

#[test]
fn with_query_empty_leaves_a_question_mark() {
    let url = Url::parse("https://example.com/products").unwrap();
    assert_eq!(url.with_query(Some("")).unwrap().as_str(), "https://example.com/products?");
}

#[test]
fn with_query_refuses_a_query_that_makes_the_url_too_long() {
    let url = Url::parse("https://example.com/products").unwrap();
    let query = "a".repeat(1_431_655_760);
    assert!(matches!(url.with_query(Some(&query)), Err(UrlError::Overflow)));
    let short = "a".repeat(1_000);
    assert!(url.with_query(Some(&short)).is_ok());
}
