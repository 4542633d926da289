use cloudflare::framework::endpoint::{describe, serialize_query, Endpoint, Operation};
use cloudflare::framework::json::Json;
use cloudflare::framework::request::Method;
use cloudflare::framework::{OrderDirection, SearchMatch};

struct ListZones;

impl Endpoint<Json> for ListZones {
    fn method(&self) -> Method {
        Method::Get
    }

    fn path(&self) -> String {
        "zones".to_owned()
    }
}

struct CreateRecord {
    zone: String,
}

impl Endpoint for CreateRecord {
    fn method(&self) -> Method {
        Method::Post
    }

    fn path(&self) -> String {
        format!("zones/{}/dns_records", self.zone)
    }

    fn query(&self) -> Option<Vec<(String, String)>> {
        Some(vec![("direction".to_owned(), OrderDirection::Descending.as_str().to_owned())])
    }

    fn body(&self) -> Option<Json> {
        Some(Json::Object(vec![("type".to_owned(), Json::String("A".to_owned()))]))
    }
}

fn pairs(given: Vec<(&str, &str)>) -> Vec<(String, String)> {
    given.into_iter().map(|(name, value)| (name.to_owned(), value.to_owned())).collect()
}

#[test]
fn an_endpoint_has_no_query_and_no_body_unless_it_says_so() {
    let operation: Operation = describe(&ListZones);
    assert_eq!(operation.method, Method::Get);
    assert_eq!(operation.path, "zones");
    assert_eq!(operation.query, None);
    assert_eq!(operation.body, None);
}

#[test]
fn describe_reports_what_the_endpoint_declares() {
    let operation = describe(&CreateRecord { zone: "abc".to_owned() });
    assert_eq!(operation.method, Method::Post);
    assert_eq!(operation.path, "zones/abc/dns_records");
    assert_eq!(operation.query, Some(pairs(vec![("direction", "desc")])));
    assert_eq!(
        operation.body,
        Some(Json::Object(vec![("type".to_owned(), Json::String("A".to_owned()))]))
    );
}

#[test]
fn query_of_no_pairs_is_empty() {
    assert_eq!(serialize_query(&Vec::new()), "");
}

#[test]
fn query_of_one_pair_has_no_ampersand() {
    assert_eq!(serialize_query(&pairs(vec![("page", "2")])), "page=2");
}

#[test]
fn query_keeps_the_order_of_its_pairs() {
    let query = serialize_query(&pairs(vec![
        ("order", "name"),
        ("direction", OrderDirection::Ascending.as_str()),
        ("match", SearchMatch::Any.as_str()),
        ("a", "1"),
    ]));
    assert_eq!(query, "order=name&direction=asc&match=any&a=1");
}

#[test]
fn query_keeps_a_name_that_comes_twice() {
    assert_eq!(serialize_query(&pairs(vec![("tag", "a"), ("tag", "b")])), "tag=a&tag=b");
}

#[test]
fn query_is_written_in_form_encoding() {
    let query = serialize_query(&pairs(vec![("name", "bar & baz"), ("saisons", "Été+hiver")]));
    assert_eq!(query, "name=bar+%26+baz&saisons=%C3%89t%C3%A9%2Bhiver");
}

#[test]
fn query_may_hold_empty_names_and_values() {
    assert_eq!(serialize_query(&pairs(vec![("", ""), ("a", "")])), "=&a=");
}
