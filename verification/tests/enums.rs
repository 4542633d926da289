use cloudflare::framework::request::Method;
use cloudflare::framework::{OrderDirection, SearchMatch};

#[test]
fn order_direction_is_written_as_asc_and_desc() {
    assert_eq!(OrderDirection::Ascending.as_str(), "asc");
    assert_eq!(OrderDirection::Descending.as_str(), "desc");
}

#[test]
fn search_match_is_written_as_all_and_any() {
    assert_eq!(SearchMatch::All.as_str(), "all");
    assert_eq!(SearchMatch::Any.as_str(), "any");
}

#[test]
fn the_two_directions_differ() {
    assert_ne!(OrderDirection::Ascending, OrderDirection::Descending);
    assert_ne!(SearchMatch::All, SearchMatch::Any);
    assert_eq!(OrderDirection::Ascending.clone(), OrderDirection::Ascending);
}

#[test]
fn methods_are_written_as_http_writes_them() {
    assert_eq!(Method::Get.as_str(), "GET");
    assert_eq!(Method::Head.as_str(), "HEAD");
    assert_eq!(Method::Post.as_str(), "POST");
    assert_eq!(Method::Put.as_str(), "PUT");
    assert_eq!(Method::Delete.as_str(), "DELETE");
    assert_eq!(Method::Connect.as_str(), "CONNECT");
    assert_eq!(Method::Options.as_str(), "OPTIONS");
    assert_eq!(Method::Trace.as_str(), "TRACE");
    assert_eq!(Method::Patch.as_str(), "PATCH");
}
