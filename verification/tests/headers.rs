use cloudflare::framework::headers::{
    contains_name, merge_defaults, names_match, remove_name, set_header, Header,
};

fn header(name: &str, value: &str) -> Header {
    Header::text(name, value)
}

#[test]
fn text_header_holds_the_bytes_of_its_value() {
    let made = Header::text("Content-Type", "application/json");
    assert_eq!(made.name, "Content-Type");
    assert_eq!(made.value, b"application/json".to_vec());
}

#[test]
fn text_header_writes_its_value_in_utf8() {
    let made = Header::text("X-Note", "é");
    assert_eq!(made.value, vec![0xc3, 0xa9]);
}

#[test]
fn names_match_whatever_the_case_of_ascii_letters() {
    assert!(names_match("Authorization", "authorization"));
    assert!(names_match("X-AUTH-KEY", "x-auth-key"));
    assert!(names_match("", ""));
    assert!(names_match("content-type", "Content-Type"));
}

#[test]
fn names_differ_where_a_character_differs() {
    assert!(!names_match("X-Auth-Key", "X-Auth-Email"));
    assert!(!names_match("accept", "accept-encoding"));
    assert!(!names_match("a", ""));
    assert!(!names_match("[", "{"));
    assert!(!names_match("@", "`"));
    assert!(!names_match("É", "é"));
}

#[test]
fn contains_name_finds_a_header_of_that_name() {
    let headers = vec![header("Accept", "*/*"), header("X-Trace", "1")];
    assert!(contains_name(&headers, "x-trace"));
    assert!(contains_name(&headers, "ACCEPT"));
    assert!(!contains_name(&headers, "Authorization"));
    assert!(!contains_name(&Vec::new(), "Accept"));
}

#[test]
fn remove_name_drops_every_header_of_that_name() {
    let headers = vec![
        header("Accept", "a"),
        header("X-Trace", "1"),
        header("accept", "b"),
        header("Host", "h"),
    ];
    let kept = remove_name(headers, "ACCEPT");
    assert!(kept == vec![header("X-Trace", "1"), header("Host", "h")]);
}

#[test]
fn set_header_replaces_and_comes_last() {
    let headers = vec![header("authorization", "old"), header("Accept", "*/*")];
    let set = set_header(headers, "Authorization", "new");
    assert!(set == vec![header("Accept", "*/*"), header("Authorization", "new")]);
}

#[test]
fn set_header_on_nothing_gives_one_header() {
    let set = set_header(Vec::new(), "X-A", "1");
    assert!(set == vec![header("X-A", "1")]);
}

#[test]
fn merge_adds_the_defaults_that_are_not_overridden() {
    let own = vec![header("Content-Type", "application/json")];
    let defaults = vec![
        header("user-agent", "probe"),
        header("content-type", "text/plain"),
        header("accept", "*/*"),
    ];
    let all = merge_defaults(own, &defaults);
    assert!(
        all == vec![
            header("Content-Type", "application/json"),
            header("user-agent", "probe"),
            header("accept", "*/*"),
        ]
    );
}

#[test]
fn merge_keeps_each_value_of_a_default_that_has_several() {
    let defaults = vec![header("accept", "a"), header("accept", "b")];
    let all = merge_defaults(Vec::new(), &defaults);
    assert!(all == vec![header("accept", "a"), header("accept", "b")]);
}

#[test]
fn merge_without_defaults_changes_nothing() {
    let own = vec![header("A", "1"), header("B", "2")];
    let all = merge_defaults(own, &Vec::new());
    assert!(all == vec![header("A", "1"), header("B", "2")]);
}

#[test]
fn header_clone_is_equal() {
    let first = header("A", "1");
    assert!(first.clone() == first);
}
