use cloudflare::framework::json::{Json, JsonError, JsonNumber};

fn text(value: &str) -> Json {
    Json::String(value.to_owned())
}

fn object(members: Vec<(&str, Json)>) -> Json {
    Json::Object(members.into_iter().map(|(name, value)| (name.to_owned(), value)).collect())
}

#[test]
fn parse_reads_the_scalars() {
    assert_eq!(Json::parse("null").unwrap(), Json::Null);
    assert_eq!(Json::parse("true").unwrap(), Json::Bool(true));
    assert_eq!(Json::parse("false").unwrap(), Json::Bool(false));
    assert_eq!(Json::parse("\"a\\nb\"").unwrap(), text("a\nb"));
}

#[test]
fn parse_tells_the_kinds_of_number_apart() {
    assert_eq!(Json::parse("1003").unwrap(), Json::Number(JsonNumber::PosInt(1003)));
    assert_eq!(Json::parse("0").unwrap(), Json::Number(JsonNumber::PosInt(0)));
    assert_eq!(
        Json::parse("18446744073709551615").unwrap(),
        Json::Number(JsonNumber::PosInt(u64::MAX))
    );
    assert_eq!(Json::parse("-7").unwrap(), Json::Number(JsonNumber::NegInt(-7)));
    assert_eq!(Json::parse("1.5").unwrap(), Json::Number(JsonNumber::Float("1.5".to_owned())));
}

#[test]
fn parse_reads_arrays_and_objects() {
    let parsed = Json::parse("{\"b\": [1, \"x\", null], \"a\": {\"c\": true}}").unwrap();
    let expected = object(vec![
        ("a", object(vec![("c", Json::Bool(true))])),
        (
            "b",
            Json::Array(vec![Json::Number(JsonNumber::PosInt(1)), text("x"), Json::Null]),
        ),
    ]);
    assert_eq!(parsed, expected);
}

#[test]
fn parse_rejects_what_is_not_json() {
    assert!(matches!(Json::parse(""), Err(JsonError::Syntax(_))));
    assert!(matches!(Json::parse("{"), Err(JsonError::Syntax(_))));
    assert!(Json::parse("<html></html>").is_err());
    assert!(Json::parse("{} trailing").is_err());
    assert!(Json::parse("{'a': 1}").is_err());
}

#[test]
fn to_text_writes_compact_json() {
    let value = object(vec![
        ("name", text("example.com")),
        ("jump_start", Json::Bool(true)),
        ("ttl", Json::Number(JsonNumber::PosInt(120))),
        ("delta", Json::Number(JsonNumber::NegInt(-3))),
        ("ratio", Json::Number(JsonNumber::Float("0.25".to_owned()))),
        ("tags", Json::Array(vec![text("a"), Json::Null])),
    ]);
    assert_eq!(
        value.to_text().unwrap(),
        "{\"delta\":-3,\"jump_start\":true,\"name\":\"example.com\",\"ratio\":0.25,\"tags\":[\"a\",null],\"ttl\":120}"
    );
}

#[test]
fn to_text_rejects_a_number_that_is_none() {
    let value = Json::Array(vec![Json::Number(JsonNumber::Float("twelve".to_owned()))]);
    assert!(matches!(value.to_text(), Err(JsonError::Number(_))));
    let nested = object(vec![("n", Json::Number(JsonNumber::Float("".to_owned())))]);
    assert!(nested.to_text().is_err());
}

#[test]
fn text_that_was_written_reads_back_as_the_value() {
    let value = object(vec![
        ("count", Json::Number(JsonNumber::PosInt(3))),
        ("id", text("023e105f4ecef8ad9ca31a8372d0c353")),
        ("nested", Json::Array(vec![object(vec![("k", Json::Number(JsonNumber::NegInt(-1)))])])),
    ]);
    assert_eq!(Json::parse(&value.to_text().unwrap()).unwrap(), value);
}

#[test]
fn members_are_read_in_the_order_of_their_names() {
    let parsed = Json::parse("{\"b\": 1, \"a\": 2, \"b\": 3}").unwrap();
    let expected = object(vec![
        ("a", Json::Number(JsonNumber::PosInt(2))),
        ("b", Json::Number(JsonNumber::PosInt(3))),
    ]);
    assert_eq!(parsed, expected);
}

#[test]
fn get_finds_a_member_by_its_name() {
    let value = object(vec![("a", Json::Bool(true)), ("b", Json::Null)]);
    assert_eq!(value.get("a"), Some(&Json::Bool(true)));
    assert_eq!(value.get("b"), Some(&Json::Null));
    assert_eq!(value.get("c"), None);
    assert_eq!(value.get("A"), None);
}

#[test]
fn get_finds_the_first_of_two_members_with_one_name() {
    let value = object(vec![("a", Json::Bool(true)), ("a", Json::Bool(false))]);
    assert_eq!(value.get("a"), Some(&Json::Bool(true)));
}

#[test]
fn get_finds_nothing_in_what_is_no_object() {
    assert_eq!(Json::Null.get("a"), None);
    assert_eq!(Json::Array(vec![text("a")]).get("a"), None);
    assert_eq!(text("a").get("a"), None);
    assert_eq!(object(Vec::new()).get("a"), None);
}

#[test]
fn clone_copies_the_whole_value() {
    let value = object(vec![
        ("a", Json::Array(vec![Json::Number(JsonNumber::Float("1e3".to_owned())), Json::Null])),
        ("b", object(vec![("c", text("d"))])),
    ]);
    assert_eq!(value.clone(), value);
    assert_eq!(JsonNumber::NegInt(-5).clone(), JsonNumber::NegInt(-5));
}
