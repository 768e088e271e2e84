use rustytok::tiktok::json::parse_json;
use rustytok::tiktok::json::Json;
use rustytok::tiktok::json::JsonNumber;

fn obj(members: Vec<(&str, Json)>) -> Json {
    Json::Object(members.into_iter().map(|(k, v)| (k.to_string(), v)).collect())
}

fn s(text: &str) -> Json {
    Json::Str(text.to_string())
}

fn unsigned(n: u64) -> Json {
    Json::Number(JsonNumber::Unsigned(n))
}

#[test]
fn parses_each_kind_of_value() {
    assert_eq!(parse_json("null"), Some(Json::Null));
    assert_eq!(parse_json("true"), Some(Json::Bool(true)));
    assert_eq!(parse_json("false"), Some(Json::Bool(false)));
    assert_eq!(parse_json("\"a b\""), Some(s("a b")));
    assert_eq!(parse_json("[]"), Some(Json::Array(vec![])));
    assert_eq!(parse_json("{}"), Some(obj(vec![])));
    assert_eq!(parse_json(" [1, \"x\", [null]] "), Some(Json::Array(vec![
        unsigned(1),
        s("x"),
        Json::Array(vec![Json::Null]),
    ])));
}

#[test]
fn tells_numbers_apart() {
    let number = |text: &str| match parse_json(text) {
        Some(Json::Number(n)) => n,
        other => panic!("{text}: {other:?}"),
    };
    assert_eq!(number("0"), JsonNumber::Unsigned(0));
    assert_eq!(number("18446744073709551615"), JsonNumber::Unsigned(u64::MAX));
    assert_eq!(number("-1"), JsonNumber::Negative(-1));
    assert_eq!(number("-9223372036854775808"), JsonNumber::Negative(i64::MIN));
    assert_eq!(number("1.5"), JsonNumber::Float);
    assert_eq!(number("1e3"), JsonNumber::Float);
    assert_eq!(number("-0.0"), JsonNumber::Float);
    assert_eq!(number("18446744073709551616"), JsonNumber::Float);
    assert_eq!(number("-9223372036854775809"), JsonNumber::Float);
}

#[test]
fn reads_numbers_as_integers_where_they_are() {
    assert_eq!(JsonNumber::Unsigned(7).as_u64(), Some(7));
    assert_eq!(JsonNumber::Unsigned(7).as_i64(), Some(7));
    assert_eq!(JsonNumber::Unsigned(i64::MAX as u64).as_i64(), Some(i64::MAX));
    assert_eq!(JsonNumber::Unsigned(i64::MAX as u64 + 1).as_i64(), None);
    assert_eq!(JsonNumber::Unsigned(u64::MAX).as_u64(), Some(u64::MAX));
    assert_eq!(JsonNumber::Negative(-5).as_u64(), None);
    assert_eq!(JsonNumber::Negative(-5).as_i64(), Some(-5));
    assert_eq!(JsonNumber::Float.as_u64(), None);
    assert_eq!(JsonNumber::Float.as_i64(), None);
}

#[test]
fn value_accessors_answer_only_for_their_kind() {
    assert_eq!(s("x").as_str(), Some("x"));
    assert_eq!(unsigned(1).as_str(), None);
    assert_eq!(Json::Null.as_str(), None);
    assert_eq!(unsigned(9).as_u64(), Some(9));
    assert_eq!(s("9").as_u64(), None);
    assert_eq!(Json::Number(JsonNumber::Negative(-9)).as_i64(), Some(-9));
    assert_eq!(Json::Number(JsonNumber::Negative(-9)).as_u64(), None);
    assert_eq!(Json::Bool(true).as_i64(), None);
}

#[test]
fn unescapes_strings() {
    assert_eq!(parse_json("\"\\u00e9\\n\\\"\\ud83d\\udc7e\""), Some(s("é\n\"👾")));
}

#[test]
fn rejects_what_is_no_document() {
    for text in ["", " ", "{", "[1,]", "{} x", "nul", "'a'", "{\"a\"}", "01", "\"\\x\""] {
        assert_eq!(parse_json(text), None, "{text:?}");
    }
}

#[test]
fn members_come_in_the_order_of_their_names() {
    let parsed = parse_json("{\"b\":1,\"a\":2,\"c\":3,\"B\":4}");
    assert_eq!(parsed, Some(obj(vec![
        ("B", unsigned(4)),
        ("a", unsigned(2)),
        ("b", unsigned(1)),
        ("c", unsigned(3)),
    ])));
}

#[test]
fn a_repeated_name_keeps_its_last_value() {
    assert_eq!(parse_json("{\"a\":1,\"a\":2}"), Some(obj(vec![("a", unsigned(2))])));
}

#[test]
fn get_finds_a_member_by_name() {
    let doc = obj(vec![("a", unsigned(1)), ("b", s("x")), ("", Json::Null)]);
    assert_eq!(doc.get("a"), Some(&unsigned(1)));
    assert_eq!(doc.get("b"), Some(&s("x")));
    assert_eq!(doc.get(""), Some(&Json::Null));
    assert_eq!(doc.get("c"), None);
    assert_eq!(doc.get("A"), None);
}

#[test]
fn get_takes_the_first_of_equal_names() {
    let doc = obj(vec![("a", unsigned(1)), ("a", unsigned(2))]);
    assert_eq!(doc.get("a"), Some(&unsigned(1)));
}

#[test]
fn get_answers_only_for_objects() {
    assert_eq!(Json::Array(vec![unsigned(1)]).get("0"), None);
    assert_eq!(s("a").get("a"), None);
    assert_eq!(Json::Null.get("a"), None);
}

#[test]
fn sole_member_is_the_only_one() {
    assert_eq!(obj(vec![("z", unsigned(1))]).sole_member(), Some(&unsigned(1)));
    assert_eq!(obj(vec![("z", unsigned(1)), ("a", unsigned(2))]).sole_member(), None);
    assert_eq!(obj(vec![]).sole_member(), None);
    assert_eq!(Json::Array(vec![unsigned(1)]).sole_member(), None);
    assert_eq!(parse_json("{\"z\":[1,2]}").unwrap().sole_member(), Some(&Json::Array(vec![unsigned(1), unsigned(2)])));
    assert_eq!(parse_json("{\"a\":1,\"a\":2}").unwrap().sole_member(), Some(&unsigned(2)));
}

#[test]
fn text_and_count_read_a_member() {
    let doc = obj(vec![("name", s("x")), ("n", unsigned(3)), ("neg", Json::Number(JsonNumber::Negative(-3)))]);
    assert_eq!(doc.text("name"), Some("x"));
    assert_eq!(doc.text("n"), None);
    assert_eq!(doc.text("missing"), None);
    assert_eq!(doc.count("n"), Some(3));
    assert_eq!(doc.count("neg"), None);
    assert_eq!(doc.count("name"), None);
    assert_eq!(doc.count("missing"), None);
    assert_eq!(Json::Null.text("name"), None);
    assert_eq!(Json::Null.count("n"), None);
}
