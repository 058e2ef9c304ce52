use agentoven::json::Json;

fn object(members: Vec<(&str, Json)>) -> Json {
    Json::Object(members.into_iter().map(|(k, v)| (k.to_string(), v)).collect())
}

#[test]
fn parse_reads_every_kind_of_value() {
    let j = Json::parse(r#"{"a": null, "b": true, "c": 12, "d": "x", "e": [1, "two"], "f": {"g": -3}}"#)
        .unwrap();
    assert!(j.get("a").unwrap().is_null());
    assert_eq!(j.get("b").unwrap().as_bool(), Some(true));
    assert_eq!(j.get("c").unwrap().as_i64(), Some(12));
    assert_eq!(j.get("c").unwrap().as_u64(), Some(12));
    assert_eq!(j.get("d").unwrap().as_str(), Some("x"));
    let items = j.get("e").unwrap().as_array().unwrap();
    assert_eq!(items.len(), 2);
    assert_eq!(items[0].as_i64(), Some(1));
    assert_eq!(items[1].as_str(), Some("two"));
    assert_eq!(j.get("f").unwrap().get("g").unwrap().as_i64(), Some(-3));
    assert_eq!(j.get("f").unwrap().get("g").unwrap().as_u64(), None);
    assert!(j.get("missing").is_none());
}

#[test]
fn parse_refuses_what_is_no_json() {
    let refusal = Json::parse("{not json").unwrap_err();
    assert!(!refusal.is_empty());
    assert!(Json::parse("").is_err());
    assert!(Json::parse("1 2").is_err());
}

#[test]
fn to_text_writes_compact_json() {
    let j = object(vec![("name", Json::string("x")), ("n", Json::from_i64(-5)), ("ok", Json::Bool(true))]);
    assert_eq!(j.to_text().unwrap(), r#"{"n":-5,"name":"x","ok":true}"#);
    assert_eq!(Json::Array(vec![Json::Null, Json::from_u64(7)]).to_text().unwrap(), "[null,7]");
}

#[test]
fn to_pretty_text_lays_the_value_out() {
    let j = object(vec![("a", Json::from_i64(1))]);
    assert_eq!(j.to_pretty_text().unwrap(), "{\n  \"a\": 1\n}");
}

#[test]
fn text_round_trip_keeps_the_value() {
    let j = object(vec![
        ("a", Json::Array(vec![Json::from_i64(1), Json::string("s"), Json::Null])),
        ("b", object(vec![("c", Json::Bool(false))])),
    ]);
    let text = j.to_text().unwrap();
    assert_eq!(Json::parse(&text).unwrap(), j);
}

#[test]
fn later_member_counts_when_a_key_occurs_twice() {
    let j = object(vec![("k", Json::from_i64(1)), ("k", Json::from_i64(2))]);
    assert_eq!(j.get("k").unwrap().as_i64(), Some(2));
    assert_eq!(j.to_text().unwrap(), r#"{"k":2}"#);
}

#[test]
fn numbers_keep_their_integers() {
    assert_eq!(Json::from_i64(i64::MIN).as_i64(), Some(i64::MIN));
    assert_eq!(Json::from_i64(i64::MAX).as_i64(), Some(i64::MAX));
    assert_eq!(Json::from_u64(u64::MAX).as_u64(), Some(u64::MAX));
    assert_eq!(Json::from_u64(u64::MAX).as_i64(), None);
    assert_eq!(Json::from_i64(-1).as_u64(), None);
    assert_eq!(Json::parse("1.5").unwrap().as_i64(), None);
    assert_eq!(Json::string("1").as_i64(), None);
}

#[test]
fn duplicate_and_clone_copy_the_tree() {
    let j = Json::parse(r#"{"a": [1, {"b": "c"}], "d": 2.5}"#).unwrap();
    assert_eq!(j.duplicate(), j);
    assert_eq!(j.clone(), j);
}

#[test]
fn members_of_an_object_can_be_read_by_kind() {
    let j = Json::parse(r#"{"s": "text", "n": 4, "list": [1, 2, 3]}"#).unwrap();
    assert_eq!(j.str_at("s"), Some("text"));
    assert_eq!(j.str_at("n"), None);
    assert_eq!(j.str_or("n", "fallback"), "fallback");
    assert_eq!(j.int_at("n"), Some(4));
    assert_eq!(j.array_at("list").unwrap().len(), 3);
    assert!(j.array_at("s").is_none());
    assert_eq!(Json::string("x").str_at("s"), None);
}

#[test]
fn empty_object_has_no_members() {
    assert_eq!(Json::empty_object().to_text().unwrap(), "{}");
    assert!(Json::empty_object().as_object().unwrap().is_empty());
}

#[test]
fn the_order_of_members_does_not_matter_for_equality() {
    let one = object(vec![("b", Json::from_i64(1)), ("a", Json::from_i64(2))]);
    let other = object(vec![("a", Json::from_i64(2)), ("b", Json::from_i64(1))]);
    assert_eq!(one, other);
    assert!(one.same(&other));
    assert_ne!(one, object(vec![("a", Json::from_i64(1)), ("b", Json::from_i64(2))]));
    assert_ne!(one, object(vec![("b", Json::from_i64(1))]));
    assert_ne!(object(vec![("b", Json::from_i64(1))]), one);
    assert_ne!(one, object(vec![("b", Json::from_i64(1)), ("a", Json::from_i64(2)), ("c", Json::Null)]));
    assert_ne!(one, Json::Array(vec![]));
    assert_eq!(object(vec![]), object(vec![]));
}

#[test]
fn members_out_of_order_come_back_equal_through_text() {
    let j = object(vec![
        ("zeta", Json::from_i64(1)),
        ("alpha", object(vec![("y", Json::Bool(true)), ("x", Json::Null)])),
        ("mid", Json::Array(vec![object(vec![("q", Json::string("s")), ("p", Json::from_u64(7))])])),
    ]);
    let text = j.to_text().unwrap();
    assert_eq!(text, r#"{"alpha":{"x":null,"y":true},"mid":[{"p":7,"q":"s"}],"zeta":1}"#);
    assert_eq!(Json::parse(&text).unwrap(), j);
    assert_eq!(j, Json::parse(&text).unwrap());
}

#[test]
fn of_members_with_one_key_the_last_counts_for_equality() {
    let twice = object(vec![("k", Json::from_i64(1)), ("j", Json::Null), ("k", Json::from_i64(2))]);
    assert_eq!(twice, object(vec![("k", Json::from_i64(2)), ("j", Json::Null)]));
    assert_ne!(twice, object(vec![("k", Json::from_i64(1)), ("j", Json::Null)]));
    assert_eq!(Json::parse(&twice.to_text().unwrap()).unwrap(), twice);
}

#[test]
fn the_order_of_items_matters_for_equality() {
    let one = Json::Array(vec![Json::from_i64(1), Json::from_i64(2)]);
    assert_ne!(one, Json::Array(vec![Json::from_i64(2), Json::from_i64(1)]));
    assert_ne!(one, Json::Array(vec![Json::from_i64(1)]));
    assert_eq!(one, Json::Array(vec![Json::from_i64(1), Json::from_i64(2)]));
    assert_ne!(Json::from_i64(1), Json::string("1"));
    assert_ne!(Json::Bool(true), Json::Bool(false));
    assert_eq!(Json::from_i64(5), Json::from_u64(5));
    assert_ne!(Json::from_i64(5), Json::parse("5.0").unwrap());
    assert_eq!(Json::parse("1.5").unwrap(), Json::parse("1.50").unwrap());
}
