use layad::codec::{
    export_value, import_value, mismatch, parse_json, render_json, RESERVED_NAME,
};
use layad::json::{Json, JsonObject, Number};
use layad::text::{comes_before, cut, decimal, has_char, is_blank, join5, same_text, trim};

fn text(json: &Json) -> String {
    String::from_utf8(render_json(json).expect("rendered")).expect("UTF-8")
}

#[test]
fn json_text_is_read_and_written_back() {
    for source in [
        "null",
        "true",
        "0",
        "18446744073709551615",
        "-9223372036854775808",
        "1.5",
        "-0.0",
        "\"a\\nb\\u0001\\\"\\\\ü\"",
        "[]",
        "[1,[2,[]],{}]",
        "{\"a\":{\"b\":[null,false]},\"c\":\"d\"}",
    ] {
        let json = parse_json(source).expect("JSON");
        let written = text(&json);
        assert_eq!(written, source);
        assert!(written.bytes().all(|b| b >= 32));
        let again = parse_json(&written).expect("JSON again");
        assert_eq!(text(&again), written);
        assert_eq!(text(&json.clone()), written);
    }
}

#[test]
fn floats_keep_their_value() {
    let json = parse_json("[0.1, 1e300, 123456789012345678901234567890]").expect("JSON");
    let exported = export_value(&json);
    assert_eq!(exported[0].as_f64(), Some(0.1));
    assert_eq!(exported[1].as_f64(), Some(1e300));
    assert_eq!(exported[2].as_f64(), Some(123456789012345678901234567890.0));
    assert_eq!(exported, serde_json::from_str::<serde_json::Value>("[0.1, 1e300, 123456789012345678901234567890]").unwrap());
}

#[test]
fn bad_json_is_explained() {
    let fault = parse_json("{\"a\": }").unwrap_err();
    assert_eq!(fault, "expected value at line 1 column 7");
    let deep = "[".repeat(200) + &"]".repeat(200);
    assert!(parse_json(&deep).unwrap_err().contains("recursion limit"));
}

#[test]
fn values_cross_over_in_both_directions() {
    let source = serde_json::from_str::<serde_json::Value>(
        "{\"b\":[1,-2,2.5,\"x\"],\"a\":{\"z\":null}}",
    )
    .expect("value");
    let json = import_value(source.clone());
    assert_eq!(export_value(&json), source);
    assert_eq!(json.get("a").and_then(|a| a.get("z")).map(Json::is_null), Some(true));
    let list = json.get("b").and_then(Json::as_list).expect("list");
    assert_eq!(list.len(), 4);
    assert_eq!(list[0].as_u64(), Some(1));
    assert_eq!(list[1].as_u64(), None);
    assert_eq!(list[2].as_u64(), None);
    assert_eq!(list[3].as_str(), Some("x"));
}

#[test]
fn objects_replace_fields_of_the_same_name() {
    let mut object = JsonObject::new();
    assert!(object.is_empty());
    object.insert("a".to_string(), Json::Number(Number::Unsigned(1)));
    object.insert("b".to_string(), Json::Bool(true));
    object.insert("a".to_string(), Json::Number(Number::Signed(-1)));
    assert_eq!(object.len(), 2);
    assert_eq!(object.name_at(0), "a");
    assert_eq!(object.value_at(1).as_bool(), Some(true));
    assert!(object.contains_key("a"));
    assert!(!object.contains_key("c"));
    let json = Json::Object(object);
    assert_eq!(text(&json), "{\"a\":-1,\"b\":true}");
    assert_eq!(json.bool_field("b"), Some(true));
    assert_eq!(json.u64_field("a"), None);
    assert_eq!(json.str_field("a"), None);
}

#[test]
fn fields_stand_in_the_order_of_their_names() {
    let mut object = JsonObject::new();
    for name in ["b", "a", "ab", "", "B", "\u{10000}", "\u{ffff}", "a"] {
        object.insert(name.to_string(), Json::text(name));
    }
    let names: Vec<&str> = (0..object.len()).map(|i| object.name_at(i).as_str()).collect();
    let mut sorted = names.clone();
    sorted.sort();
    assert_eq!(names, sorted);
    assert_eq!(names, ["", "B", "a", "ab", "b", "\u{ffff}", "\u{10000}"]);
    assert_eq!(object.get("ab").and_then(Json::as_str), Some("ab"));
    let parsed = match parse_json(r#"{"z":1,"m":2,"a":3}"#).expect("JSON") {
        Json::Object(object) => object,
        other => panic!("expected an object, got {other:?}"),
    };
    assert_eq!(parsed.name_at(0), "a");
    assert_eq!(parsed.name_at(2), "z");
    assert!(comes_before("a", "b") && !comes_before("b", "a") && !comes_before("a", "a"));
    assert!(same_text("a", "a") && !same_text("a", "A"));
}

#[test]
fn the_reserved_name_does_not_read_back() {
    let mut object = JsonObject::new();
    object.insert(RESERVED_NAME.to_string(), Json::text("1"));
    let written = text(&Json::Object(object));
    let again = parse_json(&written).expect("JSON");
    assert_eq!(again.as_u64(), Some(1));
}

#[test]
fn mismatches_are_worded() {
    assert_eq!(
        mismatch(&Json::Null, "a string"),
        "invalid type: null, expected a string"
    );
    assert_eq!(
        mismatch(&Json::text("x"), "a boolean"),
        "invalid type: string \"x\", expected a boolean"
    );
}

#[test]
fn numbers_are_written_in_decimal() {
    assert_eq!(decimal(0), "0");
    assert_eq!(decimal(9), "9");
    assert_eq!(decimal(10), "10");
    assert_eq!(decimal(u64::MAX), "18446744073709551615");
}

#[test]
fn text_is_trimmed_and_cut() {
    assert_eq!(trim(" \t a b\u{3000}\n"), "a b");
    assert_eq!(trim("\u{a0}\u{2003}"), "");
    assert_eq!(trim("plain"), "plain");
    assert!(is_blank("\u{85} \u{2028}"));
    assert!(is_blank(""));
    assert!(!is_blank(" x "));
    assert_eq!(
        cut("a=b=c", '='),
        Some(("a".to_string(), "b=c".to_string()))
    );
    assert_eq!(cut("=", '='), Some((String::new(), String::new())));
    assert_eq!(cut("abc", '='), None);
    assert!(has_char("a=b", '='));
    assert!(!has_char("ab", '='));
    assert_eq!(join5("a", "b", "", "c", "d"), "abcd");
}
