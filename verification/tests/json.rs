use ndjson_source::error::ErrorKind;
use ndjson_source::json::{parse_json, JsonRow, JsonValue};

fn number(text: &str) -> JsonValue {
    JsonValue::Number(text.to_string())
}

fn string(text: &str) -> JsonValue {
    JsonValue::String(text.to_string())
}

fn member(key: &str, value: JsonValue) -> (String, JsonValue) {
    (key.to_string(), value)
}

#[test]
fn parse_scalars() {
    assert_eq!(parse_json("null").unwrap(), JsonValue::Null);
    assert_eq!(parse_json("true").unwrap(), JsonValue::Bool(true));
    assert_eq!(parse_json("false").unwrap(), JsonValue::Bool(false));
    assert_eq!(parse_json("0").unwrap(), number("0"));
    assert_eq!(parse_json("-12").unwrap(), number("-12"));
    assert_eq!(parse_json("18446744073709551615").unwrap(), number("18446744073709551615"));
    assert_eq!(parse_json("1.5").unwrap(), number("1.5"));
    assert_eq!(parse_json("\"a b\"").unwrap(), string("a b"));
    assert_eq!(parse_json("\"\\u00e9\\n\"").unwrap(), string("\u{e9}\n"));
}

#[test]
fn parse_takes_white_space_around_the_value() {
    assert_eq!(parse_json(" {\"a\": 1} \r\n").unwrap(), JsonValue::Object(vec![member("a", number("1"))]));
}

#[test]
fn parse_array_keeps_the_order() {
    assert_eq!(
        parse_json("[3, \"x\", [], null]").unwrap(),
        JsonValue::Array(vec![number("3"), string("x"), JsonValue::Array(Vec::new()), JsonValue::Null])
    );
}

#[test]
fn parse_object_gives_members_by_key() {
    assert_eq!(
        parse_json("{\"b\": 1, \"a\": {\"z\": true}, \"B\": null}").unwrap(),
        JsonValue::Object(vec![
            member("B", JsonValue::Null),
            member("a", JsonValue::Object(vec![member("z", JsonValue::Bool(true))])),
            member("b", number("1")),
        ])
    );
}

#[test]
fn parse_keeps_the_last_of_a_repeated_key() {
    assert_eq!(
        parse_json("{\"a\": 1, \"a\": 2}").unwrap(),
        JsonValue::Object(vec![member("a", number("2"))])
    );
}

#[test]
fn parse_refuses_what_is_no_json() {
    for text in ["", "{", "{\"a\":}", "{'a':1}", "[1,]", "nul", "1 2", "{\"a\":1}{\"b\":2}", "\"open"] {
        let e = parse_json(text).unwrap_err();
        assert_eq!(e.kind, ErrorKind::MalformedRecord, "{:?}", text);
        assert!(!e.message.is_empty(), "{:?}", text);
    }
}

#[test]
fn parse_error_is_the_parsers_own() {
    let expected = serde_json::from_str::<serde_json::Value>("{\"a\":").unwrap_err().to_string();
    assert_eq!(parse_json("{\"a\":").unwrap_err().message, expected);
}

#[test]
fn debug_form_of_scalars() {
    assert_eq!(JsonValue::Null.debug_string(), "Null");
    assert_eq!(JsonValue::Bool(true).debug_string(), "Bool(true)");
    assert_eq!(JsonValue::Bool(false).debug_string(), "Bool(false)");
    assert_eq!(number("-7").debug_string(), "Number(-7)");
    assert_eq!(string("x").debug_string(), "String(\"x\")");
}

#[test]
fn debug_form_quotes_and_escapes_strings() {
    assert_eq!(string("a\"b\\c\nd\te").debug_string(), "String(\"a\\\"b\\\\c\\nd\\te\")");
    assert_eq!(string("").debug_string(), "String(\"\")");
    assert_eq!(string("\u{e9}\u{1f600}").debug_string(), "String(\"\u{e9}\u{1f600}\")");
    assert_eq!(string("\u{0}\u{7f}").debug_string(), "String(\"\\0\\u{7f}\")");
}

#[test]
fn debug_form_of_arrays_and_objects() {
    assert_eq!(JsonValue::Array(Vec::new()).debug_string(), "Array []");
    assert_eq!(JsonValue::Object(Vec::new()).debug_string(), "Object {}");
    assert_eq!(JsonValue::Array(vec![number("1")]).debug_string(), "Array [Number(1)]");
    assert_eq!(
        JsonValue::Array(vec![number("1"), JsonValue::Null, string("s")]).debug_string(),
        "Array [Number(1), Null, String(\"s\")]"
    );
    assert_eq!(
        JsonValue::Object(vec![member("a", number("1")), member("b \"q\"", JsonValue::Array(vec![]))])
            .debug_string(),
        "Object {\"a\": Number(1), \"b \\\"q\\\"\": Array []}"
    );
}

#[test]
fn debug_form_is_that_of_the_parser() {
    let texts = [
        "null",
        "true",
        "0",
        "-0",
        "-1",
        "12345678901234567890",
        "-9223372036854775808",
        "1.0",
        "-2.5e10",
        "1e300",
        "1.7976931348623157e308",
        "3.1565871682030507e+109",
        "2.4558686153428634e-190",
        "1.6779840616663255e+302",
        "0.1",
        "123456789012345678901234567890",
        "\"\"",
        "\"plain\"",
        "\"quote \\\" backslash \\\\ newline \\n tab \\t\"",
        "\"\\u0000\\u001f\\u007f\\u00a0\\u2028\\ud83d\\ude00\"",
        "[]",
        "{}",
        "[1,[2,[3,[]]],{\"k\":[null,false]}]",
        "{\"b\":1,\"a\":{\"y\":\"z\",\"x\":[1.5,\"s\"]},\"C\":null,\"\":{}}",
        "{\"key with \\\" quote\":{\"nested\\n\":[{\"deep\":{}}]}}",
    ];
    for text in texts {
        let theirs = serde_json::from_str::<serde_json::Value>(text).unwrap();
        let ours = parse_json(text).unwrap();
        assert_eq!(ours.debug_string(), format!("{:?}", theirs), "{}", text);
    }
}

#[test]
fn number_read_again_need_not_show_the_same() {
    // The parser shows some number as this text, and reads the text as
    // another number.
    let shown = "3.1565871682030507e+109";
    let again: serde_json::Value = serde_json::from_str(shown).unwrap();
    assert_eq!(again.to_string(), "3.156587168203051e+109");
    // The library shows a number as the text that it holds, whatever the text.
    assert_eq!(JsonValue::Number(shown.to_string()).debug_string(), format!("Number({})", shown));
}

#[test]
fn row_of_an_object_keeps_keys_where_case_counts() {
    let json = JsonValue::Object(vec![member("Name", string("n")), member("id", number("1"))]);
    let row = JsonRow::normalize(json, true);
    assert_eq!(row.members, vec![member("Name", string("n")), member("id", number("1"))]);
}

#[test]
fn row_of_an_object_folds_keys_where_case_is_ignored() {
    let json = JsonValue::Object(vec![
        member("Name", string("n")),
        member("ID", number("1")),
        member("\u{c9}T\u{c9}", JsonValue::Null),
        member("Inner", JsonValue::Object(vec![member("Kept", JsonValue::Null)])),
    ]);
    let row = JsonRow::normalize(json, false);
    assert_eq!(
        row.members,
        vec![
            member("name", string("n")),
            member("id", number("1")),
            member("\u{e9}t\u{e9}", JsonValue::Null),
            member("inner", JsonValue::Object(vec![member("Kept", JsonValue::Null)])),
        ]
    );
}

#[test]
fn row_of_what_is_no_object_is_empty() {
    for json in [JsonValue::Null, JsonValue::Bool(true), number("1"), string("s"), JsonValue::Array(vec![number("1")])] {
        assert!(JsonRow::normalize(json, true).members.is_empty());
    }
    assert!(JsonRow::normalize(JsonValue::Array(Vec::new()), false).members.is_empty());
}

#[test]
fn get_finds_a_member_by_its_key() {
    let row = JsonRow { members: vec![member("a", number("1")), member("b", string("x"))] };
    assert_eq!(row.get("a"), Some(&number("1")));
    assert_eq!(row.get("b"), Some(&string("x")));
    assert_eq!(row.get("A"), None);
    assert_eq!(row.get(""), None);
    assert_eq!(row.get("ab"), None);
}

#[test]
fn get_takes_the_last_member_of_a_key() {
    let row = JsonRow {
        members: vec![member("a", number("1")), member("b", string("x")), member("a", number("2"))],
    };
    assert_eq!(row.get("a"), Some(&number("2")));
}

#[test]
fn get_on_an_empty_row_finds_nothing() {
    let row = JsonRow { members: Vec::new() };
    assert_eq!(row.get("a"), None);
}

#[test]
fn folded_row_is_what_the_parser_collects() {
    // The members of a record, keys in lower case, gathered into a map again:
    // a lookup in the row gives what a lookup in that map gives.
    let text = "{\"A\":1,\"a\":2,\"B\":3,\"c\":4,\"C\":5,\"d\":6}";
    let theirs = match serde_json::from_str::<serde_json::Value>(text).unwrap() {
        serde_json::Value::Object(map) => serde_json::Value::Object(
            map.into_iter().map(|(k, v)| (k.to_lowercase(), v)).collect(),
        ),
        _ => unreachable!(),
    };
    let row = JsonRow::normalize(parse_json(text).unwrap(), false);
    for key in ["a", "b", "c", "d", "e", "A"] {
        let ours = match row.get(key) {
            Some(value) => value.debug_string(),
            None => "Null".to_string(),
        };
        assert_eq!(ours, format!("{:?}", theirs[key]), "{}", key);
    }
}
