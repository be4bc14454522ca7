use ndjson_source::block::DataBlock;
use ndjson_source::column::{parse_int_text, DataValue, TypeDeserializer};
use ndjson_source::cursor::LineCursor;
use ndjson_source::error::{ErrorCode, ErrorKind};
use ndjson_source::format::FormatSettings;
use ndjson_source::json::JsonValue;
use ndjson_source::schema::{DataField, DataSchema, DataType};
use std::sync::Arc;

fn number(text: &str) -> JsonValue {
    JsonValue::Number(text.to_string())
}

fn settings() -> FormatSettings {
    FormatSettings { ident_case_sensitive: false }
}

#[test]
fn whole_numbers_from_text() {
    assert_eq!(parse_int_text("0"), Some(0));
    assert_eq!(parse_int_text("7"), Some(7));
    assert_eq!(parse_int_text("-1"), Some(-1));
    assert_eq!(parse_int_text("1234567890"), Some(1234567890));
    assert_eq!(parse_int_text("007"), Some(7));
    assert_eq!(parse_int_text("-0"), Some(0));
}

#[test]
fn whole_numbers_at_the_ends_of_64_bits() {
    assert_eq!(parse_int_text("9223372036854775807"), Some(i64::MAX));
    assert_eq!(parse_int_text("-9223372036854775808"), Some(i64::MIN));
    assert_eq!(parse_int_text("-9223372036854775807"), Some(i64::MIN + 1));
    assert_eq!(parse_int_text("9223372036854775808"), None);
    assert_eq!(parse_int_text("-9223372036854775809"), None);
    assert_eq!(parse_int_text("18446744073709551615"), None);
    assert_eq!(parse_int_text("18446744073709551616"), None);
    assert_eq!(parse_int_text("99999999999999999999999999999999"), None);
    assert_eq!(parse_int_text("00000000000000000000000000000001"), Some(1));
}

#[test]
fn texts_that_are_no_whole_number() {
    for text in ["", "-", "--1", "+1", "1.5", "1e3", "1 ", " 1", "1-", "a", "0x10", "1_000", "\u{661}"] {
        assert_eq!(parse_int_text(text), None, "{:?}", text);
    }
}

#[test]
fn whole_numbers_agree_with_the_standard_library() {
    let mut n: i64 = 1;
    for _ in 0..300 {
        assert_eq!(parse_int_text(&n.to_string()), Some(n));
        n = n.wrapping_mul(31).wrapping_sub(17);
    }
}

#[test]
fn integer_builder_takes_whole_numbers() {
    let mut d = TypeDeserializer::create(DataType::Int64, false, 4);
    assert_eq!(d.len(), 0);
    assert_eq!(d.de_json(&number("12"), &settings()), Ok(()));
    assert_eq!(d.de_json(&number("-3"), &settings()), Ok(()));
    assert_eq!(d.len(), 2);
    let column = d.finish_to_column();
    assert_eq!(column.len(), 2);
    assert_eq!(column.value(0), &DataValue::Int64(12));
    assert_eq!(column.value(1), &DataValue::Int64(-3));
    assert_eq!(column.data_type(), DataType::Int64);
    assert!(!column.is_nullable());
}

#[test]
fn integer_builder_refuses_the_rest_and_stays_as_it_was() {
    let mut d = TypeDeserializer::create(DataType::Int64, false, 4);
    let refused = [
        JsonValue::Null,
        JsonValue::Bool(true),
        number("1.0"),
        number("9223372036854775808"),
        JsonValue::String("1".to_string()),
        JsonValue::Array(vec![number("1")]),
        JsonValue::Object(Vec::new()),
    ];
    for value in refused {
        let e = d.de_json(&value, &settings()).unwrap_err();
        assert_eq!(
            e,
            ErrorCode::new(
                ErrorKind::FieldCoercion,
                "Incorrect json value, must be a 64-bit integer".to_string()
            )
        );
        assert_eq!(d.len(), 0);
    }
}

#[test]
fn boolean_builder_takes_booleans_alone() {
    let mut d = TypeDeserializer::create(DataType::Boolean, false, 0);
    assert_eq!(d.de_json(&JsonValue::Bool(true), &settings()), Ok(()));
    assert_eq!(d.de_json(&JsonValue::Bool(false), &settings()), Ok(()));
    let e = d.de_json(&number("1"), &settings()).unwrap_err();
    assert_eq!(e.kind, ErrorKind::FieldCoercion);
    assert_eq!(e.message, "Incorrect json value, must be boolean");
    assert!(d.de_json(&JsonValue::String("true".to_string()), &settings()).is_err());
    assert!(d.de_json(&JsonValue::Null, &settings()).is_err());
    let column = d.finish_to_column();
    assert_eq!(column.len(), 2);
    assert_eq!(column.value(0), &DataValue::Boolean(true));
    assert_eq!(column.value(1), &DataValue::Boolean(false));
}

#[test]
fn string_builder_takes_strings_alone() {
    let mut d = TypeDeserializer::create(DataType::String, false, 1);
    assert_eq!(d.de_json(&JsonValue::String("x".to_string()), &settings()), Ok(()));
    assert_eq!(d.de_json(&JsonValue::String(String::new()), &settings()), Ok(()));
    let e = d.de_json(&number("1"), &settings()).unwrap_err();
    assert_eq!(e.message, "Incorrect json value, must be string");
    assert!(d.de_json(&JsonValue::Bool(true), &settings()).is_err());
    let column = d.finish_to_column();
    assert_eq!(column.value(0), &DataValue::String("x".to_string()));
    assert_eq!(column.value(1), &DataValue::String(String::new()));
}

#[test]
fn nullable_builder_takes_null() {
    for data_type in [DataType::Boolean, DataType::Int64, DataType::String] {
        let mut d = TypeDeserializer::create(data_type, true, 2);
        assert_eq!(d.de_json(&JsonValue::Null, &settings()), Ok(()));
        let column = d.finish_to_column();
        assert_eq!(column.value(0), &DataValue::Null);
        assert!(column.is_nullable());
        assert_eq!(column.data_type(), data_type);
    }
}

#[test]
fn copy_of_a_value_is_the_value() {
    for value in [
        DataValue::Null,
        DataValue::Boolean(true),
        DataValue::Int64(-5),
        DataValue::String("s".to_string()),
    ] {
        assert_eq!(value.clone(), value);
    }
}

#[test]
fn type_names() {
    assert_eq!(DataType::Boolean.name(), "Boolean");
    assert_eq!(DataType::Int64.name(), "Int64");
    assert_eq!(DataType::String.name(), "String");
}

#[test]
fn field_and_schema_hold_what_they_were_given() {
    let field = DataField::new("a", DataType::Int64, true);
    assert_eq!(field.name(), "a");
    assert_eq!(field.data_type(), DataType::Int64);
    assert!(field.is_nullable());
    assert_eq!(field.clone(), field);
    let schema = DataSchema::new(vec![field.clone(), DataField::new("b", DataType::String, false)]);
    assert_eq!(schema.fields().len(), 2);
    assert_eq!(schema.fields()[0], field);
    assert_eq!(schema.fields()[1].name(), "b");
}

#[test]
fn block_of_finished_columns() {
    let schema = Arc::new(DataSchema::new(vec![
        DataField::new("a", DataType::Int64, false),
        DataField::new("b", DataType::Boolean, true),
    ]));
    let mut a = TypeDeserializer::create(DataType::Int64, false, 2);
    let mut b = TypeDeserializer::create(DataType::Boolean, true, 2);
    a.de_json(&number("1"), &settings()).unwrap();
    a.de_json(&number("2"), &settings()).unwrap();
    b.de_json(&JsonValue::Null, &settings()).unwrap();
    b.de_json(&JsonValue::Bool(true), &settings()).unwrap();
    let block = DataBlock::create(schema.clone(), vec![a.finish_to_column(), b.finish_to_column()], 2);
    assert_eq!(block.shape(), (2, 2));
    assert_eq!(block.num_rows(), 2);
    assert_eq!(block.num_columns(), 2);
    assert_eq!(block.column(0).value(1), &DataValue::Int64(2));
    assert_eq!(block.column(1).value(0), &DataValue::Null);
    assert_eq!(block.column(1).value(1), &DataValue::Boolean(true));
    assert_eq!(*block.schema(), *schema);
}

#[test]
fn cursor_hands_out_lines_in_order() {
    let mut cursor = LineCursor::new(vec!["one\n".to_string(), String::new(), "three".to_string()]);
    assert_eq!(cursor.consumed(), 0);
    assert_eq!(cursor.next_line(), Some("one\n".to_string()));
    assert_eq!(cursor.next_line(), Some(String::new()));
    assert_eq!(cursor.consumed(), 2);
    assert_eq!(cursor.next_line(), Some("three".to_string()));
    assert_eq!(cursor.next_line(), None);
    assert_eq!(cursor.next_line(), None);
    assert_eq!(cursor.consumed(), 3);
}
