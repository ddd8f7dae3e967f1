use bevy_brp_extras::request::{extract_type_names, parse_types_parameter, ParamsError};
use bevy_brp_extras::text::{decimal_string, last_segment_of};
use bevy_brp_extras::JsonValue;

fn s(x: &str) -> String {
    x.to_string()
}

fn params(types: JsonValue) -> JsonValue {
    JsonValue::Object(vec![(s("types"), types)])
}

#[test]
fn types_parameter_accepts_string_or_array() {
    let p = params(JsonValue::Str(s("A")));
    assert_eq!(parse_types_parameter(Some(&p)).unwrap(), vec![s("A")]);
    let p = params(JsonValue::Array(vec![
        JsonValue::Str(s("A")),
        JsonValue::Int(3),
        JsonValue::Str(s("B")),
    ]));
    assert_eq!(parse_types_parameter(Some(&p)).unwrap(), vec![s("A"), s("B")]);
}

#[test]
fn types_parameter_rejections() {
    assert_eq!(parse_types_parameter(None).unwrap_err(), ParamsError::Missing);
    let p = JsonValue::Object(vec![(s("other"), JsonValue::Null)]);
    assert_eq!(parse_types_parameter(Some(&p)).unwrap_err(), ParamsError::Missing);
    let p = params(JsonValue::Bool(true));
    assert_eq!(parse_types_parameter(Some(&p)).unwrap_err(), ParamsError::WrongType);
    let p = params(JsonValue::Array(vec![JsonValue::Int(1)]));
    assert_eq!(parse_types_parameter(Some(&p)).unwrap_err(), ParamsError::Empty);
    assert_eq!(
        ParamsError::WrongType.message(),
        "Parameter 'types' must be a string or array of strings"
    );
    assert_eq!(extract_type_names(&JsonValue::Null).unwrap_err(), ParamsError::WrongType);
}

#[test]
fn text_helpers() {
    assert_eq!(decimal_string(0), "0");
    assert_eq!(decimal_string(407), "407");
    assert_eq!(last_segment_of("a::b::Widget"), "Widget");
    assert_eq!(last_segment_of("Plain"), "Plain");
    assert_eq!(last_segment_of("ends::"), "");
}
