use entra_sidecar::json::{
    json_object, json_opt_bool, json_opt_str, json_str, json_strings, push_member, JsonNumber,
    JsonValue,
};
use entra_sidecar::rpc::{decode_response, encode_request};

fn float(f: f64) -> serde_json::Number {
    serde_json::Number::from_f64(f).expect("a finite number")
}

#[test]
fn builds_strings_and_optionals() {
    assert_eq!(json_str("a"), JsonValue::Str("a".to_string()));
    assert_eq!(json_opt_str(&Some("a".to_string())), JsonValue::Str("a".to_string()));
    assert_eq!(json_opt_str(&None), JsonValue::Null);
    assert_eq!(json_opt_bool(&Some(true)), JsonValue::Bool(true));
    assert_eq!(json_opt_bool(&Some(false)), JsonValue::Bool(false));
    assert_eq!(json_opt_bool(&None), JsonValue::Null);
}

#[test]
fn builds_arrays_and_objects() {
    assert_eq!(json_strings(&Vec::new()), JsonValue::Array(Vec::new()));
    assert_eq!(
        json_strings(&vec!["a".to_string(), "b".to_string()]),
        JsonValue::Array(vec![JsonValue::Str("a".to_string()), JsonValue::Str("b".to_string())])
    );
    let mut members = Vec::new();
    push_member(&mut members, "k", JsonValue::Bool(true));
    push_member(&mut members, "l", JsonValue::Null);
    assert_eq!(
        members,
        vec![("k".to_string(), JsonValue::Bool(true)), ("l".to_string(), JsonValue::Null)]
    );
    assert_eq!(
        json_object(members),
        JsonValue::Object(vec![
            ("k".to_string(), JsonValue::Bool(true)),
            ("l".to_string(), JsonValue::Null)
        ])
    );
}

#[test]
fn values_survive_writing_and_reading() {
    let value = JsonValue::Object(vec![
        ("a".to_string(), JsonValue::Array(vec![JsonValue::Null, JsonValue::Bool(true)])),
        ("b".to_string(), JsonValue::Number(JsonNumber::PosInt(18446744073709551615))),
        ("c".to_string(), JsonValue::Number(JsonNumber::NegInt(-9223372036854775808))),
        ("d".to_string(), JsonValue::Number(JsonNumber::Float(float(0.25)))),
        ("e".to_string(), JsonValue::Str("tab\t \u{e9} \u{1f600}".to_string())),
    ]);
    let line = encode_request(3, "m", &value).expect("serializable");
    let params = &line["{\"jsonrpc\":\"2.0\",\"id\":3,\"method\":\"m\",\"params\":".len()..line.len() - 2];
    let reply = format!("{{\"jsonrpc\":\"2.0\",\"id\":3,\"result\":{params}}}");
    assert_eq!(decode_response(&reply), Ok(value));
}

#[test]
fn of_equal_keys_the_last_is_written() {
    let value = JsonValue::Object(vec![
        ("k".to_string(), JsonValue::Bool(false)),
        ("k".to_string(), JsonValue::Bool(true)),
    ]);
    let line = encode_request(1, "m", &value).expect("serializable");
    assert_eq!(line, "{\"jsonrpc\":\"2.0\",\"id\":1,\"method\":\"m\",\"params\":{\"k\":true}}\n");
}

#[test]
fn numbers_that_are_no_integers_are_carried_through() {
    let value = JsonValue::Array(vec![
        JsonValue::Number(JsonNumber::Float(float(1.5e3))),
        JsonValue::Number(JsonNumber::Float(float(-0.125))),
    ]);
    let line = encode_request(1, "m", &value).expect("serializable");
    assert_eq!(line, "{\"jsonrpc\":\"2.0\",\"id\":1,\"method\":\"m\",\"params\":[1500.0,-0.125]}\n");
    assert_eq!(
        decode_response("{\"jsonrpc\":\"2.0\",\"result\":[1500.0,-0.125]}"),
        Ok(value)
    );
}

#[test]
fn a_request_is_one_line() {
    let value = JsonValue::Object(vec![
        ("a\nb".to_string(), JsonValue::Str("line\nfeed\r\n".to_string())),
        ("c".to_string(), JsonValue::Array(vec![JsonValue::Str("\n".to_string())])),
    ]);
    let line = encode_request(7, "me\nthod", &value).expect("serializable");
    assert!(line.ends_with('\n'));
    assert_eq!(line.matches('\n').count(), 1);
    assert_eq!(
        line,
        "{\"jsonrpc\":\"2.0\",\"id\":7,\"method\":\"me\\nthod\",\"params\":{\"a\\nb\":\"line\\nfeed\\r\\n\",\"c\":[\"\\n\"]}}\n"
    );
}
