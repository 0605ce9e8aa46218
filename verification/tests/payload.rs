use webhook_notify::payload::embed_ready_body;
use webhook_notify::payload::json_escape_string;

#[test]
fn body_is_exact_for_plain_id() {
    let body = embed_ready_body("abc-123");
    assert_eq!(body, "{\"datasourceId\": \"abc-123\"}");
}

#[test]
fn body_for_empty_id() {
    let body = embed_ready_body("");
    assert_eq!(body, "{\"datasourceId\": \"\"}");
}

#[test]
fn escape_leaves_plain_text_unchanged() {
    assert_eq!(json_escape_string("datasource_41"), "datasource_41");
}

#[test]
fn escape_quotes_and_backslashes() {
    assert_eq!(json_escape_string("a\"b\\c"), "a\\\"b\\\\c");
}

#[test]
fn escape_named_control_characters() {
    assert_eq!(json_escape_string("a\nb\tc\rd"), "a\\nb\\tc\\rd");
    assert_eq!(json_escape_string("\u{8}\u{c}"), "\\b\\f");
}

#[test]
fn escape_other_control_characters_as_hex() {
    assert_eq!(json_escape_string("\u{1}\u{1f}"), "\\u0001\\u001f");
}

#[test]
fn body_parses_as_json_with_one_field() {
    let body = embed_ready_body("abc-123");
    let v: serde_json::Value = serde_json::from_str(&body).unwrap();
    assert_eq!(v.as_object().unwrap().len(), 1);
    assert_eq!(v.get("datasourceId").unwrap().as_str().unwrap(), "abc-123");
}

#[test]
fn body_with_escapes_round_trips_through_json() {
    let id = "we\"ird\\id\nwith\tcontrol\u{1}chars\u{1f}";
    let body = embed_ready_body(id);
    let v: serde_json::Value = serde_json::from_str(&body).unwrap();
    assert_eq!(v.as_object().unwrap().len(), 1);
    assert_eq!(v.get("datasourceId").unwrap().as_str().unwrap(), id);
}

#[test]
fn distinct_ids_give_distinct_bodies() {
    let body_a = embed_ready_body("first-source");
    let body_b = embed_ready_body("second-source");
    assert_eq!(body_a, "{\"datasourceId\": \"first-source\"}");
    assert_eq!(body_b, "{\"datasourceId\": \"second-source\"}");
    assert_ne!(body_a, body_b);
}
