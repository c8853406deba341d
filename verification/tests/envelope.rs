use baxe::envelope::BaxeError;

#[test]
fn envelope_holds_the_four_fields() {
    let e = BaxeError::new(400, "bad_request".to_string(), 1001, "Invalid input".to_string());
    assert_eq!(e.status_code, 400);
    assert_eq!(e.error_tag, "bad_request");
    assert_eq!(e.code, 1001);
    assert_eq!(e.message, "Invalid input");
}

#[test]
fn serialized_form_has_no_status_field() {
    let e = BaxeError::new(400, "bad_request".to_string(), 1001, "Invalid input".to_string());
    let s = e.serialized();
    assert_eq!(s, "{\"message\":\"Invalid input\",\"code\":1001,\"error_tag\":\"bad_request\"}");
    let v: serde_json::Value = serde_json::from_str(&s).unwrap();
    assert!(v.get("status").is_none());
    assert!(v.get("status_code").is_none());
    assert_eq!(v.get("message").unwrap().as_str().unwrap(), "Invalid input");
    assert_eq!(v.get("code").unwrap().as_u64().unwrap(), 1001);
    assert_eq!(v.get("error_tag").unwrap().as_str().unwrap(), "bad_request");
    // The status is still separately retrievable from the envelope.
    assert_eq!(e.status_code, 400);
}

#[test]
fn serialization_ignores_the_status() {
    let a = BaxeError::new(400, "t".to_string(), 9, "m".to_string()).serialized();
    let b = BaxeError::new(500, "t".to_string(), 9, "m".to_string()).serialized();
    assert_eq!(a, b);
}

#[test]
fn response_pairs_status_with_serialized_envelope() {
    let e = BaxeError::new(400, "bad_request".to_string(), 1001, "Invalid input".to_string());
    let body = e.serialized();
    let (status, sent) = e.into_response();
    assert_eq!(status, 400);
    assert_eq!(sent, body);
}

#[test]
fn display_text_is_the_message() {
    let e = BaxeError::new(500, "internal".to_string(), 3, "boom".to_string());
    assert_eq!(e.to_string(), "boom");
}

#[test]
fn message_escaping_round_trips_through_a_json_parser() {
    let raw = "a\"b\\c\nd\te\u{1}f";
    let e = BaxeError::new(1, "t\"g".to_string(), 0, raw.to_string());
    let s = e.serialized();
    let v: serde_json::Value = serde_json::from_str(&s).unwrap();
    assert_eq!(v.get("message").unwrap().as_str().unwrap(), raw);
    assert_eq!(v.get("error_tag").unwrap().as_str().unwrap(), "t\"g");
    assert_eq!(v.get("code").unwrap().as_u64().unwrap(), 0);
}

#[test]
fn codes_render_in_decimal() {
    let zero = BaxeError::new(1, "t".to_string(), 0, "m".to_string()).serialized();
    assert!(zero.contains("\"code\":0,"));
    let max = BaxeError::new(1, "t".to_string(), 65535, "m".to_string()).serialized();
    assert!(max.contains("\"code\":65535,"));
    let mid = BaxeError::new(1, "t".to_string(), 1030, "m".to_string()).serialized();
    assert!(mid.contains("\"code\":1030,"));
}
