use moon_shadow_photo::json::{capture_payload, command_payload, hello_payload};

#[test]
fn command_payloads() {
    assert_eq!(command_payload("SetQuality", 10), r#"{"cmd":"SetQuality","value":10}"#);
    assert_eq!(command_payload("SetFramesize", 255), r#"{"cmd":"SetFramesize","value":255}"#);
}

#[test]
fn capture_payloads() {
    assert_eq!(capture_payload(-1, -1, 0), r#"{"exposure":-1,"gain":-1,"stack_secs":0}"#);
    assert_eq!(capture_payload(1200, 30, 10), r#"{"exposure":1200,"gain":30,"stack_secs":10}"#);
    assert_eq!(
        capture_payload(i32::MIN, i32::MAX, u32::MAX),
        r#"{"exposure":-2147483648,"gain":2147483647,"stack_secs":4294967295}"#
    );
}

#[test]
fn hello_payloads() {
    assert_eq!(
        hello_payload("moon-shadow", 9, 12),
        r#"{"device_id":"moon-shadow","framesize":9,"msg":"booted","quality":12}"#
    );
}

#[test]
fn strings_are_escaped() {
    assert_eq!(
        hello_payload("a\"b\\c\n\t\r\u{8}\u{c}\u{1}\u{1f}\u{7f}é/", 0, 0),
        "{\"device_id\":\"a\\\"b\\\\c\\n\\t\\r\\b\\f\\u0001\\u001f\u{7f}é/\",\"framesize\":0,\"msg\":\"booted\",\"quality\":0}"
    );
}

#[test]
fn payloads_parse_as_json() {
    let v: serde_json::Value = serde_json::from_str(&hello_payload("x\u{2}\"y", 3, 4)).unwrap();
    assert_eq!(v["device_id"].as_str(), Some("x\u{2}\"y"));
    assert_eq!(v["framesize"].as_u64(), Some(3));
    assert_eq!(v["msg"].as_str(), Some("booted"));
    assert_eq!(v["quality"].as_u64(), Some(4));
    let c: serde_json::Value = serde_json::from_str(&capture_payload(-1, 7, 2)).unwrap();
    assert_eq!(c["exposure"].as_i64(), Some(-1));
    assert_eq!(c["gain"].as_i64(), Some(7));
    assert_eq!(c["stack_secs"].as_u64(), Some(2));
}

#[test]
fn payloads_differ_by_what_they_say() {
    assert_ne!(command_payload("SetQuality", 1), command_payload("SetQuality", 11));
    assert_ne!(command_payload("a\"", 1), command_payload("a\\\"", 1));
    assert_ne!(capture_payload(1, 23, 4), capture_payload(12, 3, 4));
    assert_ne!(capture_payload(-1, 0, 0), capture_payload(1, 0, 0));
}
