use messterial::consent::{approval_from_payload, approval_from_value};

#[test]
fn payload_approved_true() {
    assert_eq!(approval_from_payload("{\"approved\":true}"), Some(true));
}

#[test]
fn payload_approved_false() {
    assert_eq!(approval_from_payload("{ \"approved\": false }"), Some(false));
}

#[test]
fn payload_with_other_members() {
    assert_eq!(approval_from_payload("{\"version\":\"1.2.0\",\"approved\":true,\"n\":3}"), Some(true));
}

#[test]
fn payload_missing_member() {
    assert_eq!(approval_from_payload("{\"approve\":true}"), None);
    assert_eq!(approval_from_payload("{}"), None);
}

#[test]
fn payload_member_not_boolean() {
    assert_eq!(approval_from_payload("{\"approved\":\"true\"}"), None);
    assert_eq!(approval_from_payload("{\"approved\":1}"), None);
    assert_eq!(approval_from_payload("{\"approved\":null}"), None);
}

#[test]
fn payload_not_an_object() {
    assert_eq!(approval_from_payload("true"), None);
    assert_eq!(approval_from_payload("[true]"), None);
}

#[test]
fn payload_not_json() {
    assert_eq!(approval_from_payload(""), None);
    assert_eq!(approval_from_payload("{\"approved\":true"), None);
    assert_eq!(approval_from_payload("approved"), None);
}

#[test]
fn value_with_member() {
    let v: serde_json::Value = serde_json::from_str("{\"approved\":false,\"other\":true}").unwrap();
    assert_eq!(approval_from_value(&v), Some(false));
    let w = serde_json::Value::Bool(true);
    assert_eq!(approval_from_value(&w), None);
    let mut m = serde_json::Map::new();
    m.insert("approved".to_string(), serde_json::Value::Bool(true));
    assert_eq!(approval_from_value(&serde_json::Value::Object(m)), Some(true));
}
