use pandora::json::{JsonNumber, JsonValue};
use pandora::broadcaster::BroadcastDetails;

#[test]
fn deep_clone_copies_everything() {
    let v = JsonValue::Object(vec![
        ("a".to_string(), JsonValue::Array(vec![JsonValue::Null, JsonValue::Bool(true)])),
        ("b".to_string(), JsonValue::Number(JsonNumber::Float("1.5".to_string()))),
        ("c".to_string(), JsonValue::Number(JsonNumber::NegInt(-3))),
    ]);
    assert_eq!(v.deep_clone(), v);
}

#[test]
fn lookup_takes_first_entry() {
    let v = JsonValue::Object(vec![
        ("k".to_string(), JsonValue::Bool(true)),
        ("k".to_string(), JsonValue::Bool(false)),
    ]);
    assert_eq!(v.get("k"), Some(&JsonValue::Bool(true)));
    assert_eq!(v.get("x"), None);
    assert_eq!(JsonValue::Null.get("k"), None);
}

#[test]
fn details_text_of_a_name_after_add() {
    let d = BroadcastDetails::default().add("x", "1").add("y", "2");
    let d = d.add("x", "3");
    assert_eq!(d.informations[0], ("x".to_string(), "3".to_string()));
    assert_eq!(d.informations[1], ("y".to_string(), "2".to_string()));
    assert_eq!(d.informations.len(), 2);
}
