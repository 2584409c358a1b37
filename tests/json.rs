use aur::json::get_field;
use aur::{Json, JsonNumber};

#[test]
fn later_member_wins() {
    let members = vec![
        ("a".to_string(), Json::Bool(true)),
        ("b".to_string(), Json::Null),
        ("a".to_string(), Json::Bool(false)),
    ];
    assert!(matches!(get_field(&members, "a"), Some(Json::Bool(false))));
    assert!(matches!(get_field(&members, "b"), Some(Json::Null)));
    assert!(get_field(&members, "c").is_none());
}

#[test]
fn number_copy_keeps_value() {
    assert!(matches!(JsonNumber::NegInt(-4).copy(), JsonNumber::NegInt(-4)));
    assert!(matches!(JsonNumber::Float("1e3".to_string()).copy(), JsonNumber::Float(t) if t == "1e3"));
}
