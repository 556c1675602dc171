use arch_forum::json::{bool_or_false, both_present, credentials_from, string_or};

fn document(text: &str) -> serde_json::Value {
    serde_json::from_str(text).unwrap()
}

#[test]
fn credentials_need_both_members_as_strings() {
    assert_eq!(
        credentials_from(r#"{"username": "alice", "password": "s3cret"}"#),
        Some(("alice".to_string(), "s3cret".to_string()))
    );
    assert_eq!(
        credentials_from(r#"{"password": "", "username": "", "other": 1}"#),
        Some((String::new(), String::new()))
    );
    assert_eq!(credentials_from(r#"{"username": "alice"}"#), None);
    assert_eq!(credentials_from(r#"{"password": "x"}"#), None);
    assert_eq!(credentials_from(r#"{"username": 7, "password": "x"}"#), None);
    assert_eq!(credentials_from(r#"{"username": "a", "password": null}"#), None);
    assert_eq!(credentials_from(r#"["username", "password"]"#), None);
    assert_eq!(credentials_from(r#""username""#), None);
}

#[test]
fn credentials_need_a_json_document() {
    assert_eq!(credentials_from(""), None);
    assert_eq!(credentials_from("username=alice"), None);
    assert_eq!(credentials_from(r#"{"username": "a", "password": "b"} trailing"#), None);
    assert_eq!(credentials_from(r#"{"username": "a", "password": "b""#), None);
}

#[test]
fn both_present_pairs_two_texts() {
    assert_eq!(
        both_present(Some("a".to_string()), Some("b".to_string())),
        Some(("a".to_string(), "b".to_string()))
    );
    assert_eq!(both_present(Some("a".to_string()), None), None);
    assert_eq!(both_present(None, Some("b".to_string())), None);
    assert_eq!(both_present(None, None), None);
}

#[test]
fn string_members_fall_back_to_the_default() {
    let doc = document(r#"{"cmd": "list", "n": 3, "name": ""}"#);
    assert_eq!(string_or(&doc, "cmd", ""), "list");
    assert_eq!(string_or(&doc, "missing", ""), "");
    assert_eq!(string_or(&doc, "missing", "General"), "General");
    assert_eq!(string_or(&doc, "n", "General"), "General");
    assert_eq!(string_or(&doc, "name", "General"), "");
    assert_eq!(string_or(&document("[1]"), "cmd", "d"), "d");
    assert_eq!(string_or(&document("null"), "cmd", "d"), "d");
}

#[test]
fn truth_members_fall_back_to_false() {
    let doc = document(r#"{"available": true, "taken": false, "text": "true", "n": 1}"#);
    assert!(bool_or_false(&doc, "available"));
    assert!(!bool_or_false(&doc, "taken"));
    assert!(!bool_or_false(&doc, "text"));
    assert!(!bool_or_false(&doc, "n"));
    assert!(!bool_or_false(&doc, "missing"));
    assert!(!bool_or_false(&document("true"), "available"));
}
