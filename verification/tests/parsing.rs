//! The listing response body: JSON decoding and the skip rule for entries
//! missing a `name` field.

use label_sync::remote::parse_label_entries;
use label_sync::sync::{names_to_delete, step, SyncAction, SyncError, SyncEvent, SyncState};

#[test]
fn parses_names_in_list_order() {
    let body = r#"[{"name":"bug","color":"d73a4a"},{"name":"enhancement"}]"#;
    let entries = parse_label_entries(body).expect("a JSON array parses");
    assert_eq!(names_to_delete(&entries), vec!["bug", "enhancement"]);
}

#[test]
fn entry_missing_name_is_skipped_without_error() {
    let body = r#"[{"name":"bug"},{"color":"FFFFFF"},{"name":"enhancement"}]"#;
    let entries = parse_label_entries(body).expect("a JSON array parses");
    assert_eq!(entries.len(), 3);
    assert_eq!(names_to_delete(&entries), vec!["bug", "enhancement"]);
}

#[test]
fn entry_with_non_string_name_is_skipped() {
    let body = r#"[{"name":7},{"name":"bug"}]"#;
    let entries = parse_label_entries(body).expect("a JSON array parses");
    assert_eq!(names_to_delete(&entries), vec!["bug"]);
}

#[test]
fn nameless_entry_does_not_abort_the_run() {
    let body = r#"[{"name":"bug"},{"color":"FFFFFF"},{"name":"enhancement"}]"#;
    let entries = parse_label_entries(body).expect("a JSON array parses");

    let (state, action) = step(SyncState::Idle, SyncEvent::Started);
    assert!(matches!(action, SyncAction::List));
    let (_, action) = step(state, SyncEvent::Listed { outcome: Ok(entries) });
    match action {
        SyncAction::Delete { name } => assert_eq!(name, "bug"),
        _ => panic!("expected the first delete"),
    }
}

#[test]
fn invalid_json_is_a_parse_failure() {
    match parse_label_entries("not json") {
        Err(SyncError::Parse { message }) => assert!(!message.is_empty()),
        _ => panic!("expected a parse failure"),
    }
}

#[test]
fn non_array_json_is_a_parse_failure() {
    match parse_label_entries(r#"{"message":"Not Found"}"#) {
        Err(SyncError::Parse { message }) => {
            assert_eq!(message, "the response is not a JSON array");
        }
        _ => panic!("expected a parse failure"),
    }
}

#[test]
fn empty_array_parses_to_no_entries() {
    let entries = parse_label_entries("[]").expect("an empty array parses");
    assert!(entries.is_empty());
    assert!(names_to_delete(&entries).is_empty());
}
