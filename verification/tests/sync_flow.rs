//! Full sync runs driven against a mock remote directory.

use label_sync::default_labels::create_labels;
use label_sync::sync::{
    names_to_delete, response_outcome, step, Config, ListedLabel, SyncAction, SyncError,
    SyncEvent, SyncState,
};

/// A mock remote label directory: a set of names, plus switches that make one
/// delete or one create round trip fail.
struct MockRemote {
    labels: Vec<String>,
    fail_delete_of: Option<String>,
    fail_create_number: Option<usize>,
    deletes_attempted: Vec<String>,
    creates_attempted: Vec<String>,
}

impl MockRemote {
    fn new(labels: &[&str]) -> Self {
        MockRemote {
            labels: labels.iter().map(|s| s.to_string()).collect(),
            fail_delete_of: None,
            fail_create_number: None,
            deletes_attempted: Vec::new(),
            creates_attempted: Vec::new(),
        }
    }

    fn failure() -> SyncError {
        SyncError::Protocol {
            status: 422,
            body: "Validation Failed".to_string(),
        }
    }
}

/// Runs one full sync against the mock remote and returns the final state.
fn run_sync(remote: &mut MockRemote) -> SyncState {
    let (mut state, mut action) = step(SyncState::Idle, SyncEvent::Started);
    loop {
        let event = match action {
            SyncAction::List => {
                let entries: Vec<ListedLabel> = remote
                    .labels
                    .iter()
                    .map(|name| ListedLabel {
                        name: Some(name.clone()),
                    })
                    .collect();
                SyncEvent::Listed {
                    outcome: Ok(entries),
                }
            }
            SyncAction::Delete { name } => {
                remote.deletes_attempted.push(name.clone());
                if remote.fail_delete_of.as_deref() == Some(name.as_str()) {
                    SyncEvent::Deleted {
                        outcome: Err(MockRemote::failure()),
                    }
                } else {
                    remote.labels.retain(|l| *l != name);
                    SyncEvent::Deleted { outcome: Ok(()) }
                }
            }
            SyncAction::Create { label } => {
                remote.creates_attempted.push(label.name().to_string());
                if remote.fail_create_number == Some(remote.creates_attempted.len()) {
                    SyncEvent::Created {
                        outcome: Err(MockRemote::failure()),
                    }
                } else {
                    remote.labels.push(label.name().to_string());
                    SyncEvent::Created { outcome: Ok(()) }
                }
            }
            SyncAction::Stop => return state,
        };
        let (next_state, next_action) = step(state, event);
        state = next_state;
        action = next_action;
    }
}

fn canonical_names() -> Vec<String> {
    create_labels()
        .iter()
        .map(|l| l.name().to_string())
        .collect()
}

#[test]
fn full_run_deletes_in_list_order_then_creates_canonical_set() {
    let mut remote = MockRemote::new(&["bug", "enhancement"]);
    let state = run_sync(&mut remote);

    assert!(matches!(state, SyncState::Done));
    assert_eq!(remote.deletes_attempted, vec!["bug", "enhancement"]);
    assert_eq!(remote.creates_attempted, canonical_names());
    assert_eq!(remote.labels, canonical_names());
}

#[test]
fn failed_delete_stops_later_deletes_and_all_creates() {
    let mut remote = MockRemote::new(&["bug", "enhancement", "question"]);
    remote.fail_delete_of = Some("enhancement".to_string());
    let state = run_sync(&mut remote);

    assert_eq!(remote.deletes_attempted, vec!["bug", "enhancement"]);
    assert!(remote.creates_attempted.is_empty());
    match state {
        SyncState::Failed { error, label } => {
            assert_eq!(label.as_deref(), Some("enhancement"));
            match error {
                SyncError::Protocol { status, body } => {
                    assert_eq!(status, 422);
                    assert_eq!(body, "Validation Failed");
                }
                _ => panic!("expected a protocol failure"),
            }
        }
        _ => panic!("expected the run to fail"),
    }
}

#[test]
fn failed_fifth_create_leaves_exactly_four_labels() {
    let mut remote = MockRemote::new(&[]);
    remote.fail_create_number = Some(5);
    let state = run_sync(&mut remote);

    let first_four: Vec<String> = canonical_names()[..4].to_vec();
    assert_eq!(remote.creates_attempted.len(), 5);
    assert_eq!(remote.labels, first_four);
    match state {
        SyncState::Failed { error, label } => {
            assert_eq!(label.as_deref(), Some(canonical_names()[4].as_str()));
            match error {
                SyncError::Protocol { status, body } => {
                    assert_eq!(status, 422);
                    assert_eq!(body, "Validation Failed");
                }
                _ => panic!("expected a protocol failure"),
            }
        }
        _ => panic!("expected the run to fail"),
    }
}

#[test]
fn empty_remote_goes_straight_to_creating() {
    let mut remote = MockRemote::new(&[]);
    let state = run_sync(&mut remote);

    assert!(matches!(state, SyncState::Done));
    assert!(remote.deletes_attempted.is_empty());
    assert_eq!(remote.labels, canonical_names());
}

#[test]
fn listing_failure_attempts_nothing() {
    let (state, action) = step(SyncState::Idle, SyncEvent::Started);
    assert!(matches!(action, SyncAction::List));
    let (state, action) = step(
        state,
        SyncEvent::Listed {
            outcome: Err(SyncError::Transport {
                message: "connection refused".to_string(),
            }),
        },
    );
    assert!(matches!(action, SyncAction::Stop));
    match state {
        SyncState::Failed { error, label } => {
            assert!(label.is_none());
            assert!(matches!(error, SyncError::Transport { .. }));
        }
        _ => panic!("expected the run to fail"),
    }
}

#[test]
fn names_to_delete_skips_nameless_entries_and_keeps_order() {
    let entries = vec![
        ListedLabel {
            name: Some("bug".to_string()),
        },
        ListedLabel { name: None },
        ListedLabel {
            name: Some("enhancement".to_string()),
        },
    ];
    assert_eq!(names_to_delete(&entries), vec!["bug", "enhancement"]);
}

#[test]
fn response_outcome_accepts_2xx_only() {
    assert!(response_outcome(200, String::new()).is_ok());
    assert!(response_outcome(204, String::new()).is_ok());
    assert!(response_outcome(299, String::new()).is_ok());
    match response_outcome(404, "Not Found".to_string()) {
        Err(SyncError::Protocol { status, body }) => {
            assert_eq!(status, 404);
            assert_eq!(body, "Not Found");
        }
        _ => panic!("expected a protocol failure"),
    }
    assert!(response_outcome(199, String::new()).is_err());
    assert!(response_outcome(301, String::new()).is_err());
}

#[test]
fn config_accepts_a_printable_ascii_token() {
    let config = Config::new(
        "octo".to_string(),
        "utils".to_string(),
        "SECRET-REDACTED".to_string(),
    )
    .expect("token is printable ASCII");
    assert_eq!(config.owner(), "octo");
    assert_eq!(config.repo(), "utils");
    assert_eq!(config.token(), "SECRET-REDACTED");
}

#[test]
fn config_accepts_tab_and_non_ascii_in_the_token() {
    let with_tab = Config::new("o".to_string(), "r".to_string(), "ab\tc".to_string());
    assert!(with_tab.is_ok());
    let non_ascii = Config::new("o".to_string(), "r".to_string(), "caf\u{e9}".to_string());
    assert!(non_ascii.is_ok());
}

#[test]
fn config_rejects_the_delete_character_in_the_token() {
    let result = Config::new("o".to_string(), "r".to_string(), "ab\u{7f}c".to_string());
    assert!(result.is_err());
}

#[test]
fn config_rejects_a_control_character_in_the_token() {
    let result = Config::new(
        "octo".to_string(),
        "utils".to_string(),
        "abc\ndef".to_string(),
    );
    match result {
        Err(SyncError::Config { message }) => {
            assert_eq!(
                message,
                "the credential cannot stand in an authorization header"
            );
        }
        _ => panic!("expected a configuration failure"),
    }
}
