//! The canonical taxonomy: size, uniqueness, colors and conversion.

use label_sync::default_labels::{
    convert, create_labels, EnvLabel, LabelConvertible, TypeLabel, WorkflowLabel,
};

fn is_hex_color(s: &str) -> bool {
    s.len() == 6 && s.chars().all(|c| c.is_ascii_digit() || ('A'..='F').contains(&c))
}

#[test]
fn canonical_set_has_21_labels() {
    assert_eq!(create_labels().len(), 21);
}

#[test]
fn canonical_names_have_no_duplicates() {
    let labels = create_labels();
    for i in 0..labels.len() {
        for j in 0..labels.len() {
            if i != j {
                assert_ne!(labels[i].name(), labels[j].name());
            }
        }
    }
}

#[test]
fn canonical_order_is_category_then_declaration() {
    let labels = create_labels();
    let expected = [
        "env: cross-platform",
        "env: linux",
        "env: macos",
        "env: windows",
        "type: build",
        "type: chore",
        "type: ci",
        "type: docs",
        "type: feat",
        "type: fix",
        "type: perf",
        "type: refactor",
        "type: revert",
        "type: style",
        "type: test",
        "workflow: critical",
        "workflow: discussion-needed",
        "workflow: good-first-issue",
        "workflow: help-wanted",
        "workflow: needs-triage",
        "workflow: up-for-grabs",
    ];
    assert_eq!(labels.len(), expected.len());
    for (label, name) in labels.iter().zip(expected.iter()) {
        assert_eq!(label.name(), *name);
    }
}

#[test]
fn every_color_is_six_upper_hex_digits() {
    for label in create_labels() {
        assert!(is_hex_color(label.color()), "bad color: {}", label.color());
    }
}

#[test]
fn trait_colors_are_six_upper_hex_digits() {
    assert!(is_hex_color(EnvLabel::Windows.color()));
    assert!(is_hex_color(TypeLabel::Revert.color()));
    assert!(is_hex_color(WorkflowLabel::NeedsTriage.color()));
}

#[test]
fn convert_is_deterministic() {
    let a = convert(&TypeLabel::Fix);
    let b = convert(&TypeLabel::Fix);
    assert!(a == b);
    assert_eq!(a.name(), b.name());
    assert_eq!(a.description(), b.description());
    assert_eq!(a.color(), b.color());
}

#[test]
fn convert_copies_the_capability_fields() {
    let label = convert(&EnvLabel::MacOS);
    assert_eq!(label.name(), "env: macos");
    assert_eq!(label.description(), "Exclusively for macOS-related topics.");
    assert_eq!(label.color(), "6A5ACD");

    let label = convert(&WorkflowLabel::GoodFirstIssue);
    assert_eq!(label.name(), "workflow: good-first-issue");
    assert_eq!(label.description(), "Suitable for new contributors.");
    assert_eq!(label.color(), "FF69B4");
}

#[test]
fn distinct_variants_convert_to_distinct_labels() {
    assert!(convert(&TypeLabel::Ci) != convert(&TypeLabel::Docs));
}
