//! Reconciles the label set of one remote issue-tracker repository against a
//! fixed, compiled-in taxonomy of 21 labels drawn from three closed categories
//! (environment, change-type, workflow-status).
//!
//! The taxonomy, the conversion of its variants into uniform label records,
//! and the list -> delete -> create synchronization protocol live here, each
//! with a verified contract. The HTTP transport that carries the protocol's
//! requests is left to the surrounding program, which drives the verified
//! state machine in [`sync`] one remote round trip at a time.

pub mod default_labels;
pub mod remote;
pub mod sync;
