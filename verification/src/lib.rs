//! Core of a self-upgrade workflow for a developer tool.
//!
//! The library resolves where the new version comes from, prepares the
//! evaluation requests for the upgrade expression, filters and renders the
//! changelog against the running version, and sequences the build and
//! install steps as a state machine whose decisions are verified.  All
//! input/output — writing the expression to the content-addressable store,
//! running the evaluator and the installer — is performed by the caller,
//! which feeds the observed outcomes back into the state machine.

pub mod changelog;
pub mod error;
pub mod request;
pub mod run;
pub mod source;
pub mod text;
pub mod version;
