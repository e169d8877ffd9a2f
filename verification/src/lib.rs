//! Sandboxed building of untrusted package recipes: the decisions of the
//! review gate, the two-phase build and the artifact naming, as verified
//! functions over plain values.

pub mod building;
pub mod command;
pub mod lint;
pub mod metadata;
pub mod orchestrator;
pub mod review;
pub mod sandbox;
pub mod text;
