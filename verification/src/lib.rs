//! Reconciliation core of a cluster-fleet lifecycle operator.
//!
//! The crate holds the decisions of the operator as verified functions on
//! plain values: the diff-before-patch engine, the finalizer state machine,
//! the dynamic watch registry, the broadcast dispatcher and the readiness
//! barrier. Network and process I/O stay with the caller, which performs the
//! commands these functions hand out and feeds the outcomes back in.

pub mod api;
pub mod controller;
pub mod controllers;
pub mod error;
pub mod meta;
pub mod metrics;
pub mod multi_dispatcher;
pub mod predicates;
pub mod runtime;
pub mod string_map;
pub mod text;
