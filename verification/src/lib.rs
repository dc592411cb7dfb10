//! A transaction-scoping core for a relational store.
//!
//! The crate opens a database transaction, hands caller logic a
//! capability-scoped handle into it, and commits or rolls back depending on
//! the logic's outcome. It distinguishes infrastructure failures from
//! business-logic failures in a single error taxonomy, states the
//! commit/rollback protocol as a verified state machine, and proves the
//! atomicity guarantee against an in-memory model of the store.

pub mod bootstrap;
pub mod error;
pub mod model;
pub mod outside;
pub mod server;
pub mod system;
pub mod tx;
