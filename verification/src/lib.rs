//! Core of a personal productivity backend: accounts, a task list, a dated
//! journal and the dashboard summary computed from them.
//!
//! Every store is an explicit value with a mathematical view; every operation
//! states in its contract what it returns and how the store changes.

/// The API boundary: operations mapped onto store calls and answers.
pub mod api;
/// Calendar dates written `YYYY-MM-DD`.
pub mod calendar;
/// The credential store: registration and login.
pub mod credentials;
/// The dashboard aggregator.
pub mod dashboard;
/// Failures and their rendering as status code and message.
pub mod error;
/// Unique identifiers.
pub mod ident;
/// The journal store.
pub mod journal;
/// Laws that relate the operations to one another.
pub mod laws;
/// Rows and payloads.
pub mod model;
/// Password hashing and verification.
pub mod password;
/// The task store.
pub mod tasks;
