//! Query execution and result marshalling for a SQL Server bridge.
//!
//! The crate decides everything about one query exchange that does not need
//! the network: how a statement is classified, how its parameters are bound,
//! how the rows that come back are turned into JSON-ready rows, and what is
//! reported when a stage fails. The caller performs the network operations
//! and reports their outcomes.
//!
//! - [`request`]: the request that a caller hands in.
//! - [`statement`]: row-producing or row-affecting, decided from the text.
//! - [`binder`]: the statement as it is sent, with its parameters bound.
//! - [`connection`]: the server to connect to and the client configuration.
//! - [`row`]: rows as the server returns them.
//! - [`json`] and [`projection`]: rows as the caller receives them.
//! - [`failure`]: the stages and the text of a failure.
//! - [`exchange`]: the sequence of actions that serves one request.

pub mod binder;
pub mod connection;
pub mod exchange;
pub mod failure;
pub mod json;
pub mod projection;
pub mod request;
pub mod row;
pub mod statement;
