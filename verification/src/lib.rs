//! Core of an order-management front door: request validation, an order
//! registry with unique identifier issuance, and a per-order lifecycle
//! state machine, orchestrated by a submission coordinator.
//!
//! The network transport that delivers requests and the clock and
//! market-data collaborators live outside this library: callers hand in
//! parsed requests, timestamps and an optional reference price, and get
//! typed results back.

pub mod coordinator;
pub mod lifecycle;
pub mod registry;
pub mod validator;
