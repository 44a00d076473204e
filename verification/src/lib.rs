//! Core logic of an event-subscription session client: credential handling,
//! subscription negotiation, the transport session state machine, event
//! dispatch, and outbound command planning.
//!
//! The crate holds no I/O. Network and file effects are performed by a driver
//! that feeds plain values in and carries requested actions out; everything
//! that decides or computes lives here, with its contract.

pub mod auth;
pub mod client;
pub mod credentials;
pub mod dispatcher;
pub mod errors;
pub mod session;
pub mod subscribe;
