//! One-shot credential-issuance pipeline.
//!
//! The library resolves a validated issuance configuration from environment
//! values, and drives a strictly linear four-stage pipeline — configuration,
//! attestation-endpoint connection, identity-token fetch, durable write — as a
//! state machine. Every stage's decision logic lives here with a contract; a
//! thin host program performs the socket and file-system work and feeds each
//! outcome back as an event.

pub mod config;
pub mod pipeline;
pub mod run;
