//! An arbitration proxy: records disputes between two parties, collects the
//! required stake payments, relays rulings from a remote arbitration process,
//! and hands the final ruling to an external arbitrable settlement contract.
//!
//! The crate is a verified model of the dispute lifecycle: creation, funding,
//! evidence submission, remote binding, ruling, and execution. The host
//! environment (durable storage, caller authentication, event publication,
//! and the actual cross-contract invocation) stays outside; operations take
//! the authenticated caller as a plain value and append the notifications
//! they would publish to an ordered event log.

pub mod error;
pub mod laws;
pub mod proxy;
pub mod types;
