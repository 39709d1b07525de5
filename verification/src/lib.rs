//! Core of a command-line client that logs a user in to a hosted
//! infrastructure-management service through the OAuth2 device-authorization
//! flow, keeps the obtained bearer token for the rest of the process, and
//! persists it between runs.
//!
//! The decision logic is verified: the device flow is a state machine
//! ([`engine`]) whose transitions follow the specification in [`model`], the
//! in-process token cache ([`session`]) is a write-once slot, and the on-disk
//! credential ([`store`]) is modelled as a single optional value.  The host
//! binary performs the prompts, HTTP calls, sleeps and file accesses that the
//! machine's actions request, and feeds the results back as events.

pub mod db;
pub mod engine;
pub mod json;
pub mod laws;
pub mod logout;
pub mod model;
pub mod requests;
pub mod session;
pub mod store;
