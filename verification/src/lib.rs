//! The coordination layer of a coin-swap relay.
//!
//! Clients submit swaps over JSON-RPC; a scheduler runs a round on the swap
//! engine at a fixed interval. This crate holds the rules of that layer:
//!
//! - [`transport`]: which requests reach the endpoint at all;
//! - [`request`]: what a complete swap request is;
//! - [`endpoint`]: how the engine's answer becomes the response;
//! - [`error`]: how a failure of the engine is reported to a client;
//! - [`server`]: the engine behind its lock, shared by clients and scheduler;
//! - [`scheduler`]: when a round is due and when the loop ends;
//! - [`engine`]: what is asked of a swap engine;
//! - [`commitment`]: commitments as they appear in messages.

pub mod commitment;
pub mod endpoint;
pub mod engine;
pub mod error;
mod lock;
pub mod request;
pub mod scheduler;
pub mod server;
pub mod transport;
