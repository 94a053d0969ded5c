//! A typed client core for the Anthropic HTTP API.
//!
//! The crate holds the decisions of the client: which request a call issues,
//! how a response is classified and which error it becomes, and how the bytes
//! of an event stream are reframed into events. Every function is verified
//! against its contract; sending and receiving are left to the caller.

pub mod admin_client;
pub mod client;
pub mod decimal;
pub mod error;
pub mod files;
pub mod json;
pub mod message_batches;
pub mod messages;
pub mod query;
pub mod request;
pub mod response;
pub mod stream;
pub mod types;
