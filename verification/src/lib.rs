//! Sender validation and message dispatch core for an SMS delivery service.
//!
//! The crate decides whether a requested sender identity (an E.164 phone
//! number or a textual alpha tag) is authorized to originate traffic, and
//! models the two delivery strategies: a direct, provider-backed send and a
//! durable-queue hand-off. Network transports (the provider's HTTP API and
//! the broker connection) live outside the library and hand it plain values.

pub mod api;
pub mod clicksend;
pub mod client;
pub mod error;
pub mod mock;
pub mod json;
pub mod queue;
pub mod routes;
pub mod shared;
pub mod validators;

pub use error::{AppError, AppResult};
