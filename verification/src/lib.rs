//! Webhook relay: the records, rules and state machines behind a service that
//! accepts events for a webhook, queues them, and delivers each event to every
//! destination of the webhook with bounded, exponentially backed-off retries.
//!
//! Storage, the queue and HTTP live with the program that embeds this library;
//! what is decided here is verified.

pub mod clock;
pub mod error;
pub mod ids;
pub mod models;
pub mod services;
pub mod workers;
