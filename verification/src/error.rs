//! The library's error type.

use vstd::prelude::*;

verus! {

/// What can go wrong in the service and the workers. Store and queue failures
/// carry the message of the underlying error.
#[derive(Debug)]
pub enum ServiceError {
    Database(String),
    Queue(String),
    /// A queue message that is not the text of a UUID; it holds the message.
    InvalidEventId(String),
}

} // verus!
