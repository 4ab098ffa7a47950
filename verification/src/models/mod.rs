pub mod destination;
pub mod event;
pub mod webhook;
