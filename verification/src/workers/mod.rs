pub mod dispatcher;
pub mod job;
