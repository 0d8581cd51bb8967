//! The Messages API: requests, responses and the event stream.

pub mod request;
pub mod response;
pub mod streaming;
