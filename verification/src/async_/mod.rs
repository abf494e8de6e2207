//! The cooperative runtime on top of the host's event loop.

pub mod http;
pub mod peer;
pub mod poll;
pub mod queue;
pub mod request;
pub mod sleep;
pub mod spawn;
