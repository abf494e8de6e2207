//! What the runtime needs of the host's HTTP side: access to module
//! configuration.

pub mod conf;
