//! Host primitives: status codes, events, the timer tree, the posted-event
//! queues and connections.

pub mod buffer;
pub mod conf_file;
pub mod connection;
pub mod event;
pub mod hash;
pub mod list;
pub mod pool;
pub mod rbtree;
pub mod status;
pub mod string;
