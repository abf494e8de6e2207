//! A cooperative task runtime for modules that live inside a
//! single-threaded, event-driven host, as a verified model: timer
//! registration with lazy-delay coalescing, posted-event queues, the sleep
//! state machine, the executor with its scheduling rule and the life of its
//! tasks, the peer-connection state machine, and the bridge between a
//! request of the host and the work done for it.
//!
//! Nothing here performs I/O or touches host memory. Every operation takes
//! the part of the host state it acts on as an argument and says in its
//! contract what it does to it. Where the host has to act in the middle of
//! an operation, the operation is split there: one function tells the
//! caller what to ask of the host, and another takes the host's answer.
//!
//! [`host`] holds the primitives of the host, [`async_`] the runtime on top
//! of them, [`http`] the access to module configuration, and [`build`] what
//! the build of the host bindings computes.

pub mod async_;
pub mod build;
pub mod host;
pub mod http;
