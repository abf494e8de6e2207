//! The status codes of the host.

use vstd::prelude::*;

verus! {

/// The operation succeeded.
pub const NGX_OK: isize = 0;

/// The operation failed.
pub const NGX_ERROR: isize = -1;

/// The operation is not complete: try again when the host reports
/// readiness.
pub const NGX_AGAIN: isize = -2;

/// The resource is busy.
pub const NGX_BUSY: isize = -3;

/// The operation is done or goes on elsewhere.
pub const NGX_DONE: isize = -4;

/// The operation was declined.
pub const NGX_DECLINED: isize = -5;

/// The operation was aborted.
pub const NGX_ABORT: isize = -6;

/// A status code of the host.
#[derive(Clone, Copy, Debug, PartialEq, Eq, Structural)]
pub struct Status(pub isize);

impl Status {
    /// Whether the status is the host's success code.
    pub fn is_ok(&self) -> (r: bool)
        ensures
            r == (self.0 == NGX_OK),
    {
        self.0 == NGX_OK
    }

    /// Whether the status is one of the three codes by which the host
    /// refuses an operation outright: error, busy, declined.
    pub fn is_refusal(&self) -> (r: bool)
        ensures
            r == (self.0 == NGX_ERROR || self.0 == NGX_BUSY || self.0 == NGX_DECLINED),
    {
        self.0 == NGX_ERROR || self.0 == NGX_BUSY || self.0 == NGX_DECLINED
    }
}

} // verus!
