//! Buffers of the host whose headers, and for temporary buffers whose
//! bytes, lie in a pool.

use crate::host::pool::{PoolRef, PoolState};
use vstd::prelude::*;
use vstd::string::StringSliceAdditionalSpecFns;

verus! {

/// The bytes that the header of a buffer takes in the pool.
pub const NGX_BUF_SIZE: usize = 80;

/// A buffer whose bytes lie in the pool and may be changed: the room from
/// `start` to `end`, of which the bytes from `pos` to `last` are its
/// content.
#[derive(Clone, Copy, Debug, PartialEq, Eq, Structural)]
pub struct TemporaryBuffer {
    /// Where the header lies in the pool.
    pub header: usize,
    pub start: usize,
    pub pos: usize,
    pub last: usize,
    pub end: usize,
}

/// A buffer whose bytes lie in memory that is only read, outside the
/// pool. All of the text is its content.
#[derive(Clone, Copy, Debug)]
pub struct MemoryBuffer {
    /// Where the header lies in the pool.
    pub header: usize,
    pub text: &'static str,
}

impl TemporaryBuffer {
    /// The content of the buffer, which lies in `pool`.
    pub open spec fn content(self, pool: PoolState) -> Seq<u8> {
        pool.bytes.subrange(self.pos as int, self.last as int)
    }
}

/// Whether a temporary buffer of `size` bytes fits into the pool: its
/// header, and behind it its bytes.
pub open spec fn buffer_fits(pool: PoolState, size: usize) -> bool {
    pool.fits(NGX_BUF_SIZE, true) && pool.after_calloc(NGX_BUF_SIZE).fits(size, true)
}

/// The pool with the first `n` of the bytes `text` stored from `at` on.
pub open spec fn stored(pool: PoolState, at: int, text: Seq<u8>, n: int) -> PoolState {
    PoolState {
        bytes: Seq::new(
            pool.bytes.len(),
            |i: int|
                if at <= i < at + n {
                    text[i - at]
                } else {
                    pool.bytes[i]
                },
        ),
        ..pool
    }
}

impl PoolRef {
    /// Creates a buffer with room for `size` bytes and no content. The
    /// header is taken from the pool, zeroed, and then the room. There is no
    /// buffer where either does not fit; a header that was taken stays
    /// taken.
    pub fn create_buffer(&mut self, size: usize) -> (r: Option<TemporaryBuffer>)
        requires
            old(self).wf(),
        ensures
            final(self).wf(),
            buffer_fits(old(self)@, size) ==> {
                &&& r matches Some(b)
                &&& b.header == old(self)@.start(true)
                &&& b.start == old(self)@.after_calloc(NGX_BUF_SIZE).start(true)
                &&& b.pos == b.start
                &&& b.last == b.start
                &&& b.end == b.start + size
                &&& final(self)@ == old(self)@.after_calloc(NGX_BUF_SIZE).after_alloc(size, true)
            },
            !old(self)@.fits(NGX_BUF_SIZE, true) ==> r.is_none() && final(self)@ == old(self)@,
            old(self)@.fits(NGX_BUF_SIZE, true) && !buffer_fits(old(self)@, size) ==> r.is_none()
                && final(self)@ == old(self)@.after_calloc(NGX_BUF_SIZE),
    {
        let capacity = self.capacity();
        let header = match self.calloc(NGX_BUF_SIZE) {
            Some(h) => h,
            None => {
                return None;
            },
        };
        let start = match self.palloc(size) {
            Some(s) => s,
            None => {
                return None;
            },
        };
        Some(TemporaryBuffer { header, start, pos: start, last: start, end: start + size })
    }

    /// Creates a buffer whose content is a copy of `text`, where a buffer
    /// of that size fits.
    pub fn create_buffer_from_str(&mut self, text: &str) -> (r: Option<TemporaryBuffer>)
        requires
            old(self).wf(),
        ensures
            final(self).wf(),
            r.is_some() == buffer_fits(old(self)@, text.spec_bytes().len() as usize),
            r matches Some(b) ==> {
                &&& b.header == old(self)@.start(true)
                &&& b.start == old(self)@.after_calloc(NGX_BUF_SIZE).start(true)
                &&& b.pos == b.start
                &&& b.last == b.start + text.spec_bytes().len()
                &&& b.end == b.last
                &&& b.content(final(self)@) == text.spec_bytes()
                &&& final(self)@ == stored(
                    old(self)@.after_calloc(NGX_BUF_SIZE).after_alloc(
                        text.spec_bytes().len() as usize,
                        true,
                    ),
                    b.start as int,
                    text.spec_bytes(),
                    text.spec_bytes().len() as int,
                )
            },
    {
        let bytes = text.as_bytes();
        let n = bytes.len();
        let mut buffer = match self.create_buffer(n) {
            Some(b) => b,
            None => {
                return None;
            },
        };
        let ghost taken = self@;
        let capacity = self.capacity();
        let mut i: usize = 0;
        assert(self@ =~= stored(taken, buffer.start as int, bytes@, 0)) by {
            assert(self@.bytes =~= stored(taken, buffer.start as int, bytes@, 0).bytes);
        }
        while i < n
            invariant
                i <= n,
                n == bytes@.len(),
                self.wf(),
                capacity == self@.bytes.len(),
                buffer.start + n <= self@.bytes.len(),
                self@ == stored(taken, buffer.start as int, bytes@, i as int),
            decreases n - i,
        {
            self.set_byte(buffer.start + i, bytes[i]);
            assert(self@.bytes =~= stored(taken, buffer.start as int, bytes@, i + 1).bytes);
            i = i + 1;
        }
        buffer.last = buffer.pos + n;
        assert(buffer.content(self@) =~= bytes@);
        Some(buffer)
    }

    /// Creates a buffer whose content is `text` itself, which lies outside
    /// the pool and stays where it is: only the header is taken from the
    /// pool, zeroed.
    pub fn create_buffer_from_static_str(&mut self, text: &'static str) -> (r: Option<
        MemoryBuffer,
    >)
        requires
            old(self).wf(),
        ensures
            final(self).wf(),
            old(self)@.fits(NGX_BUF_SIZE, true) ==> {
                &&& r matches Some(b)
                &&& b.header == old(self)@.start(true)
                &&& b.text == text
                &&& final(self)@ == old(self)@.after_calloc(NGX_BUF_SIZE)
            },
            !old(self)@.fits(NGX_BUF_SIZE, true) ==> r.is_none() && final(self)@ == old(self)@,
    {
        let capacity = self.capacity();
        match self.calloc(NGX_BUF_SIZE) {
            Some(header) => Some(MemoryBuffer { header, text }),
            None => None,
        }
    }
}

} // verus!
