//! The memory pool: an arena of a fixed number of bytes that hands out
//! ranges from the front and gives nothing back before it is destroyed.

use vstd::prelude::*;

verus! {

/// The alignment of the ranges that the pool hands out where alignment is
/// asked for: the size of a machine word.
pub const NGX_ALIGNMENT: usize = 8;

/// The bytes that the pool takes for the record of one cleanup handler.
pub const NGX_POOL_CLEANUP_SIZE: usize = 24;

/// The smallest multiple of [`NGX_ALIGNMENT`] that is not below `n`.
pub open spec fn align_up(n: int) -> int {
    if n % (NGX_ALIGNMENT as int) == 0 {
        n
    } else {
        n + NGX_ALIGNMENT - n % (NGX_ALIGNMENT as int)
    }
}

/// The state of a pool.
pub struct PoolState {
    /// The bytes of the pool.
    pub bytes: Seq<u8>,
    /// The number of bytes from the front that are handed out or skipped
    /// for alignment.
    pub used: nat,
    /// The ranges for whose values a cleanup handler is registered, by
    /// where they start, latest first.
    pub cleanups: Seq<usize>,
}

impl PoolState {
    /// Where an allocation of `size` bytes starts: at the first free byte,
    /// or, aligned, at the first multiple of the alignment from there on.
    pub open spec fn start(self, aligned: bool) -> int {
        if aligned {
            align_up(self.used as int)
        } else {
            self.used as int
        }
    }

    /// Whether an allocation of `size` bytes fits.
    pub open spec fn fits(self, size: usize, aligned: bool) -> bool {
        self.start(aligned) + size <= self.bytes.len()
    }

    /// The state after an allocation of `size` bytes that fits.
    pub open spec fn after_alloc(self, size: usize, aligned: bool) -> PoolState {
        PoolState { used: (self.start(aligned) + size) as nat, ..self }
    }

    /// The state after an allocation of `size` zeroed bytes that fits.
    pub open spec fn after_calloc(self, size: usize) -> PoolState {
        let start = self.start(true);
        PoolState {
            bytes: Seq::new(
                self.bytes.len(),
                |i: int|
                    if start <= i < start + size {
                        0u8
                    } else {
                        self.bytes[i]
                    },
            ),
            used: (start + size) as nat,
            ..self
        }
    }

    /// Whether a value of `size` bytes fits together with the record of its
    /// cleanup handler.
    pub open spec fn fits_with_cleanup(self, size: usize) -> bool {
        self.fits(size, true) && self.after_alloc(size, true).fits(NGX_POOL_CLEANUP_SIZE, true)
    }
}

/// A pool that someone else owns.
pub struct PoolRef {
    bytes: Vec<u8>,
    used: usize,
    cleanups: Vec<usize>,
}

impl View for PoolRef {
    type V = PoolState;

    closed spec fn view(&self) -> PoolState {
        PoolState { bytes: self.bytes@, used: self.used as nat, cleanups: self.cleanups@ }
    }
}

/// The first multiple of the alignment that is not below `n`, if it is
/// representable.
fn aligned_start(n: usize) -> (r: Option<usize>)
    ensures
        align_up(n as int) <= usize::MAX ==> r == Some(align_up(n as int) as usize),
        align_up(n as int) > usize::MAX ==> r.is_none(),
{
    let rem = n % NGX_ALIGNMENT;
    if rem == 0 {
        Some(n)
    } else {
        n.checked_add(NGX_ALIGNMENT - rem)
    }
}

impl PoolRef {
    /// Whether the pool is in order: no more bytes are used than it has.
    pub open spec fn wf(&self) -> bool {
        self@.used <= self@.bytes.len()
    }

    /// The number of bytes of the pool.
    pub fn capacity(&self) -> (n: usize)
        ensures
            n == self@.bytes.len(),
    {
        self.bytes.len()
    }

    /// The number of bytes that are handed out or skipped.
    pub fn used(&self) -> (n: usize)
        ensures
            n == self@.used,
    {
        self.used
    }

    /// The byte at `offset`.
    pub fn byte(&self, offset: usize) -> (b: Option<u8>)
        ensures
            offset < self@.bytes.len() ==> b == Some(self@.bytes[offset as int]),
            offset >= self@.bytes.len() ==> b.is_none(),
    {
        if offset < self.bytes.len() {
            Some(self.bytes[offset])
        } else {
            None
        }
    }

    /// Stores `value` at `offset`, which is a byte of the pool.
    pub fn set_byte(&mut self, offset: usize, value: u8)
        requires
            offset < old(self)@.bytes.len(),
        ensures
            final(self)@ == (PoolState {
                bytes: old(self)@.bytes.update(offset as int, value),
                ..old(self)@
            }),
    {
        self.bytes[offset] = value;
    }

    /// Takes `size` bytes from the pool and hands out where they start, or
    /// nothing where they do not fit.
    fn take(&mut self, size: usize, aligned: bool) -> (r: Option<usize>)
        requires
            old(self).wf(),
        ensures
            old(self)@.fits(size, aligned) ==> r == Some(old(self)@.start(aligned) as usize)
                && final(self)@ == old(self)@.after_alloc(size, aligned),
            !old(self)@.fits(size, aligned) ==> r.is_none() && final(self)@ == old(self)@,
            final(self).wf(),
    {
        let capacity = self.bytes.len();
        let start = if aligned {
            match aligned_start(self.used) {
                Some(s) => s,
                None => {
                    return None;
                },
            }
        } else {
            self.used
        };
        if start > capacity || size > capacity - start {
            return None;
        }
        self.used = start + size;
        Some(start)
    }

    /// Allocates `size` bytes, aligned to the machine word. Hands out where
    /// they start, or nothing where the pool has no room.
    pub fn palloc(&mut self, size: usize) -> (r: Option<usize>)
        requires
            old(self).wf(),
        ensures
            old(self)@.fits(size, true) ==> r == Some(old(self)@.start(true) as usize)
                && final(self)@ == old(self)@.after_alloc(size, true),
            !old(self)@.fits(size, true) ==> r.is_none() && final(self)@ == old(self)@,
            final(self).wf(),
    {
        self.take(size, true)
    }

    /// Allocates room for a value of type `T`, aligned to the machine word.
    pub fn alloc_type<T: Copy>(&mut self) -> (r: Option<usize>)
        requires
            old(self).wf(),
        ensures
            old(self)@.fits(vstd::layout::size_of::<T>() as usize, true) ==> r == Some(
                old(self)@.start(true) as usize,
            ) && final(self)@ == old(self)@.after_alloc(vstd::layout::size_of::<T>() as usize, true),
            !old(self)@.fits(vstd::layout::size_of::<T>() as usize, true) ==> r.is_none()
                && final(self)@ == old(self)@,
            final(self).wf(),
    {
        self.palloc(core::mem::size_of::<T>())
    }

    /// Allocates `size` bytes, aligned to the machine word, and sets them
    /// to zero.
    pub fn calloc(&mut self, size: usize) -> (r: Option<usize>)
        requires
            old(self).wf(),
        ensures
            old(self)@.fits(size, true) ==> r == Some(old(self)@.start(true) as usize)
                && final(self)@ == old(self)@.after_calloc(size),
            !old(self)@.fits(size, true) ==> r.is_none() && final(self)@ == old(self)@,
            final(self).wf(),
    {
        match self.take(size, true) {
            None => None,
            Some(start) => {
                let ghost before = self@;
                let mut i: usize = 0;
                while i < size
                    invariant
                        i <= size,
                        start + size <= self.bytes.len(),
                        self.bytes.len() == before.bytes.len(),
                        self.used == before.used,
                        self.cleanups@ == before.cleanups,
                        forall|k: int|
                            0 <= k < self.bytes.len() ==> self.bytes[k] == if start <= k < start + i {
                                0u8
                            } else {
                                before.bytes[k]
                            },
                    decreases size - i,
                {
                    self.bytes[start + i] = 0;
                    i = i + 1;
                }
                assert(self@.bytes =~= old(self)@.after_calloc(size).bytes);
                Some(start)
            },
        }
    }

    /// Allocates zeroed room for a value of type `T`, aligned to the
    /// machine word.
    pub fn calloc_type<T: Copy>(&mut self) -> (r: Option<usize>)
        requires
            old(self).wf(),
        ensures
            old(self)@.fits(vstd::layout::size_of::<T>() as usize, true) ==> r == Some(
                old(self)@.start(true) as usize,
            ) && final(self)@ == old(self)@.after_calloc(vstd::layout::size_of::<T>() as usize),
            !old(self)@.fits(vstd::layout::size_of::<T>() as usize, true) ==> r.is_none()
                && final(self)@ == old(self)@,
            final(self).wf(),
    {
        self.calloc(core::mem::size_of::<T>())
    }

    /// Allocates `size` bytes without alignment.
    pub fn alloc_unaligned(&mut self, size: usize) -> (r: Option<usize>)
        requires
            old(self).wf(),
        ensures
            old(self)@.fits(size, false) ==> r == Some(old(self)@.used as usize) && final(self)@
                == old(self)@.after_alloc(size, false),
            !old(self)@.fits(size, false) ==> r.is_none() && final(self)@ == old(self)@,
            final(self).wf(),
    {
        self.take(size, false)
    }

    /// Allocates room for a value of type `T` without alignment.
    pub fn alloc_type_unaligned<T: Copy>(&mut self) -> (r: Option<usize>)
        requires
            old(self).wf(),
        ensures
            old(self)@.fits(vstd::layout::size_of::<T>() as usize, false) ==> r == Some(
                old(self)@.used as usize,
            ) && final(self)@ == old(self)@.after_alloc(vstd::layout::size_of::<T>() as usize, false),
            !old(self)@.fits(vstd::layout::size_of::<T>() as usize, false) ==> r.is_none()
                && final(self)@ == old(self)@,
            final(self).wf(),
    {
        self.alloc_unaligned(core::mem::size_of::<T>())
    }

    /// Whether a value of `size` bytes fits together with the record of its
    /// cleanup handler.
    pub fn fits_with_cleanup(&self, size: usize) -> (r: bool)
        requires
            self.wf(),
        ensures
            r == self@.fits_with_cleanup(size),
    {
        let capacity = self.bytes.len();
        let start = match aligned_start(self.used) {
            Some(s) => s,
            None => {
                return false;
            },
        };
        if start > capacity || size > capacity - start {
            return false;
        }
        let second = match aligned_start(start + size) {
            Some(s) => s,
            None => {
                return false;
            },
        };
        second <= capacity && NGX_POOL_CLEANUP_SIZE <= capacity - second
    }

    /// Allocates room for a value of `size` bytes and registers a cleanup
    /// handler for it, which the pool's owner runs when the pool is
    /// destroyed. Where the value or the handler's record does not fit,
    /// nothing is handed out and nothing registered; room that the value
    /// took stays taken.
    pub fn allocate(&mut self, size: usize) -> (r: Option<usize>)
        requires
            old(self).wf(),
        ensures
            old(self)@.fits_with_cleanup(size) ==> {
                &&& r == Some(old(self)@.start(true) as usize)
                &&& final(self)@ == (PoolState {
                    cleanups: seq![old(self)@.start(true) as usize] + old(self)@.cleanups,
                    ..old(self)@.after_alloc(size, true).after_alloc(NGX_POOL_CLEANUP_SIZE, true)
                })
            },
            !old(self)@.fits(size, true) ==> r.is_none() && final(self)@ == old(self)@,
            old(self)@.fits(size, true) && !old(self)@.fits_with_cleanup(size) ==> r.is_none()
                && final(self)@ == old(self)@.after_alloc(size, true),
            final(self).wf(),
    {
        match self.take(size, true) {
            None => None,
            Some(p) => match self.take(NGX_POOL_CLEANUP_SIZE, true) {
                None => None,
                Some(_) => {
                    self.cleanups.insert(0, p);
                    assert(self.cleanups@ =~= seq![p] + old(self).cleanups@);
                    Some(p)
                },
            },
        }
    }
}

/// A pool and its owner in one.
pub struct Pool {
    inner: PoolRef,
}

impl View for Pool {
    type V = PoolState;

    closed spec fn view(&self) -> PoolState {
        self.inner@
    }
}

impl Pool {
    /// Creates a pool of `size` zeroed bytes, none of them used.
    pub fn create(size: usize) -> (p: Self)
        ensures
            p@ == (PoolState {
                bytes: Seq::new(size as nat, |i: int| 0u8),
                used: 0,
                cleanups: Seq::<usize>::empty(),
            }),
    {
        let mut bytes: Vec<u8> = Vec::new();
        let mut i: usize = 0;
        while i < size
            invariant
                i <= size,
                bytes@.len() == i,
                forall|k: int| 0 <= k < i ==> bytes@[k] == 0u8,
            decreases size - i,
        {
            bytes.push(0);
            i = i + 1;
        }
        assert(bytes@ =~= Seq::new(size as nat, |i: int| 0u8));
        Pool { inner: PoolRef { bytes, used: 0, cleanups: Vec::new() } }
    }

    /// The pool, to allocate from.
    pub fn as_mut(&mut self) -> (r: &mut PoolRef)
        ensures
            r@ == old(self)@,
            final(self)@ == final(r)@,
    {
        &mut self.inner
    }

    /// The pool, to look at.
    pub fn as_ref(&self) -> (r: &PoolRef)
        ensures
            r@ == self@,
    {
        &self.inner
    }

    /// Destroys the pool and hands out the values whose cleanup handlers
    /// are to run, in the order in which they run: latest registered
    /// first.
    pub fn destroy(self) -> (r: Vec<usize>)
        ensures
            r@ == self@.cleanups,
    {
        self.inner.cleanups
    }
}

} // verus!
