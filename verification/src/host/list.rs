//! The list of the host: a chain of parts of equal capacity, filled one
//! after the other, which grows by whole parts taken from a pool.

use crate::host::pool::{PoolRef, PoolState};
use vstd::prelude::*;

verus! {

/// The elements of the parts, one part after the other.
pub open spec fn flat<T>(parts: Seq<Seq<T>>) -> Seq<T>
    decreases parts.len(),
{
    if parts.len() == 0 {
        Seq::empty()
    } else {
        flat(parts.drop_last()) + parts.last()
    }
}

/// The number of elements in the first `k` parts.
pub open spec fn offset<T>(parts: Seq<Seq<T>>, k: int) -> nat {
    flat(parts.take(k)).len()
}

/// The elements of the first parts are the first elements of the list: the
/// element `i` of part `k` is the element of the list at the number of
/// elements before part `k` plus `i`.
pub proof fn lemma_flat_index<T>(parts: Seq<Seq<T>>, k: int, i: int)
    requires
        0 <= k < parts.len(),
        0 <= i < parts[k].len(),
    ensures
        offset(parts, k) + i < flat(parts).len(),
        flat(parts)[offset(parts, k) + i] == parts[k][i],
        offset(parts, k + 1) == offset(parts, k) + parts[k].len(),
    decreases parts.len(),
{
    let p = parts.drop_last();
    assert(parts.take(k + 1).drop_last() == parts.take(k));
    assert(parts.take(k + 1).last() == parts[k]);
    if k == parts.len() - 1 {
        assert(parts.take(k) == p);
    } else {
        assert(p.take(k) == parts.take(k));
        assert(p.take(k + 1) == parts.take(k + 1));
        lemma_flat_index(p, k, i);
    }
}

/// All parts together hold all elements.
pub proof fn lemma_offset_end<T>(parts: Seq<Seq<T>>)
    ensures
        offset(parts, parts.len() as int) == flat(parts).len(),
        offset(parts, 0) == 0,
{
    assert(parts.take(parts.len() as int) == parts);
    assert(parts.take(0).len() == 0);
}

/// An empty part adds no element.
pub proof fn lemma_offset_step<T>(parts: Seq<Seq<T>>, k: int)
    requires
        0 <= k < parts.len(),
    ensures
        offset(parts, k + 1) == offset(parts, k) + parts[k].len(),
{
    assert(parts.take(k + 1).drop_last() == parts.take(k));
    assert(parts.take(k + 1).last() == parts[k]);
}

/// Whether every part but the last is full, no part holds more than
/// `nalloc` elements, and there is a first part.
pub open spec fn parts_ok<T>(parts: Seq<Seq<T>>, nalloc: usize) -> bool {
    &&& parts.len() > 0
    &&& nalloc > 0
    &&& forall|k: int| 0 <= k < parts.len() ==> (#[trigger] parts[k]).len() <= nalloc
    &&& forall|k: int| 0 <= k < parts.len() - 1 ==> (#[trigger] parts[k]).len() == nalloc
}

/// A list of the host.
pub struct NgxList<T> {
    parts: Vec<Vec<T>>,
    nalloc: usize,
    size: usize,
}

impl<T> NgxList<T> {
    /// The parts of the list, each by its elements.
    pub closed spec fn parts(&self) -> Seq<Seq<T>> {
        Seq::new(self.parts@.len(), |k: int| self.parts@[k]@)
    }

    /// The number of elements that a part can hold.
    pub closed spec fn nalloc(&self) -> usize {
        self.nalloc
    }

    /// The number of bytes that an element takes in the pool.
    pub closed spec fn size(&self) -> usize {
        self.size
    }

    /// Whether the list is in order.
    pub open spec fn wf(&self) -> bool {
        parts_ok(self.parts(), self.nalloc())
    }

    /// Whether the last part of the list is full.
    pub open spec fn last_full(&self) -> bool {
        self.parts().last().len() == self.nalloc()
    }

    /// The number of bytes of a part.
    pub open spec fn part_bytes(&self) -> int {
        self.nalloc() * self.size()
    }

    /// Whether a new part of the list fits into the pool.
    pub open spec fn part_fits(&self, pool: PoolState) -> bool {
        self.part_bytes() <= usize::MAX && pool.fits(self.part_bytes() as usize, true)
    }

    /// Makes a list whose parts hold `nalloc` elements of `size` bytes
    /// each, with its first part taken from `pool`. There is no list where
    /// `nalloc` is 0 or the part does not fit.
    pub fn create(pool: &mut PoolRef, nalloc: usize, size: usize) -> (r: Option<Self>)
        requires
            old(pool).wf(),
        ensures
            final(pool).wf(),
            nalloc > 0 && nalloc * size <= usize::MAX && old(pool)@.fits(
                (nalloc * size) as usize,
                true,
            ) ==> {
                &&& r matches Some(list)
                &&& list.parts() == seq![Seq::<T>::empty()]
                &&& list.nalloc() == nalloc
                &&& list.size() == size
                &&& list.wf()
                &&& final(pool)@ == old(pool)@.after_alloc((nalloc * size) as usize, true)
            },
            !(nalloc > 0 && nalloc * size <= usize::MAX && old(pool)@.fits(
                (nalloc * size) as usize,
                true,
            )) ==> r.is_none() && final(pool)@ == old(pool)@,
    {
        if nalloc == 0 {
            return None;
        }
        let bytes = match nalloc.checked_mul(size) {
            Some(b) => b,
            None => {
                return None;
            },
        };
        match pool.palloc(bytes) {
            None => None,
            Some(_) => {
                let mut parts: Vec<Vec<T>> = Vec::new();
                parts.push(Vec::new());
                let list = NgxList { parts, nalloc, size };
                assert(list.parts() =~= seq![Seq::<T>::empty()]);
                Some(list)
            },
        }
    }

    /// Appends `value` to the list. Where the last part is full, a new part
    /// is taken from `pool` first; where that does not fit, the list stays
    /// as it is and the value comes back.
    pub fn push(&mut self, pool: &mut PoolRef, value: T) -> (r: Result<(), T>)
        requires
            old(self).wf(),
            old(pool).wf(),
        ensures
            final(self).wf(),
            final(pool).wf(),
            final(self).nalloc() == old(self).nalloc(),
            final(self).size() == old(self).size(),
            !old(self).last_full() ==> {
                &&& r is Ok
                &&& final(pool)@ == old(pool)@
                &&& final(self).parts() == old(self).parts().update(
                    old(self).parts().len() - 1,
                    old(self).parts().last().push(value),
                )
            },
            old(self).last_full() && old(self).part_fits(old(pool)@) ==> {
                &&& r is Ok
                &&& final(pool)@ == old(pool)@.after_alloc(old(self).part_bytes() as usize, true)
                &&& final(self).parts() == old(self).parts().push(seq![value])
            },
            old(self).last_full() && !old(self).part_fits(old(pool)@) ==> {
                &&& r == Err::<(), T>(value)
                &&& final(pool)@ == old(pool)@
                &&& final(self).parts() == old(self).parts()
            },
            r is Ok ==> flat(final(self).parts()) == flat(old(self).parts()).push(value),
    {
        let last = self.parts.len() - 1;
        assert(self.parts()[last as int] == self.parts@[last as int]@);
        if self.parts[last].len() == self.nalloc {
            let bytes = match self.nalloc.checked_mul(self.size) {
                Some(b) => b,
                None => {
                    return Err(value);
                },
            };
            match pool.palloc(bytes) {
                None => {
                    return Err(value);
                },
                Some(_) => {},
            }
            let mut part: Vec<T> = Vec::new();
            part.push(value);
            self.parts.push(part);
            proof {
                let old_parts = old(self).parts();
                let new_parts = self.parts();
                assert(new_parts =~= old_parts.push(seq![value]));
                assert(new_parts.drop_last() == old_parts);
                assert(flat(old_parts) + seq![value] =~= flat(old_parts).push(value));
                assert forall|k: int| 0 <= k < new_parts.len() - 1 implies (
                #[trigger] new_parts[k]).len() == self.nalloc by {
                    if k < old_parts.len() - 1 {
                        assert(old_parts[k].len() == self.nalloc);
                    }
                }
            }
            Ok(())
        } else {
            // Take the last part out, extend it, and put it back.
            let mut taken = self.parts.pop().unwrap();
            taken.push(value);
            self.parts.push(taken);
            proof {
                let old_parts = old(self).parts();
                let new_parts = self.parts();
                assert(new_parts =~= old_parts.update(last as int, old_parts.last().push(value)));
                assert(new_parts.drop_last() =~= old_parts.drop_last());
                assert(flat(old_parts.drop_last()) + old_parts.last().push(value) =~= flat(
                    old_parts,
                ).push(value));
                assert forall|k: int| 0 <= k < new_parts.len() - 1 implies (
                #[trigger] new_parts[k]).len() == self.nalloc by {
                    assert(old_parts[k].len() == self.nalloc);
                }
                assert forall|k: int| 0 <= k < new_parts.len() implies (#[trigger] new_parts[k]).len()
                    <= self.nalloc by {
                    if k < last {
                        assert(old_parts[k].len() <= self.nalloc);
                    }
                }
            }
            Ok(())
        }
    }

    /// An iterator over the elements of the list, first to last.
    pub fn iter(&self) -> (it: NgxListIter<'_, T>)
        ensures
            it.parts() == self.parts(),
            it.position() == 0,
    {
        proof {
            lemma_offset_end(self.parts());
        }
        NgxListIter::new(self)
    }
}

/// An iterator over a list: it stands in a part, at an element of it.
pub struct NgxListIter<'a, T> {
    list: &'a NgxList<T>,
    part: usize,
    i: usize,
}

impl<'a, T> NgxListIter<'a, T> {
    #[verifier::type_invariant]
    spec fn inv(self) -> bool {
        &&& self.part <= self.list.parts@.len()
        &&& self.part < self.list.parts@.len() ==> self.i <= self.list.parts@[self.part as int]@.len()
        &&& self.part == self.list.parts@.len() ==> self.i == 0
    }

    /// The parts of the list that the iterator walks.
    pub closed spec fn parts(&self) -> Seq<Seq<T>> {
        self.list.parts()
    }

    /// The number of elements that the iterator has passed.
    pub closed spec fn position(&self) -> nat {
        offset(self.list.parts(), self.part as int) + self.i as nat
    }

    /// An iterator that stands before the first element of `list`.
    pub fn new(list: &'a NgxList<T>) -> (it: Self)
        ensures
            it.parts() == list.parts(),
            it.position() == 0,
    {
        proof {
            lemma_offset_end(list.parts());
        }
        NgxListIter { list, part: 0, i: 0 }
    }

    /// Hands out the next element and moves past it, or hands out nothing
    /// at the end of the list.
    pub fn next(&mut self) -> (r: Option<&'a T>)
        ensures
            final(self).parts() == old(self).parts(),
            old(self).position() < flat(old(self).parts()).len() ==> {
                &&& r matches Some(v)
                &&& *v == flat(old(self).parts())[old(self).position() as int]
                &&& final(self).position() == old(self).position() + 1
            },
            old(self).position() >= flat(old(self).parts()).len() ==> {
                &&& r.is_none()
                &&& final(self).position() == old(self).position()
            },
    {
        proof {
            use_type_invariant(&*self);
        }
        let list: &'a NgxList<T> = self.list;
        let ghost parts = list.parts();
        let mut part = self.part;
        let mut i = self.i;
        // Move on to the next part that has an element left.
        while part < list.parts.len() && i >= list.parts[part].len()
            invariant
                parts == list.parts(),
                part <= list.parts@.len(),
                part < list.parts@.len() ==> i <= list.parts@[part as int]@.len(),
                part == list.parts@.len() ==> i == 0,
                offset(parts, part as int) + i == old(self).position(),
            decreases list.parts@.len() - part,
        {
            proof {
                lemma_offset_step(parts, part as int);
                assert(parts[part as int] == list.parts@[part as int]@);
            }
            part = part + 1;
            i = 0;
        }
        if part >= list.parts.len() {
            proof {
                lemma_offset_end(parts);
            }
            *self = NgxListIter { list, part, i: 0 };
            return None;
        }
        proof {
            assert(parts[part as int] == list.parts@[part as int]@);
            lemma_flat_index(parts, part as int, i as int);
        }
        let item = &list.parts[part][i];
        *self = NgxListIter { list, part, i: i + 1 };
        Some(item)
    }
}

/// A list of the host that someone else owns.
pub type NgxListRef<T> = NgxList<T>;

} // verus!
