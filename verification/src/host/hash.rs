//! An element of a header table of the host: a key, a value, the key in
//! lower case, and the hash of the lower-case key.

use crate::host::pool::{PoolRef, PoolState};
use crate::host::string::NgxStr;
use vstd::prelude::*;
use vstd::wrapping::usize_specs::{wrapping_add, wrapping_mul};

verus! {

/// The byte `c` in lower case: an ASCII capital becomes its small letter,
/// every other byte stays.
pub open spec fn to_lower(c: u8) -> u8 {
    if 0x41 <= c <= 0x5a {
        (c + 0x20) as u8
    } else {
        c
    }
}

/// The bytes `s` in lower case.
pub open spec fn lower(s: Seq<u8>) -> Seq<u8> {
    Seq::new(s.len(), |i: int| to_lower(s[i]))
}

/// The hash of the bytes `s` in lower case: from 0, each byte in turn takes
/// the hash to 31 times the hash plus the lower-case byte, in wrapping
/// arithmetic.
pub open spec fn hash_strlow(s: Seq<u8>) -> usize
    decreases s.len(),
{
    if s.len() == 0 {
        0
    } else {
        wrapping_add(wrapping_mul(hash_strlow(s.drop_last()), 31), to_lower(s.last()) as usize)
    }
}

/// Executable form of [`to_lower`].
pub fn ngx_tolower(c: u8) -> (r: u8)
    ensures
        r == to_lower(c),
{
    if c >= 0x41 && c <= 0x5a {
        c + 0x20
    } else {
        c
    }
}

/// The bytes `src` in lower case, with their hash.
pub fn ngx_hash_strlow(src: &[u8]) -> (r: (Vec<u8>, usize))
    ensures
        r.0@ == lower(src@),
        r.1 == hash_strlow(src@),
{
    let mut dst: Vec<u8> = Vec::new();
    let mut key: usize = 0;
    let mut i: usize = 0;
    while i < src.len()
        invariant
            i <= src.len(),
            dst@ == lower(src@.take(i as int)),
            key == hash_strlow(src@.take(i as int)),
        decreases src.len() - i,
    {
        let c = ngx_tolower(src[i]);
        proof {
            let t = src@.take(i + 1);
            assert(t.drop_last() == src@.take(i as int));
            assert(t.last() == src@[i as int]);
            assert(dst@.push(c) =~= lower(t));
        }
        dst.push(c);
        key = key.wrapping_mul(31).wrapping_add(c as usize);
        i = i + 1;
    }
    assert(src@.take(i as int) == src@);
    (dst, key)
}

/// The state of a table element.
pub struct TableElementState {
    pub hash: usize,
    pub key: Seq<u8>,
    pub value: Seq<u8>,
    pub lowcase_key: Seq<u8>,
}

/// An element of a header table.
pub struct NgxTableElement {
    hash: usize,
    key: NgxStr,
    value: NgxStr,
    lowcase_key: Vec<u8>,
}

impl View for NgxTableElement {
    type V = TableElementState;

    closed spec fn view(&self) -> TableElementState {
        TableElementState {
            hash: self.hash,
            key: self.key@,
            value: self.value@,
            lowcase_key: self.lowcase_key@,
        }
    }
}

/// A copy of `bytes`.
fn copy_bytes(bytes: &[u8]) -> (v: Vec<u8>)
    ensures
        v@ == bytes@,
{
    let mut v: Vec<u8> = Vec::new();
    let mut i: usize = 0;
    while i < bytes.len()
        invariant
            i <= bytes.len(),
            v@ == bytes@.take(i as int),
        decreases bytes.len() - i,
    {
        v.push(bytes[i]);
        assert(v@ =~= bytes@.take(i + 1));
        i = i + 1;
    }
    assert(bytes@.take(i as int) == bytes@);
    v
}

impl NgxTableElement {
    /// An element with no key and no value.
    pub fn new() -> (e: Self)
        ensures
            e@ == (TableElementState {
                hash: 0,
                key: Seq::<u8>::empty(),
                value: Seq::<u8>::empty(),
                lowcase_key: Seq::<u8>::empty(),
            }),
    {
        NgxTableElement {
            hash: 0,
            key: NgxStr::default(),
            value: NgxStr::default(),
            lowcase_key: Vec::new(),
        }
    }

    /// The key.
    pub fn key(&self) -> (r: &NgxStr)
        ensures
            r@ == self@.key,
    {
        &self.key
    }

    /// The value.
    pub fn value(&self) -> (r: &NgxStr)
        ensures
            r@ == self@.value,
    {
        &self.value
    }

    /// The hash of the key in lower case.
    pub fn hash(&self) -> (r: usize)
        ensures
            r == self@.hash,
    {
        self.hash
    }

    /// The key in lower case: nothing for an element without key.
    pub fn lowcase_key(&self) -> (r: &[u8])
        ensures
            self@.key.len() == 0 ==> r@.len() == 0,
            self@.key.len() != 0 ==> r@ == self@.lowcase_key,
    {
        if self.key.len() == 0 {
            &[]
        } else {
            self.lowcase_key.as_slice()
        }
    }

    /// Assigns `key` and `value` to the element. Room for the key, for the
    /// value and for the key in lower case is taken from `pool`, in this
    /// order and without alignment. The element keeps what was assigned
    /// before the pool ran out: nothing where the key did not fit, the key
    /// where the value did not, and key and value, without the lower-case
    /// key, where that did not.
    pub fn set(&mut self, pool: &mut PoolRef, key: &[u8], value: &[u8]) -> (r: Option<()>)
        requires
            old(pool).wf(),
        ensures
            final(pool).wf(),
            r is Some <==> set_fits(old(pool)@, key@.len(), value@.len()) == 3,
            final(pool)@ == set_pool(old(pool)@, key@.len(), value@.len()),
            final(self)@ == set_state(old(self)@, old(pool)@, key@, value@),
    {
        if pool.alloc_unaligned(key.len()).is_none() {
            return None;
        }
        self.key = NgxStr::from_ngx_str(copy_bytes(key));
        if pool.alloc_unaligned(value.len()).is_none() {
            return None;
        }
        self.value = NgxStr::from_ngx_str(copy_bytes(value));
        if pool.alloc_unaligned(key.len()).is_none() {
            self.lowcase_key = Vec::new();
            return None;
        }
        let (low, hash) = ngx_hash_strlow(key);
        self.lowcase_key = low;
        self.hash = hash;
        Some(())
    }
}

/// How many of the three ranges that `set` takes fit into the pool one
/// after the other: the key, then the value, then the key in lower case.
pub open spec fn set_fits(pool: PoolState, key_len: nat, value_len: nat) -> nat {
    if !pool.fits(key_len as usize, false) {
        0
    } else if !pool.after_alloc(key_len as usize, false).fits(value_len as usize, false) {
        1
    } else if !pool.after_alloc(key_len as usize, false).after_alloc(value_len as usize, false).fits(
        key_len as usize,
        false,
    ) {
        2
    } else {
        3
    }
}

/// The pool after `set`: with those of the three ranges taken that fit.
pub open spec fn set_pool(pool: PoolState, key_len: nat, value_len: nat) -> PoolState {
    let n = set_fits(pool, key_len, value_len);
    let with_key = pool.after_alloc(key_len as usize, false);
    let with_value = with_key.after_alloc(value_len as usize, false);
    if n == 0 {
        pool
    } else if n == 1 {
        with_key
    } else if n == 2 {
        with_value
    } else {
        with_value.after_alloc(key_len as usize, false)
    }
}

/// The element after `set`.
pub open spec fn set_state(
    e: TableElementState,
    pool: PoolState,
    key: Seq<u8>,
    value: Seq<u8>,
) -> TableElementState {
    let n = set_fits(pool, key.len(), value.len());
    if n == 0 {
        e
    } else if n == 1 {
        TableElementState { key, ..e }
    } else if n == 2 {
        TableElementState { key, value, lowcase_key: Seq::empty(), ..e }
    } else {
        TableElementState { key, value, lowcase_key: lower(key), hash: hash_strlow(key) }
    }
}

/// An element of a header table that someone else owns.
pub type NgxTableElementRef = NgxTableElement;

} // verus!
