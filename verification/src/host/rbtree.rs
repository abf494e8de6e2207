//! A map from integer keys to values whose nodes take their room from a
//! pool, ordered by key.

use crate::host::pool::{PoolRef, PoolState};
use std::collections::BTreeMap;
use vstd::prelude::*;

verus! {

/// The bytes that a node takes in the pool, whatever it holds.
pub const RBTREE_NODE_SIZE: usize = 64;

/// The pool has no room.
#[derive(Clone, Copy, Debug, PartialEq, Eq, Structural)]
pub struct AllocError;

/// A map ordered by key. A new tree takes room for its sentinel node from
/// the pool, and each new key room for one node; the pool gives nothing
/// back when a key leaves.
pub struct RbTree<V> {
    map: BTreeMap<u64, V>,
}

impl<V> View for RbTree<V> {
    type V = Map<u64, V>;

    closed spec fn view(&self) -> Map<u64, V> {
        self.map@
    }
}

impl<V> RbTree<V> {
    /// Makes an empty tree, with its sentinel node in `pool`. Fails where
    /// the node does not fit.
    pub fn try_new_in(pool: &mut PoolRef) -> (r: Result<Self, AllocError>)
        requires
            old(pool).wf(),
        ensures
            final(pool).wf(),
            old(pool)@.fits(RBTREE_NODE_SIZE, true) ==> {
                &&& r matches Ok(t)
                &&& t@ == Map::<u64, V>::empty()
                &&& final(pool)@ == old(pool)@.after_calloc(RBTREE_NODE_SIZE)
            },
            !old(pool)@.fits(RBTREE_NODE_SIZE, true) ==> r is Err && final(pool)@ == old(pool)@,
    {
        match pool.calloc(RBTREE_NODE_SIZE) {
            None => Err(AllocError),
            Some(_) => Ok(RbTree { map: BTreeMap::new() }),
        }
    }

    /// Whether the tree holds no key.
    pub fn is_empty(&self) -> (r: bool)
        ensures
            r == self@.is_empty(),
    {
        self.map.is_empty()
    }

    /// Removes every key.
    pub fn clear(&mut self)
        ensures
            final(self)@ == Map::<u64, V>::empty(),
    {
        self.map.clear()
    }

    /// The value of `key`, where the tree holds the key.
    pub fn get(&self, key: u64) -> (r: Option<&V>)
        ensures
            self@.contains_key(key) ==> r == Some(&self@[key]),
            !self@.contains_key(key) ==> r.is_none(),
    {
        broadcast use vstd::std_specs::btree::group_btree_axioms;

        self.map.get(&key)
    }

    /// Removes `key` and hands out its value, where the tree holds the
    /// key.
    pub fn remove(&mut self, key: u64) -> (r: Option<V>)
        ensures
            final(self)@ == old(self)@.remove(key),
            old(self)@.contains_key(key) ==> r == Some(old(self)@[key]),
            !old(self)@.contains_key(key) ==> r.is_none(),
    {
        broadcast use vstd::std_specs::btree::group_btree_axioms;

        self.map.remove(&key)
    }

    /// Removes `key` and hands out the key with its value, where the tree
    /// holds the key.
    pub fn remove_entry(&mut self, key: u64) -> (r: Option<(u64, V)>)
        ensures
            final(self)@ == old(self)@.remove(key),
            old(self)@.contains_key(key) ==> r == Some((key, old(self)@[key])),
            !old(self)@.contains_key(key) ==> r.is_none(),
    {
        match self.remove(key) {
            Some(v) => Some((key, v)),
            None => None,
        }
    }

    /// Whether `try_insert` of `key` succeeds: the tree holds the key
    /// already, or a new node fits into the pool.
    pub open spec fn can_insert(&self, pool: PoolState, key: u64) -> bool {
        self@.contains_key(key) || pool.fits(RBTREE_NODE_SIZE, true)
    }

    /// Gives `key` the value `value`. A key that the tree holds keeps its
    /// node; a new key takes a node from `pool`, and the insertion fails,
    /// with the tree unchanged, where the node does not fit.
    pub fn try_insert(&mut self, pool: &mut PoolRef, key: u64, value: V) -> (r: Result<
        (),
        AllocError,
    >)
        requires
            old(pool).wf(),
        ensures
            final(pool).wf(),
            r is Ok <==> old(self).can_insert(old(pool)@, key),
            r is Ok ==> final(self)@ == old(self)@.insert(key, value),
            r is Err ==> final(self)@ == old(self)@,
            old(self)@.contains_key(key) || r is Err ==> final(pool)@ == old(pool)@,
            !old(self)@.contains_key(key) && r is Ok ==> final(pool)@ == old(pool)@.after_alloc(
                RBTREE_NODE_SIZE,
                true,
            ),
    {
        broadcast use vstd::std_specs::btree::group_btree_axioms;

        if !self.map.contains_key(&key) {
            if pool.palloc(RBTREE_NODE_SIZE).is_none() {
                return Err(AllocError);
            }
        }
        let _ = self.map.insert(key, value);
        Ok(())
    }
}

} // verus!
