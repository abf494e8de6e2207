use ngx_runtime::host::hash::{ngx_hash_strlow, ngx_tolower, NgxTableElement};
use ngx_runtime::host::list::{NgxList, NgxListIter};
use ngx_runtime::host::pool::Pool;
use ngx_runtime::host::rbtree::{AllocError, RbTree, RBTREE_NODE_SIZE};

#[test]
fn list_grows_by_parts_and_iterates_in_order() {
    let mut pool = Pool::create(64);
    let mut list: NgxList<u32> = NgxList::create(pool.as_mut(), 3, 4).unwrap();
    assert_eq!(pool.as_ref().used(), 12);
    assert!(list.iter().next().is_none());
    for v in 1..=7u32 {
        assert_eq!(list.push(pool.as_mut(), v), Ok(()));
    }
    // Three parts: the second begins at 16, the third at 32.
    assert_eq!(pool.as_ref().used(), 44);
    let mut it = list.iter();
    let mut seen = Vec::new();
    while let Some(v) = it.next() {
        seen.push(*v);
    }
    assert_eq!(seen, vec![1, 2, 3, 4, 5, 6, 7]);
    assert!(it.next().is_none());
    let mut again = NgxListIter::new(&list);
    assert_eq!(again.next(), Some(&1));
}

#[test]
fn list_push_fails_when_the_pool_is_full() {
    let mut pool = Pool::create(20);
    let mut list: NgxList<u8> = NgxList::create(pool.as_mut(), 2, 8).unwrap();
    assert_eq!(list.push(pool.as_mut(), 1), Ok(()));
    assert_eq!(list.push(pool.as_mut(), 2), Ok(()));
    // A new part of 16 bytes does not fit behind the first.
    assert_eq!(list.push(pool.as_mut(), 3), Err(3));
    assert_eq!(pool.as_ref().used(), 16);
    let mut it = list.iter();
    assert_eq!(it.next(), Some(&1));
    assert_eq!(it.next(), Some(&2));
    assert_eq!(it.next(), None);
}

#[test]
fn list_creation_needs_room_and_a_capacity() {
    let mut pool = Pool::create(8);
    assert!(NgxList::<u8>::create(pool.as_mut(), 0, 1).is_none());
    assert!(NgxList::<u8>::create(pool.as_mut(), 3, 3).is_none());
    assert!(NgxList::<u8>::create(pool.as_mut(), usize::MAX, 2).is_none());
    assert_eq!(pool.as_ref().used(), 0);
    assert!(NgxList::<u8>::create(pool.as_mut(), 2, 4).is_some());
    assert_eq!(pool.as_ref().used(), 8);
}

#[test]
fn lower_case_and_hash() {
    assert_eq!(ngx_tolower(b'A'), b'a');
    assert_eq!(ngx_tolower(b'Z'), b'z');
    assert_eq!(ngx_tolower(b'@'), b'@');
    assert_eq!(ngx_tolower(b'['), b'[');
    assert_eq!(ngx_tolower(b'a'), b'a');
    assert_eq!(ngx_tolower(0xc9), 0xc9);
    let (low, hash) = ngx_hash_strlow(b"Host");
    assert_eq!(low, b"host");
    let expected = ((((b'h' as usize) * 31 + b'o' as usize) * 31 + b's' as usize) * 31)
        + b't' as usize;
    assert_eq!(hash, expected);
    assert_eq!(hash, 3208616);
    let (low, hash) = ngx_hash_strlow(b"");
    assert!(low.is_empty());
    assert_eq!(hash, 0);
    // The hash wraps.
    let long = vec![b'Z'; 40];
    let mut h: usize = 0;
    for _ in 0..40 {
        h = h.wrapping_mul(31).wrapping_add(b'z' as usize);
    }
    assert_eq!(ngx_hash_strlow(&long).1, h);
}

#[test]
fn table_element_set() {
    let mut pool = Pool::create(64);
    let mut e = NgxTableElement::new();
    assert!(e.lowcase_key().is_empty());
    assert_eq!(e.set(pool.as_mut(), b"Content-Type", b"text/html"), Some(()));
    assert_eq!(e.key().as_bytes(), b"Content-Type");
    assert_eq!(e.value().as_bytes(), b"text/html");
    assert_eq!(e.lowcase_key(), b"content-type");
    assert_eq!(e.hash(), ngx_hash_strlow(b"content-type").1);
    assert_eq!(pool.as_ref().used(), 12 + 9 + 12);
}

#[test]
fn table_element_set_keeps_what_fitted() {
    // Nothing fits.
    let mut pool = Pool::create(3);
    let mut e = NgxTableElement::new();
    assert_eq!(e.set(pool.as_mut(), b"Host", b"x"), None);
    assert!(e.key().is_empty());
    assert_eq!(pool.as_ref().used(), 0);
    // The key fits, the value does not.
    let mut pool = Pool::create(5);
    let mut e = NgxTableElement::new();
    assert_eq!(e.set(pool.as_mut(), b"Host", b"ab"), None);
    assert_eq!(e.key().as_bytes(), b"Host");
    assert!(e.value().is_empty());
    assert_eq!(pool.as_ref().used(), 4);
    // Key and value fit, the lower-case key does not.
    let mut pool = Pool::create(9);
    let mut e = NgxTableElement::new();
    assert_eq!(e.set(pool.as_mut(), b"Host", b"ab"), None);
    assert_eq!(e.key().as_bytes(), b"Host");
    assert_eq!(e.value().as_bytes(), b"ab");
    assert_eq!(e.hash(), 0);
    assert_eq!(pool.as_ref().used(), 6);
}

#[test]
fn rbtree_is_a_map() {
    let mut pool = Pool::create(1024);
    let mut t: RbTree<&str> = RbTree::try_new_in(pool.as_mut()).unwrap();
    assert_eq!(pool.as_ref().used(), RBTREE_NODE_SIZE);
    assert!(t.is_empty());
    assert_eq!(t.get(1), None);
    assert_eq!(t.try_insert(pool.as_mut(), 2, "two"), Ok(()));
    assert_eq!(t.try_insert(pool.as_mut(), 1, "one"), Ok(()));
    assert_eq!(pool.as_ref().used(), 3 * RBTREE_NODE_SIZE);
    // The same key again: a new value, no new node.
    assert_eq!(t.try_insert(pool.as_mut(), 2, "zwei"), Ok(()));
    assert_eq!(pool.as_ref().used(), 3 * RBTREE_NODE_SIZE);
    assert!(!t.is_empty());
    assert_eq!(t.get(2), Some(&"zwei"));
    assert_eq!(t.get(1), Some(&"one"));
    assert_eq!(t.get(3), None);
    assert_eq!(t.remove(1), Some("one"));
    assert_eq!(t.remove(1), None);
    assert_eq!(t.remove_entry(2), Some((2, "zwei")));
    assert_eq!(t.remove_entry(2), None);
    assert!(t.is_empty());
    t.try_insert(pool.as_mut(), 9, "nine").unwrap();
    t.clear();
    assert!(t.is_empty());
}

#[test]
fn rbtree_fails_without_room() {
    let mut small = Pool::create(RBTREE_NODE_SIZE - 1);
    assert!(RbTree::<u8>::try_new_in(small.as_mut()).is_err());
    assert_eq!(small.as_ref().used(), 0);
    let mut pool = Pool::create(2 * RBTREE_NODE_SIZE);
    let mut t: RbTree<u8> = RbTree::try_new_in(pool.as_mut()).unwrap();
    assert_eq!(t.try_insert(pool.as_mut(), 1, 10), Ok(()));
    assert_eq!(t.try_insert(pool.as_mut(), 2, 20), Err(AllocError));
    assert_eq!(t.get(2), None);
    // A key that is there needs no room.
    assert_eq!(t.try_insert(pool.as_mut(), 1, 11), Ok(()));
    assert_eq!(t.get(1), Some(&11));
}
