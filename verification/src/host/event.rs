//! Events, the timer tree they register in, and the posted-event queues.

use vstd::prelude::*;

verus! {

/// Two deadlines closer than this many milliseconds are treated as the same
/// deadline when a registered timer is re-armed.
pub const NGX_TIMER_LAZY_DELAY: u64 = 300;

/// The signed distance from `b` to `a` on the wrapping millisecond clock:
/// the representative of `a - b` modulo 2^64 that lies in `[-2^63, 2^63)`.
pub open spec fn msec_diff(a: u64, b: u64) -> int {
    let d = (a - b) % 0x1_0000_0000_0000_0000;
    if d >= 0x8000_0000_0000_0000 {
        d - 0x1_0000_0000_0000_0000
    } else {
        d
    }
}

/// Whether re-arming a timer registered under `old_key` with `new_key` is
/// coalesced into the existing registration.
pub open spec fn within_lazy_delay(new_key: u64, old_key: u64) -> bool {
    -(NGX_TIMER_LAZY_DELAY as int) < msec_diff(new_key, old_key) < NGX_TIMER_LAZY_DELAY as int
}

/// The key under which a timer of `timer` milliseconds is registered when the
/// clock reads `now`: their sum on the wrapping clock.
pub open spec fn timer_key(now: u64, timer: u64) -> u64 {
    ((now + timer) % 0x1_0000_0000_0000_0000) as u64
}

/// Whether a deadline `key` has passed when the clock reads `now`.
pub open spec fn is_due(key: u64, now: u64) -> bool {
    msec_diff(key, now) <= 0
}

/// Executable form of [`within_lazy_delay`].
pub fn lazy_delay_applies(new_key: u64, old_key: u64) -> (r: bool)
    ensures
        r == within_lazy_delay(new_key, old_key),
{
    let d: u64 = new_key.wrapping_sub(old_key);
    d < NGX_TIMER_LAZY_DELAY || d > u64::MAX - NGX_TIMER_LAZY_DELAY + 1
}

/// Executable form of [`is_due`].
pub fn deadline_passed(key: u64, now: u64) -> (r: bool)
    ensures
        r == is_due(key, now),
{
    let d: u64 = key.wrapping_sub(now);
    d == 0 || d >= 0x8000_0000_0000_0000
}

/// One registration in the timer tree: the event `id` fires at `key`.
#[derive(Clone, Copy, Debug, PartialEq, Eq, Structural)]
pub struct TimerNode {
    pub key: u64,
    pub id: usize,
}

/// `s` without its nodes for event `id`.
pub open spec fn without_id(s: Seq<TimerNode>, id: usize) -> Seq<TimerNode>
    decreases s.len(),
{
    if s.len() == 0 {
        s
    } else if s.last().id == id {
        without_id(s.drop_last(), id)
    } else {
        without_id(s.drop_last(), id).push(s.last())
    }
}

/// Whether some node of `s` belongs to event `id`.
pub open spec fn has_id(s: Seq<TimerNode>, id: usize) -> bool
    decreases s.len(),
{
    s.len() > 0 && (s.last().id == id || has_id(s.drop_last(), id))
}

/// The key of the last node of `s` that belongs to event `id`.
pub open spec fn key_of(s: Seq<TimerNode>, id: usize) -> u64
    decreases s.len(),
{
    if s.len() == 0 {
        0
    } else if s.last().id == id {
        s.last().key
    } else {
        key_of(s.drop_last(), id)
    }
}

/// No event has two nodes in `s`.
pub open spec fn distinct_ids(s: Seq<TimerNode>) -> bool
    decreases s.len(),
{
    s.len() == 0 || (!has_id(s.drop_last(), s.last().id) && distinct_ids(s.drop_last()))
}

/// The nodes of `s` whose deadline has passed at `now`, in their order in `s`.
pub open spec fn due_nodes(s: Seq<TimerNode>, now: u64) -> Seq<TimerNode>
    decreases s.len(),
{
    if s.len() == 0 {
        s
    } else if is_due(s.last().key, now) {
        due_nodes(s.drop_last(), now).push(s.last())
    } else {
        due_nodes(s.drop_last(), now)
    }
}

/// The nodes of `s` whose deadline has not passed at `now`, in their order
/// in `s`.
pub open spec fn waiting_nodes(s: Seq<TimerNode>, now: u64) -> Seq<TimerNode>
    decreases s.len(),
{
    if s.len() == 0 {
        s
    } else if is_due(s.last().key, now) {
        waiting_nodes(s.drop_last(), now)
    } else {
        waiting_nodes(s.drop_last(), now).push(s.last())
    }
}

/// Removing the nodes of `id` leaves no node of `id` and touches no other
/// event: membership and keys of the others stay as they were.
pub proof fn lemma_without_id(s: Seq<TimerNode>, id: usize, other: usize)
    ensures
        !has_id(without_id(s, id), id),
        without_id(s, id).len() <= s.len(),
        other != id ==> has_id(without_id(s, id), other) == has_id(s, other),
        other != id ==> key_of(without_id(s, id), other) == key_of(s, other),
        !has_id(s, id) ==> without_id(s, id) == s,
    decreases s.len(),
{
    if s.len() > 0 {
        let p = s.drop_last();
        lemma_without_id(p, id, other);
        if s.last().id != id {
            assert(without_id(s, id).drop_last() == without_id(p, id));
            assert(without_id(s, id).last() == s.last());
        }
        if !has_id(s, id) {
            assert(without_id(s, id) =~= s);
        }
    }
}

/// Removing the nodes of one event keeps the others distinct.
pub proof fn lemma_without_id_distinct(s: Seq<TimerNode>, id: usize)
    requires
        distinct_ids(s),
    ensures
        distinct_ids(without_id(s, id)),
    decreases s.len(),
{
    if s.len() > 0 {
        let p = s.drop_last();
        lemma_without_id_distinct(p, id);
        if s.last().id != id {
            lemma_without_id(p, id, s.last().id);
            assert(without_id(s, id).drop_last() == without_id(p, id));
            assert(without_id(s, id).last() == s.last());
        }
    }
}

/// The due and the waiting nodes of `s` are nodes of `s`, and together they
/// are all of them.
pub proof fn lemma_split_nodes(s: Seq<TimerNode>, now: u64, id: usize)
    ensures
        due_nodes(s, now).len() + waiting_nodes(s, now).len() == s.len(),
        has_id(due_nodes(s, now), id) ==> has_id(s, id),
        has_id(waiting_nodes(s, now), id) ==> has_id(s, id),
        has_id(s, id) ==> has_id(due_nodes(s, now), id) || has_id(waiting_nodes(s, now), id),
    decreases s.len(),
{
    if s.len() > 0 {
        let p = s.drop_last();
        lemma_split_nodes(p, now, id);
        if is_due(s.last().key, now) {
            assert(due_nodes(s, now).drop_last() == due_nodes(p, now));
            assert(due_nodes(s, now).last() == s.last());
        } else {
            assert(waiting_nodes(s, now).drop_last() == waiting_nodes(p, now));
            assert(waiting_nodes(s, now).last() == s.last());
        }
    }
}

/// Splitting distinct nodes by deadline leaves both parts distinct.
pub proof fn lemma_split_nodes_distinct(s: Seq<TimerNode>, now: u64)
    requires
        distinct_ids(s),
    ensures
        distinct_ids(due_nodes(s, now)),
        distinct_ids(waiting_nodes(s, now)),
    decreases s.len(),
{
    if s.len() > 0 {
        let p = s.drop_last();
        lemma_split_nodes_distinct(p, now);
        lemma_split_nodes(p, now, s.last().id);
        if is_due(s.last().key, now) {
            assert(due_nodes(s, now).drop_last() == due_nodes(p, now));
            assert(due_nodes(s, now).last() == s.last());
        } else {
            assert(waiting_nodes(s, now).drop_last() == waiting_nodes(p, now));
            assert(waiting_nodes(s, now).last() == s.last());
        }
    }
}

/// The nodes of `nodes` that do not belong to event `id`, in their order.
fn nodes_without(nodes: &Vec<TimerNode>, id: usize) -> (kept: Vec<TimerNode>)
    ensures
        kept@ == without_id(nodes@, id),
{
    let mut kept: Vec<TimerNode> = Vec::new();
    let mut i: usize = 0;
    while i < nodes.len()
        invariant
            i <= nodes.len(),
            kept@ == without_id(nodes@.take(i as int), id),
        decreases nodes.len() - i,
    {
        proof {
            let t = nodes@.take(i + 1);
            assert(t.drop_last() == nodes@.take(i as int));
            assert(t.last() == nodes@[i as int]);
        }
        if nodes[i].id != id {
            kept.push(nodes[i]);
        }
        i = i + 1;
    }
    assert(nodes@.take(i as int) == nodes@);
    kept
}

/// The timer tree of the host: the registered deadlines, one node for each
/// registered event, in the order in which they were registered.
pub struct TimerTree {
    nodes: Vec<TimerNode>,
}

impl View for TimerTree {
    type V = Seq<TimerNode>;

    closed spec fn view(&self) -> Seq<TimerNode> {
        self.nodes@
    }
}

impl TimerTree {
    #[verifier::type_invariant]
    spec fn inv(self) -> bool {
        distinct_ids(self.nodes@)
    }

    /// An empty tree.
    pub fn new() -> (t: Self)
        ensures
            t@ == Seq::<TimerNode>::empty(),
    {
        TimerTree { nodes: Vec::new() }
    }

    /// The number of registered events.
    pub fn len(&self) -> (n: usize)
        ensures
            n == self@.len(),
            distinct_ids(self@),
    {
        proof {
            use_type_invariant(self);
        }
        self.nodes.len()
    }

    /// The key under which event `id` is registered, if it is.
    pub fn key(&self, id: usize) -> (r: Option<u64>)
        ensures
            has_id(self@, id) ==> r == Some(key_of(self@, id)),
            !has_id(self@, id) ==> r.is_none(),
    {
        let mut found: Option<u64> = None;
        let mut i: usize = 0;
        while i < self.nodes.len()
            invariant
                i <= self.nodes.len(),
                has_id(self.nodes@.take(i as int), id) ==> found == Some(
                    key_of(self.nodes@.take(i as int), id),
                ),
                !has_id(self.nodes@.take(i as int), id) ==> found.is_none(),
            decreases self.nodes.len() - i,
        {
            proof {
                let t = self.nodes@.take(i + 1);
                assert(t.drop_last() == self.nodes@.take(i as int));
                assert(t.last() == self.nodes@[i as int]);
            }
            if self.nodes[i].id == id {
                found = Some(self.nodes[i].key);
            }
            i = i + 1;
        }
        assert(self.nodes@.take(i as int) == self.nodes@);
        found
    }

    /// Whether event `id` is registered.
    pub fn contains(&self, id: usize) -> (r: bool)
        ensures
            r == has_id(self@, id),
    {
        self.key(id).is_some()
    }

    /// Takes the registration of event `id` out of the tree, if there is one.
    pub fn delete(&mut self, id: usize)
        ensures
            final(self)@ == without_id(old(self)@, id),
            distinct_ids(final(self)@),
    {
        proof {
            use_type_invariant(&*self);
            lemma_without_id_distinct(self.nodes@, id);
        }
        let kept = nodes_without(&self.nodes, id);
        self.nodes = kept;
    }

    /// Registers event `id` under `key`, in place of any registration that
    /// the event had.
    pub fn insert(&mut self, id: usize, key: u64)
        ensures
            final(self)@ == without_id(old(self)@, id).push(TimerNode { key, id }),
            distinct_ids(final(self)@),
    {
        let mut kept = nodes_without(&self.nodes, id);
        proof {
            use_type_invariant(&*self);
            lemma_without_id_distinct(self.nodes@, id);
            lemma_without_id(self.nodes@, id, id);
            let t = kept@.push(TimerNode { key, id });
            assert(t.drop_last() == kept@);
        }
        kept.push(TimerNode { key, id });
        self.nodes = kept;
    }

    /// Takes out every registration whose deadline has passed at `now` and
    /// hands those out, in the order in which they were registered.
    pub fn expire(&mut self, now: u64) -> (fired: Vec<TimerNode>)
        ensures
            fired@ == due_nodes(old(self)@, now),
            final(self)@ == waiting_nodes(old(self)@, now),
            distinct_ids(final(self)@),
    {
        proof {
            use_type_invariant(&*self);
        }
        let mut fired: Vec<TimerNode> = Vec::new();
        let mut kept: Vec<TimerNode> = Vec::new();
        let mut i: usize = 0;
        while i < self.nodes.len()
            invariant
                i <= self.nodes.len(),
                fired@ == due_nodes(self.nodes@.take(i as int), now),
                kept@ == waiting_nodes(self.nodes@.take(i as int), now),
            decreases self.nodes.len() - i,
        {
            proof {
                let t = self.nodes@.take(i + 1);
                assert(t.drop_last() == self.nodes@.take(i as int));
                assert(t.last() == self.nodes@[i as int]);
            }
            if deadline_passed(self.nodes[i].key, now) {
                fired.push(self.nodes[i]);
            } else {
                kept.push(self.nodes[i]);
            }
            i = i + 1;
        }
        proof {
            assert(self.nodes@.take(i as int) == self.nodes@);
            lemma_split_nodes_distinct(self.nodes@, now);
        }
        self.nodes = kept;
        fired
    }
}

/// `s` without the occurrences of event `id`.
pub open spec fn unposted(s: Seq<usize>, id: usize) -> Seq<usize>
    decreases s.len(),
{
    if s.len() == 0 {
        s
    } else if s.last() == id {
        unposted(s.drop_last(), id)
    } else {
        unposted(s.drop_last(), id).push(s.last())
    }
}

/// Taking an event out of a queue leaves no occurrence of it, keeps every
/// other event, and changes nothing where the event was not queued.
pub proof fn lemma_unposted(s: Seq<usize>, id: usize, other: usize)
    ensures
        !unposted(s, id).contains(id),
        unposted(s, id).len() <= s.len(),
        other != id ==> unposted(s, id).contains(other) == s.contains(other),
        !s.contains(id) ==> unposted(s, id) == s,
    decreases s.len(),
{
    let u = unposted(s, id);
    if s.len() > 0 {
        let p = s.drop_last();
        let up = unposted(p, id);
        lemma_unposted(p, id, other);
        if u.contains(id) {
            let k = choose|k: int| 0 <= k < u.len() && u[k] == id;
            if k < up.len() {
                assert(up[k] == id);
            }
        }
        if other != id {
            if u.contains(other) {
                let k = choose|k: int| 0 <= k < u.len() && u[k] == other;
                if k < up.len() {
                    assert(up[k] == other);
                    assert(p.contains(other));
                    let i = choose|i: int| 0 <= i < p.len() && p[i] == other;
                    assert(s[i] == other);
                } else {
                    assert(s[s.len() - 1] == other);
                }
            }
            if s.contains(other) {
                let i = choose|i: int| 0 <= i < s.len() && s[i] == other;
                if i < p.len() {
                    assert(p[i] == other);
                    let k = choose|k: int| 0 <= k < up.len() && up[k] == other;
                    assert(u[k] == other);
                } else {
                    assert(u[u.len() - 1] == other);
                }
            }
        }
        if !s.contains(id) {
            assert(s[s.len() - 1] != id);
            if p.contains(id) {
                let i = choose|i: int| 0 <= i < p.len() && p[i] == id;
                assert(s[i] == id);
            }
            assert(u =~= s);
        }
    }
}

/// A queue of posted events: the events whose handler the host will call
/// when it next drains the queue, first posted first.
pub struct PostedQueue {
    ids: Vec<usize>,
}

impl View for PostedQueue {
    type V = Seq<usize>;

    closed spec fn view(&self) -> Seq<usize> {
        self.ids@
    }
}

impl PostedQueue {
    /// An empty queue.
    pub fn new() -> (q: Self)
        ensures
            q@ == Seq::<usize>::empty(),
    {
        PostedQueue { ids: Vec::new() }
    }

    /// The number of posted events.
    pub fn len(&self) -> (n: usize)
        ensures
            n == self@.len(),
    {
        self.ids.len()
    }

    /// Whether no event is posted.
    pub fn is_empty(&self) -> (r: bool)
        ensures
            r == (self@.len() == 0),
    {
        self.ids.len() == 0
    }

    /// Whether event `id` is in the queue.
    pub fn contains(&self, id: usize) -> (r: bool)
        ensures
            r == self@.contains(id),
    {
        let mut i: usize = 0;
        while i < self.ids.len()
            invariant
                i <= self.ids.len(),
                forall|k: int| 0 <= k < i ==> self.ids@[k] != id,
            decreases self.ids.len() - i,
        {
            if self.ids[i] == id {
                return true;
            }
            i = i + 1;
        }
        false
    }

    /// Appends event `id` at the tail.
    pub fn insert_tail(&mut self, id: usize)
        ensures
            final(self)@ == old(self)@.push(id),
    {
        self.ids.push(id);
    }

    /// Takes every occurrence of event `id` out of the queue.
    pub fn remove(&mut self, id: usize)
        ensures
            final(self)@ == unposted(old(self)@, id),
    {
        let mut kept: Vec<usize> = Vec::new();
        let mut i: usize = 0;
        while i < self.ids.len()
            invariant
                i <= self.ids.len(),
                kept@ == unposted(self.ids@.take(i as int), id),
            decreases self.ids.len() - i,
        {
            proof {
                let t = self.ids@.take(i + 1);
                assert(t.drop_last() == self.ids@.take(i as int));
                assert(t.last() == self.ids@[i as int]);
            }
            if self.ids[i] != id {
                kept.push(self.ids[i]);
            }
            i = i + 1;
        }
        assert(self.ids@.take(i as int) == self.ids@);
        self.ids = kept;
    }

    /// Takes the head of the queue, the event that was posted first.
    pub fn pop_front(&mut self) -> (r: Option<usize>)
        ensures
            old(self)@.len() == 0 ==> r.is_none() && final(self)@ == old(self)@,
            old(self)@.len() > 0 ==> r == Some(old(self)@[0]) && final(self)@
                == old(self)@.drop_first(),
    {
        if self.ids.len() == 0 {
            None
        } else {
            let id = self.ids.remove(0);
            assert(self.ids@ =~= old(self)@.drop_first());
            Some(id)
        }
    }

    /// Moves every event of `next` behind the events of this queue, in
    /// their order, and leaves `next` empty: what the host does with the
    /// queue for the next iteration when an iteration begins.
    pub fn move_from(&mut self, next: &mut PostedQueue)
        ensures
            final(self)@ == old(self)@ + old(next)@,
            final(next)@ == Seq::<usize>::empty(),
    {
        self.ids.append(&mut next.ids);
    }
}

/// An event of the host: a timer entry and a posted-event entry in one
/// record, with the flags that the host and the runtime keep on it.
#[derive(Clone, Copy, Debug, PartialEq, Eq, Structural)]
pub struct Event {
    /// What identifies the event to the host.
    pub data: usize,
    /// The deadline under which the event is registered in the timer tree.
    pub timer_key: u64,
    /// Whether the event is registered in the timer tree.
    pub timer_set: bool,
    /// Whether the event's timer has expired.
    pub timedout: bool,
    /// Whether the event is in a posted-event queue.
    pub posted: bool,
    /// Whether the host watches the event's descriptor.
    pub active: bool,
    /// Whether the event's descriptor is ready.
    pub ready: bool,
    /// Whether the event's timer may be dropped when the host shuts down.
    pub cancelable: bool,
    /// Whether the host's kernel queue reported the end of the stream.
    pub pending_eof: bool,
    /// The error that the kernel queue reported with the end of the stream.
    pub kq_errno: i32,
}

impl Default for Event {
    fn default() -> (e: Self)
        ensures
            e == Event::spec_new(0),
    {
        Event::new(0)
    }
}

impl Event {
    /// The event `data` with every flag cleared.
    pub open spec fn spec_new(data: usize) -> Event {
        Event {
            data,
            timer_key: 0,
            timer_set: false,
            timedout: false,
            posted: false,
            active: false,
            ready: false,
            cancelable: false,
            pending_eof: false,
            kq_errno: 0,
        }
    }

    /// An event that is registered nowhere.
    pub fn new(data: usize) -> (e: Self)
        ensures
            e == Event::spec_new(data),
    {
        Event {
            data,
            timer_key: 0,
            timer_set: false,
            timedout: false,
            posted: false,
            active: false,
            ready: false,
            cancelable: false,
            pending_eof: false,
            kq_errno: 0,
        }
    }

    /// What identifies the event to the host.
    pub fn ident(&self) -> (id: usize)
        ensures
            id == self.data,
    {
        self.data
    }

    /// Whether the event and the tree agree: the event is marked as
    /// registered exactly when the tree holds a node for it, and then under
    /// the key that the event remembers.
    pub open spec fn registered_in(&self, tree: &TimerTree) -> bool {
        &&& self.timer_set == has_id(tree@, self.data)
        &&& self.timer_set ==> key_of(tree@, self.data) == self.timer_key
    }

    /// Whether the event and the queue agree: the event is marked as posted
    /// exactly when the queue holds it.
    pub open spec fn posted_in(&self, queue: &PostedQueue) -> bool {
        self.posted == queue@.contains(self.data)
    }

    /// Adds the event to the timer tree, to fire `timer` milliseconds after
    /// `now`.
    ///
    /// An event that is already registered keeps its registration when the
    /// new deadline is within the lazy delay of the old one; otherwise the
    /// old node is removed and a node with the new key inserted.
    pub fn add_timer(&mut self, tree: &mut TimerTree, now: u64, timer: u64)
        ensures
            old(self).timer_set && within_lazy_delay(timer_key(now, timer), old(self).timer_key) ==> {
                &&& *final(self) == *old(self)
                &&& final(tree)@ == old(tree)@
            },
            !(old(self).timer_set && within_lazy_delay(timer_key(now, timer), old(self).timer_key))
                ==> {
                &&& *final(self) == (Event {
                    timer_key: timer_key(now, timer),
                    timer_set: true,
                    ..*old(self)
                })
                &&& final(tree)@ == without_id(old(tree)@, old(self).data).push(
                    TimerNode { key: timer_key(now, timer), id: old(self).data },
                )
            },
            old(self).registered_in(old(tree)) ==> final(self).registered_in(final(tree)),
    {
        let key: u64 = now.wrapping_add(timer);
        if self.timer_set {
            if lazy_delay_applies(key, self.timer_key) {
                return ;
            }
            self.del_timer(tree);
        }
        self.timer_key = key;
        tree.insert(self.data, key);
        self.timer_set = true;
        proof {
            let w = without_id(old(tree)@, self.data);
            lemma_without_id(old(tree)@, self.data, self.data);
            lemma_without_id(w, self.data, self.data);
            assert(without_id(w, self.data) == w);
            assert(final(tree)@.drop_last() == w);
        }
    }

    /// Removes the event from the timer tree.
    pub fn del_timer(&mut self, tree: &mut TimerTree)
        ensures
            *final(self) == (Event { timer_set: false, ..*old(self) }),
            final(tree)@ == without_id(old(tree)@, old(self).data),
            !has_id(final(tree)@, old(self).data),
            final(self).registered_in(final(tree)),
    {
        tree.delete(self.data);
        self.timer_set = false;
        proof {
            lemma_without_id(old(tree)@, self.data, self.data);
        }
    }

    /// Marks the event as expired, as the host does with an event that it
    /// took out of the timer tree, before it calls the event's handler.
    pub fn expire(&mut self)
        ensures
            *final(self) == (Event { timer_set: false, timedout: true, ..*old(self) }),
    {
        self.timer_set = false;
        self.timedout = true;
    }

    /// Adds the event to a posted-event queue. Posting an event that is
    /// already posted changes nothing.
    pub fn post_event(&mut self, queue: &mut PostedQueue)
        ensures
            old(self).posted ==> *final(self) == *old(self) && final(queue)@ == old(queue)@,
            !old(self).posted ==> {
                &&& *final(self) == (Event { posted: true, ..*old(self) })
                &&& final(queue)@ == old(queue)@.push(old(self).data)
            },
            final(self).posted,
            old(self).posted_in(old(queue)) ==> final(self).posted_in(final(queue)),
    {
        if !self.posted {
            self.posted = true;
            queue.insert_tail(self.data);
            assert(queue@[queue@.len() - 1] == self.data);
        }
    }

    /// Removes the event from the posted-event queue, if it is posted.
    pub fn delete_posted_event(&mut self, queue: &mut PostedQueue)
        ensures
            !old(self).posted ==> *final(self) == *old(self) && final(queue)@ == old(queue)@,
            old(self).posted ==> {
                &&& *final(self) == (Event { posted: false, ..*old(self) })
                &&& final(queue)@ == unposted(old(queue)@, old(self).data)
                &&& !final(queue)@.contains(old(self).data)
            },
            !final(self).posted,
            old(self).posted_in(old(queue)) ==> final(self).posted_in(final(queue)),
    {
        if self.posted {
            self.posted = false;
            queue.remove(self.data);
            proof {
                lemma_unposted(old(queue)@, self.data, self.data);
            }
        }
    }

    /// Releases what the event holds in the host: its timer registration
    /// and its place in the posted-event queue. This is what ends the
    /// event's life.
    pub fn release(&mut self, tree: &mut TimerTree, queue: &mut PostedQueue)
        ensures
            *final(self) == (Event { timer_set: false, posted: false, ..*old(self) }),
            old(self).timer_set ==> final(tree)@ == without_id(old(tree)@, old(self).data),
            !old(self).timer_set ==> final(tree)@ == old(tree)@,
            old(self).posted ==> final(queue)@ == unposted(old(queue)@, old(self).data),
            !old(self).posted ==> final(queue)@ == old(queue)@,
            old(self).registered_in(old(tree)) ==> !has_id(final(tree)@, old(self).data),
            old(self).posted_in(old(queue)) ==> !final(queue)@.contains(old(self).data),
    {
        if self.timer_set {
            self.del_timer(tree);
        }
        if self.posted {
            self.delete_posted_event(queue);
        }
    }
}

/// What the host's update of a read or write event came to: success for the
/// host's success code, and any other code as the error.
pub open spec fn status_result(rc: isize) -> Result<(), isize> {
    if rc == 0 {
        Ok(())
    } else {
        Err(rc)
    }
}

impl Event {
    /// The outcome of the host's update of this read event, which returned
    /// `rc`.
    pub fn handle_read(&self, rc: isize) -> (r: Result<(), isize>)
        ensures
            r == status_result(rc),
    {
        if rc != 0 {
            return Err(rc);
        }
        Ok(())
    }

    /// The outcome of the host's update of this write event, which returned
    /// `rc`.
    pub fn handle_write(&self, rc: isize) -> (r: Result<(), isize>)
        ensures
            r == status_result(rc),
    {
        if rc != 0 {
            return Err(rc);
        }
        Ok(())
    }
}

/// An event of the host that someone else owns.
pub type EventRef = Event;

} // verus!
