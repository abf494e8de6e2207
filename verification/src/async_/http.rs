//! The body of a request as the host has read it: a chain of buffers that
//! is handed out one buffer at a time.

use crate::async_::poll::Poll;
use crate::async_::spawn::TaskId;
use std::collections::VecDeque;
use vstd::prelude::*;

verus! {

/// A buffer of the host: bytes, and how many of them were consumed.
pub struct Buf {
    data: Vec<u8>,
    pos: usize,
}

impl View for Buf {
    type V = Seq<u8>;

    /// The bytes that are not yet consumed.
    closed spec fn view(&self) -> Seq<u8> {
        self.data@.skip(self.pos as int)
    }
}

impl Buf {
    #[verifier::type_invariant]
    spec fn inv(self) -> bool {
        self.pos <= self.data@.len()
    }

    /// A buffer that holds `data`, none of it consumed.
    pub fn new(data: Vec<u8>) -> (b: Self)
        ensures
            b@ == data@,
    {
        let b = Buf { data, pos: 0 };
        assert(b.data@.skip(0) =~= b.data@);
        b
    }

    /// The number of bytes that are not yet consumed.
    pub fn remaining(&self) -> (n: usize)
        ensures
            n == self@.len(),
    {
        proof {
            use_type_invariant(self);
        }
        self.data.len() - self.pos
    }

    /// The bytes that are not yet consumed.
    pub fn chunk(&self) -> (c: &[u8])
        ensures
            c@ == self@,
    {
        proof {
            use_type_invariant(self);
        }
        let c = vstd::slice::slice_subrange(self.data.as_slice(), self.pos, self.data.len());
        assert(c@ =~= self.data@.skip(self.pos as int));
        c
    }

    /// Consumes the next `cnt` bytes.
    pub fn advance(&mut self, cnt: usize)
        requires
            cnt <= old(self)@.len(),
        ensures
            final(self)@ == old(self)@.skip(cnt as int),
    {
        let len = self.data.len();
        proof {
            use_type_invariant(&*self);
            assert(self.data@.skip(self.pos as int).len() == len - self.pos);
        }
        self.pos = self.pos + cnt;
        assert(self.data@.skip(self.pos as int) =~= old(self).data@.skip(old(self).pos as int).skip(
            cnt as int,
        ));
    }
}

/// The state of a request body.
pub struct BodyState {
    /// Whether the host has read the body.
    pub loaded: bool,
    /// The buffers that are still to be handed out, each by its bytes,
    /// first in the chain first.
    pub chain: Seq<Seq<u8>>,
    /// The task that waits for the body.
    pub waker: Option<TaskId>,
}

/// The body of a request. Until the host has read the body, a poll for a
/// frame suspends; afterwards the buffers of the chain come one with each
/// poll, and then the end.
pub struct RequestBody {
    loaded: bool,
    chain: VecDeque<Buf>,
    waker: Option<TaskId>,
}

impl View for RequestBody {
    type V = BodyState;

    closed spec fn view(&self) -> BodyState {
        BodyState {
            loaded: self.loaded,
            chain: Seq::new(self.chain@.len(), |i: int| self.chain@[i]@),
            waker: self.waker,
        }
    }
}

impl Default for RequestBody {
    fn default() -> (b: Self)
        ensures
            b@ == (BodyState { loaded: false, chain: Seq::<Seq<u8>>::empty(), waker: None }),
    {
        let b = RequestBody { loaded: false, chain: VecDeque::new(), waker: None };
        assert(b@.chain =~= Seq::<Seq<u8>>::empty());
        b
    }
}

/// The buffers `bufs`, each by its bytes.
pub open spec fn chain_bytes(bufs: Seq<Buf>) -> Seq<Seq<u8>> {
    Seq::new(bufs.len(), |i: int| bufs[i]@)
}

impl RequestBody {
    /// Takes the body that the host has read, as the chain of its buffers,
    /// and hands out the task that waited for it.
    pub fn update(&mut self, bufs: Vec<Buf>) -> (r: Option<TaskId>)
        ensures
            r == old(self)@.waker,
            final(self)@ == (BodyState { loaded: true, chain: chain_bytes(bufs@), waker: None }),
    {
        let mut chain: VecDeque<Buf> = VecDeque::new();
        let mut bufs = bufs;
        let ghost all = bufs@;
        // Move the buffers over in their order: from the back of `bufs` to
        // the front of the chain.
        while bufs.len() > 0
            invariant
                bufs@.len() <= all.len(),
                chain@.len() + bufs@.len() == all.len(),
                forall|i: int| 0 <= i < bufs@.len() ==> bufs@[i] == all[i],
                forall|i: int| 0 <= i < chain@.len() ==> chain@[i] == all[bufs@.len() + i],
            decreases bufs@.len(),
        {
            let b = bufs.pop().unwrap();
            chain.push_front(b);
        }
        self.chain = chain;
        self.loaded = true;
        let r = self.waker.take();
        assert(self@.chain =~= chain_bytes(all));
        r
    }

    /// The result of a poll for the next frame.
    pub open spec fn frame(s: BodyState) -> Poll<Option<Seq<u8>>> {
        if !s.loaded {
            Poll::Pending
        } else if s.chain.len() == 0 {
            Poll::Ready(None)
        } else {
            Poll::Ready(Some(s.chain[0]))
        }
    }

    /// The state after a poll for the next frame on behalf of task
    /// `waker`.
    pub open spec fn after_frame(s: BodyState, waker: TaskId) -> BodyState {
        if !s.loaded {
            BodyState { waker: Some(waker), ..s }
        } else if s.chain.len() == 0 {
            s
        } else {
            BodyState { chain: s.chain.drop_first(), ..s }
        }
    }

    /// Polls for the next frame of the body on behalf of task `waker`.
    /// Before the host has read the body the poll stores `waker` and
    /// suspends. Afterwards it hands out the first buffer of the chain and
    /// moves on to the next, or hands out the end where the chain is used
    /// up.
    pub fn poll_frame(&mut self, waker: TaskId) -> (r: Poll<Option<Buf>>)
        ensures
            r is Pending <==> Self::frame(old(self)@) is Pending,
            r matches Poll::Ready(f) ==> {
                &&& Self::frame(old(self)@) matches Poll::Ready(g)
                &&& f is Some <==> g is Some
                &&& f matches Some(b) ==> g == Some(b@)
            },
            final(self)@ == Self::after_frame(old(self)@, waker),
    {
        if !self.loaded {
            self.waker = Some(waker);
            assert(self@.chain =~= old(self)@.chain);
            return Poll::Pending;
        }
        match self.chain.pop_front() {
            None => {
                assert(self@.chain =~= old(self)@.chain);
                Poll::Ready(None)
            },
            Some(b) => {
                assert(self@.chain =~= old(self)@.chain.drop_first());
                Poll::Ready(Some(b))
            },
        }
    }

    /// Whether the body has come to its end: the host has read it and the
    /// chain is used up.
    pub fn is_end_stream(&self) -> (r: bool)
        ensures
            r == (self@.loaded && self@.chain.len() == 0),
    {
        self.loaded && self.chain.len() == 0
    }
}

} // verus!
