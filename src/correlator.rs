//! Hands each reply, in arrival order, to the command that waits for one.
use vstd::prelude::*;
use std::collections::VecDeque;
use crate::error::{Error, ErrorCode};
use crate::reply::Data;

verus! {

/// The state of a reply queue: the replies that arrived and were not yet taken,
/// the number it holds at most, and whether the reader has stopped.
pub struct QueueState {
    pub pending: Seq<Data>,
    pub capacity: nat,
    pub closed: bool,
}

/// The queue after `reply` is offered, and whether it was taken in: it is when
/// the reader still runs and there is room.
pub open spec fn offer_step(q: QueueState, reply: Data) -> (QueueState, bool) {
    if !q.closed && q.pending.len() < q.capacity {
        (QueueState { pending: q.pending.push(reply), ..q }, true)
    } else {
        (q, false)
    }
}

/// The queue after one poll, and the poll's outcome: the oldest pending reply;
/// else `ConnectionClosed` once the reader has stopped; else nothing yet.
pub open spec fn poll_step(q: QueueState) -> (QueueState, Option<Result<Data, Error>>) {
    if q.pending.len() > 0 {
        (QueueState { pending: q.pending.drop_first(), ..q }, Some(Ok(q.pending[0])))
    } else if q.closed {
        (q, Some(Err(Error(ErrorCode::ConnectionClosed))))
    } else {
        (q, None)
    }
}

/// The queue after `n` polls.
pub open spec fn poll_times(q: QueueState, n: nat) -> QueueState
    decreases n,
{
    if n == 0 {
        q
    } else {
        poll_times(poll_step(q).0, (n - 1) as nat)
    }
}

/// The queue after `replies` are offered, one after the other.
pub open spec fn offer_all(q: QueueState, replies: Seq<Data>) -> QueueState
    decreases replies.len(),
{
    if replies.len() == 0 {
        q
    } else {
        offer_all(offer_step(q, replies[0]).0, replies.drop_first())
    }
}

/// A bounded first-in first-out queue of replies, fed by the reader of the
/// stream and drained by the command that waits for its reply.
pub struct ReplyQueue {
    pending: VecDeque<Data>,
    capacity: usize,
    closed: bool,
}

impl View for ReplyQueue {
    type V = QueueState;

    closed spec fn view(&self) -> QueueState {
        QueueState { pending: self.pending@, capacity: self.capacity as nat, closed: self.closed }
    }
}

impl ReplyQueue {
    pub closed spec fn wf(&self) -> bool {
        self.pending@.len() <= self.capacity
    }

    /// An empty queue that holds at most `capacity` replies.
    pub fn new(capacity: usize) -> (r: ReplyQueue)
        requires
            capacity > 0,
        ensures
            r.wf(),
            r@ == (QueueState { pending: Seq::empty(), capacity: capacity as nat, closed: false }),
    {
        ReplyQueue { pending: VecDeque::new(), capacity, closed: false }
    }

    /// Offers a reply that arrived; hands it back when the queue is full or closed.
    pub fn offer(&mut self, reply: Data) -> (r: Result<(), Data>)
        requires
            old(self).wf(),
        ensures
            final(self).wf(),
            (final(self)@, r is Ok) == offer_step(old(self)@, reply),
            r is Err ==> r == Err::<(), Data>(reply),
    {
        if !self.closed && self.pending.len() < self.capacity {
            self.pending.push_back(reply);
            Ok(())
        } else {
            Err(reply)
        }
    }

    /// Records that the reader has stopped: no further reply will arrive.
    pub fn close(&mut self)
        requires
            old(self).wf(),
        ensures
            final(self).wf(),
            final(self)@ == (QueueState { closed: true, ..old(self)@ }),
    {
        self.closed = true;
    }

    /// Whether the reader has stopped.
    pub fn is_closed(&self) -> (r: bool)
        ensures
            r == self@.closed,
    {
        self.closed
    }

    /// Takes the oldest reply; `ConnectionClosed` when none is left and the
    /// reader has stopped; `None` when the caller has to wait.
    pub fn poll(&mut self) -> (r: Option<Result<Data, Error>>)
        requires
            old(self).wf(),
        ensures
            final(self).wf(),
            (final(self)@, r) == poll_step(old(self)@),
    {
        match self.pending.pop_front() {
            Some(d) => Some(Ok(d)),
            None => if self.closed {
                Some(Err(Error(ErrorCode::ConnectionClosed)))
            } else {
                None
            },
        }
    }
}

proof fn lemma_poll_times_skips(q: QueueState, n: nat)
    requires
        n <= q.pending.len(),
    ensures
        poll_times(q, n) == (QueueState { pending: q.pending.skip(n as int), ..q }),
    decreases n,
{
    if n == 0 {
        assert(q.pending.skip(0) =~= q.pending);
    } else {
        let q1 = poll_step(q).0;
        lemma_poll_times_skips(q1, (n - 1) as nat);
        assert(q1.pending.skip(n - 1) =~= q.pending.skip(n as int));
    }
}

proof fn lemma_poll_times_closed_empty(q: QueueState, n: nat)
    requires
        q.closed,
        q.pending.len() == 0,
    ensures
        poll_times(q, n) == q,
    decreases n,
{
    if n > 0 {
        lemma_poll_times_closed_empty(q, (n - 1) as nat);
    }
}

proof fn lemma_poll_times_add(q: QueueState, a: nat, b: nat)
    ensures
        poll_times(q, a + b) == poll_times(poll_times(q, a), b),
    decreases a,
{
    if a > 0 {
        lemma_poll_times_add(poll_step(q).0, (a - 1) as nat, b);
        assert((a + b - 1) as nat == (a - 1) as nat + b);
    }
}

proof fn lemma_offer_all_appends(q: QueueState, replies: Seq<Data>)
    requires
        !q.closed,
        q.pending.len() + replies.len() <= q.capacity,
    ensures
        offer_all(q, replies) == (QueueState { pending: q.pending + replies, ..q }),
    decreases replies.len(),
{
    if replies.len() == 0 {
        assert(q.pending + replies =~= q.pending);
    } else {
        let q1 = offer_step(q, replies[0]).0;
        lemma_offer_all_appends(q1, replies.drop_first());
        assert(q1.pending + replies.drop_first() =~= q.pending + replies);
    }
}

/// Once the reader has stopped, the replies that had already arrived are still
/// handed out, and every poll after them, however many, ends in
/// `ConnectionClosed`; no reply is taken in any more.
pub proof fn lemma_closed_queue_ends(q: QueueState, n: nat, reply: Data)
    requires
        q.closed,
        n >= q.pending.len(),
    ensures
        poll_step(poll_times(q, n)).1 == Some(Err::<Data, Error>(Error(ErrorCode::ConnectionClosed))),
        !offer_step(q, reply).1,
{
    let k = q.pending.len();
    lemma_poll_times_skips(q, k);
    let drained = poll_times(q, k);
    assert(drained.pending =~= Seq::<Data>::empty());
    lemma_poll_times_closed_empty(drained, (n - k) as nat);
    lemma_poll_times_add(q, k, (n - k) as nat);
    assert(k + (n - k) as nat == n);
}

/// Replies come out in the order in which they arrived: after the replies
/// `replies` are taken in behind those already pending, the polls that follow
/// the pending ones return them one by one, in order.
pub proof fn lemma_replies_in_order(q: QueueState, replies: Seq<Data>, i: int)
    requires
        !q.closed,
        q.pending.len() + replies.len() <= q.capacity,
        0 <= i < replies.len(),
    ensures
        poll_step(poll_times(offer_all(q, replies), (q.pending.len() + i) as nat)).1 == Some(
            Ok::<Data, Error>(replies[i]),
        ),
{
    lemma_offer_all_appends(q, replies);
    let full = offer_all(q, replies);
    let k = (q.pending.len() + i) as nat;
    lemma_poll_times_skips(full, k);
    assert(full.pending.skip(k as int)[0] == replies[i]);
}

} // verus!
