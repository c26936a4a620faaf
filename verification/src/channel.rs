//! The bounded multiplex channel's policy, as a state machine the rest of
//! the library is proved against: a FIFO queue of fixed small capacity whose
//! producers never block — a send on a full queue hands the event back to be
//! dropped, and a closed channel refuses every send.

use vstd::prelude::*;

use crate::event::Ctl1Event;

verus! {

/// What became of one attempted send, as the transport reports it: accepted;
/// dropped because the queue was at capacity (the event comes back); or
/// refused because the receiving end is gone (the event comes back).
#[derive(Debug)]
pub enum SendOutcome {
    /// The event was queued.
    Sent,
    /// The queue was full; the event comes back and is dropped.
    Full(Ctl1Event),
    /// The receiver is gone; the event comes back. Normal at shutdown.
    Closed(Ctl1Event),
}

/// The multiplex channel: all device readers feed it, the reducer drains it.
pub struct MuxChannel {
    queue: Vec<Ctl1Event>,
    capacity: usize,
    closed: bool,
}

/// How one send attempt relates the channel before to the channel after and
/// to its outcome: a closed channel refuses and keeps its queue; a full one
/// reports `Full` and keeps its queue; otherwise the event is appended.
pub open spec fn send_transition(
    pre: MuxChannel,
    ev: Ctl1Event,
    post: MuxChannel,
    r: SendOutcome,
) -> bool {
    &&& post.cap() == pre.cap()
    &&& post.is_closed() == pre.is_closed()
    &&& if pre.is_closed() {
        &&& r matches SendOutcome::Closed(e) && e == ev
        &&& post.queued() == pre.queued()
    } else if pre.queued().len() >= pre.cap() {
        &&& r matches SendOutcome::Full(e) && e == ev
        &&& post.queued() == pre.queued()
    } else {
        &&& r is Sent
        &&& post.queued() == pre.queued().push(ev)
    }
}

/// How one receive attempt relates the channel before to the channel after
/// and to its result: an empty queue yields nothing, else the oldest queued
/// event leaves the queue in arrival order.
pub open spec fn recv_transition(
    pre: MuxChannel,
    post: MuxChannel,
    r: Option<Ctl1Event>,
) -> bool {
    &&& post.cap() == pre.cap()
    &&& post.is_closed() == pre.is_closed()
    &&& if pre.queued().len() == 0 {
        &&& r is None
        &&& post.queued() == pre.queued()
    } else {
        &&& r == Some(pre.queued()[0])
        &&& post.queued() == pre.queued().subrange(1, pre.queued().len() as int)
    }
}

impl MuxChannel {
    /// The events waiting to be drained, oldest first.
    pub closed spec fn queued(&self) -> Seq<Ctl1Event> {
        self.queue@
    }

    /// The fixed capacity the channel was opened with.
    pub closed spec fn cap(&self) -> usize {
        self.capacity
    }

    /// Whether the receiving end is gone.
    pub closed spec fn is_closed(&self) -> bool {
        self.closed
    }

    /// The channel never holds more than its capacity.
    pub closed spec fn wf(&self) -> bool {
        self.queue@.len() <= self.capacity
    }

    /// Opens a channel of the given capacity, empty and accepting sends.
    pub fn open(capacity: usize) -> (r: MuxChannel)
        requires
            capacity >= 1,
        ensures
            r.queued() == Seq::<Ctl1Event>::empty(),
            r.cap() == capacity,
            !r.is_closed(),
            r.wf(),
    {
        MuxChannel { queue: Vec::new(), capacity, closed: false }
    }

    /// Attempts to enqueue one event without ever blocking: on a full queue
    /// the event is handed back (`Full`) for the caller to drop — freshness
    /// over completeness — and on a closed channel it is handed back as
    /// `Closed`.
    pub fn try_send(&mut self, ev: Ctl1Event) -> (r: SendOutcome)
        requires
            old(self).wf(),
        ensures
            final(self).wf(),
            send_transition(*old(self), ev, *final(self), r),
    {
        if self.closed {
            SendOutcome::Closed(ev)
        } else if self.queue.len() >= self.capacity {
            SendOutcome::Full(ev)
        } else {
            self.queue.push(ev);
            SendOutcome::Sent
        }
    }

    /// Takes the oldest queued event, if any, without blocking.
    pub fn try_recv(&mut self) -> (r: Option<Ctl1Event>)
        requires
            old(self).wf(),
        ensures
            final(self).wf(),
            recv_transition(*old(self), *final(self), r),
    {
        if self.queue.len() == 0 {
            None
        } else {
            Some(self.queue.remove(0))
        }
    }

    /// Marks the receiving end gone; later sends are refused. This is the
    /// cooperative shutdown path, not an error.
    pub fn close(&mut self)
        requires
            old(self).wf(),
        ensures
            final(self).wf(),
            final(self).is_closed(),
            final(self).queued() == old(self).queued(),
            final(self).cap() == old(self).cap(),
    {
        self.closed = true;
    }
}

/// Backpressure: on a channel of capacity 1, two sends issued before any
/// receive leave exactly the first event queued — the consumer can observe
/// at most one of the two — and the second send comes back `Full` with its
/// event intact instead of blocking or failing the producer.
pub proof fn lemma_backpressure(
    c0: MuxChannel,
    a: Ctl1Event,
    c1: MuxChannel,
    ra: SendOutcome,
    b: Ctl1Event,
    c2: MuxChannel,
    rb: SendOutcome,
)
    requires
        !c0.is_closed(),
        c0.cap() == 1,
        c0.queued().len() == 0,
        send_transition(c0, a, c1, ra),
        send_transition(c1, b, c2, rb),
    ensures
        ra is Sent,
        rb matches SendOutcome::Full(e) && e == b,
        c2.queued() == seq![a],
{
    assert(c1.queued() == c0.queued().push(a));
    assert(c2.queued() =~= seq![a]);
}

} // verus!
