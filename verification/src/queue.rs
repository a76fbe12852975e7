//! The event queue: an ordered, first-in-first-out buffer of pending
//! delivery and lifecycle events awaiting dispatch.
//!
//! The queue is unbounded (the documented overflow policy: callers that
//! need backpressure bound the channel that feeds the controller, not this
//! queue). Dequeueing is non-blocking: an empty queue answers at once with
//! nothing.

use vstd::prelude::*;
use std::collections::VecDeque;
use crate::identity::{ConnectionId, Direction, PeerIdentity};

verus! {

/// A pending delivery or lifecycle event, produced by the relay controller
/// and consumed by the dispatch loop in strict enqueue order.
#[derive(Clone, Debug, PartialEq, Eq)]
pub enum PendingEvent {
    /// Carry `payload` from `sender` to `target` over the live connection
    /// `connection` of `target`.
    Deliver {
        target: PeerIdentity,
        connection: ConnectionId,
        sender: PeerIdentity,
        payload: Vec<u8>,
    },
    /// Peer `peer` established the overlay connection `connection`.
    Established { peer: PeerIdentity, connection: ConnectionId, direction: Direction },
    /// The overlay connection `connection` of peer `peer` closed.
    Closed { peer: PeerIdentity, connection: ConnectionId },
}

/// An ordered, first-in-first-out buffer of pending events.
#[derive(Debug)]
pub struct EventQueue {
    items: VecDeque<PendingEvent>,
}

impl View for EventQueue {
    type V = Seq<PendingEvent>;

    closed spec fn view(&self) -> Seq<PendingEvent> {
        self.items@
    }
}

impl EventQueue {
    /// An empty queue.
    pub fn new() -> (q: EventQueue)
        ensures
            q@ =~= Seq::<PendingEvent>::empty(),
    {
        EventQueue { items: VecDeque::new() }
    }

    /// Appends `e` behind every event already queued; insertion order is
    /// preserved.
    pub fn enqueue(&mut self, e: PendingEvent)
        ensures
            final(self)@ == old(self)@.push(e),
    {
        self.items.push_back(e);
    }

    /// Removes and returns the event enqueued earliest, or nothing if the
    /// queue is empty. Never waits.
    pub fn try_dequeue(&mut self) -> (r: Option<PendingEvent>)
        ensures
            old(self)@.len() == 0 ==> r is None && final(self)@ == old(self)@,
            old(self)@.len() > 0 ==> r == Some(old(self)@[0])
                && final(self)@ == old(self)@.drop_first(),
    {
        let r = self.items.pop_front();
        proof {
            if old(self)@.len() > 0 {
                assert(self@ =~= old(self)@.drop_first());
            }
        }
        r
    }

    /// How many events are waiting to be dispatched.
    pub fn len(&self) -> (n: usize)
        ensures
            n == self@.len(),
    {
        self.items.len()
    }
}

/// The order in which a queue holding `s` hands its events out: the first
/// event, then whatever the rest is handed out as.
pub open spec fn dispatch_order(s: Seq<PendingEvent>) -> Seq<PendingEvent>
    decreases s.len(),
{
    if s.len() == 0 {
        Seq::empty()
    } else {
        seq![s[0]] + dispatch_order(s.drop_first())
    }
}

/// FIFO law: dequeueing repeatedly hands events out in exactly the order
/// they were enqueued — no reordering, no priority between event kinds.
pub proof fn law_fifo(s: Seq<PendingEvent>)
    ensures
        dispatch_order(s) == s,
    decreases s.len(),
{
    if s.len() == 0 {
        assert(dispatch_order(s) =~= s);
    } else {
        law_fifo(s.drop_first());
        assert(dispatch_order(s) =~= s);
    }
}

} // verus!
