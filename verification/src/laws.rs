//! Laws relating the controller's operations across calls: what one
//! accepted relay request does to the deliveries each connection handler
//! will see as the queue is dispatched in order.

use vstd::prelude::*;
use crate::identity::{ConnectionId, PeerIdentity};
use crate::queue::PendingEvent;

verus! {

/// The deliveries addressed to connection `c` in `events`, in dispatch
/// order: each as the sender named and the payload carried.
pub open spec fn deliveries_for(events: Seq<PendingEvent>, c: ConnectionId) -> Seq<
    (PeerIdentity, Seq<u8>),
>
    decreases events.len(),
{
    if events.len() == 0 {
        Seq::empty()
    } else {
        deliveries_for(events.drop_last(), c) + (match events.last() {
            PendingEvent::Deliver { target, connection, sender, payload } => if connection == c {
                seq![(sender, payload@)]
            } else {
                Seq::empty()
            },
            _ => Seq::empty(),
        })
    }
}

/// An accepted relay request notifies its one chosen connection exactly
/// once: queueing the `Deliver` event appends exactly one delivery, with
/// the given sender and payload, to the chosen connection's deliveries,
/// and the deliveries of every other connection are untouched.
pub proof fn law_relay_exactly_once(
    pre: Seq<PendingEvent>,
    post: Seq<PendingEvent>,
    target: PeerIdentity,
    chosen: ConnectionId,
    sender: PeerIdentity,
    payload: Vec<u8>,
)
    requires
        post == pre.push(
            PendingEvent::Deliver { target, connection: chosen, sender, payload },
        ),
    ensures
        deliveries_for(post, chosen) == deliveries_for(pre, chosen).push((sender, payload@)),
        forall|other: ConnectionId| other != chosen ==> #[trigger] deliveries_for(post, other)
            == deliveries_for(pre, other),
{
    assert(post.drop_last() =~= pre);
    assert(deliveries_for(post, chosen) =~= deliveries_for(pre, chosen).push((sender, payload@)));
    assert forall|other: ConnectionId|
        other != chosen implies #[trigger] deliveries_for(post, other) == deliveries_for(
        pre,
        other,
    ) by {
        assert(deliveries_for(post, other) =~= deliveries_for(pre, other));
    }
}

/// A lifecycle event changes no connection's deliveries: queueing an
/// `Established` or `Closed` event leaves `deliveries_for` untouched for
/// every connection.
pub proof fn law_lifecycle_delivers_nothing(
    pre: Seq<PendingEvent>,
    post: Seq<PendingEvent>,
    e: PendingEvent,
)
    requires
        post == pre.push(e),
        !(e is Deliver),
    ensures
        forall|c: ConnectionId| #[trigger] deliveries_for(post, c) == deliveries_for(pre, c),
{
    assert(post.drop_last() =~= pre);
    assert forall|c: ConnectionId| #[trigger] deliveries_for(post, c) == deliveries_for(
        pre,
        c,
    ) by {
        assert(deliveries_for(post, c) =~= deliveries_for(pre, c));
    }
}

} // verus!
