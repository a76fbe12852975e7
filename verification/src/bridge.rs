//! The bridge adapter: translates envelopes arriving on the external
//! client-facing channel into relay requests, and phrases relay failures
//! so they can be surfaced to the originating client instead of being
//! silently discarded.

use vstd::prelude::*;
use crate::SignalError;
use crate::behavior::SignalingBehavior;
use crate::directory::{last_conn_of, reachable_in};
use crate::identity::PeerIdentity;
use crate::queue::PendingEvent;

verus! {

/// One message from an external client: relay `signal` from `from` to
/// `to`. A missing target is rejected rather than broadcast.
#[derive(Clone, Debug, PartialEq, Eq)]
pub struct SignalEnvelope {
    pub from: PeerIdentity,
    pub to: Option<PeerIdentity>,
    pub signal: Vec<u8>,
}

/// Turns one client envelope into a relay request.
///
/// An envelope without a target is rejected with `MissingTarget`; one whose
/// target has no live connection fails with `PeerNotConnected`. Either
/// failure queues nothing, so the caller can surface it to the originating
/// client. Otherwise exactly one `Deliver` event is queued, addressed to
/// the target's most recently established connection.
pub fn handle_envelope(controller: &mut SignalingBehavior, envelope: SignalEnvelope) -> (r: Result<
    (),
    SignalError,
>)
    ensures
        final(controller).regs() == old(controller).regs(),
        old(controller).wf() ==> final(controller).wf(),
        envelope.to is None ==> r == Err::<(), SignalError>(SignalError::MissingTarget)
            && final(controller).pending() == old(controller).pending(),
        (envelope.to matches Some(t) ==> {
            &&& r is Ok <==> reachable_in(old(controller).regs(), t)
            &&& !reachable_in(old(controller).regs(), t) ==> r == Err::<(), SignalError>(
                SignalError::PeerNotConnected,
            ) && final(controller).pending() == old(controller).pending()
            &&& reachable_in(old(controller).regs(), t) ==> final(controller).pending()
                == old(controller).pending().push(
                PendingEvent::Deliver {
                    target: t,
                    connection: last_conn_of(old(controller).regs(), t),
                    sender: envelope.from,
                    payload: envelope.signal,
                },
            )
        }),
{
    match envelope.to {
        Some(t) => controller.relay_signal(envelope.from, t, envelope.signal),
        None => Err(SignalError::MissingTarget),
    }
}

impl SignalError {
    /// The failure notification to surface to the originating external
    /// client.
    pub fn describe(&self) -> (r: &'static str)
        ensures
            self is PeerNotConnected ==> r@ == "peer not connected"@,
            self is MissingTarget ==> r@ == "missing target peer"@,
            self is ProtocolDecodeError ==> r@ == "malformed signaling frame"@,
    {
        match self {
            SignalError::PeerNotConnected => "peer not connected",
            SignalError::MissingTarget => "missing target peer",
            SignalError::ProtocolDecodeError => "malformed signaling frame",
        }
    }
}

} // verus!
