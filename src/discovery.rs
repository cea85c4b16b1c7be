//! Decisions of the discovery handshake. The caller owns the socket: it
//! reports each event and performs the returned action.
use vstd::prelude::*;
use crate::history::bounded_push;
use crate::protocol::{hi_bytes, is_hi};
use vstd::string::StringExecFns;
use crate::state::{is_clock_stamp, log_line, AppState};

verus! {

/// What happened on the discovery socket.
#[derive(Debug)]
pub enum DiscoveryEvent {
    /// A new round is about to begin.
    RoundStart,
    /// A datagram arrived from `sender` (its IP address, as text).
    Reply { payload: Vec<u8>, sender: String },
    /// Nothing arrived within the wait.
    TimedOut,
    /// The discovery socket could not be bound.
    BindFailed,
}

/// What the caller does next.
#[derive(Debug)]
pub enum DiscoveryAction {
    /// Broadcast `MANGEO_DISCOVER` and wait for a reply.
    Broadcast,
    /// Send `MANGEO_OK` to `to`, once, and end the loop: the handshake is done.
    SendOk { to: String },
    /// Sleep for a round, then start the next one.
    Sleep,
    /// End the loop without a handshake.
    Stop,
}

/// The log message of a completed handshake.
pub open spec fn paired_message(sender: Seq<char>) -> Seq<char> {
    "paired with "@ + sender
}

/// One step of discovery.
/// - At the start of a round it broadcasts while the search is active and
///   stops once the user has cancelled it.
/// - The phone's `HI` pairs the session with its sender, logs it, and asks
///   for exactly one `OK` reply, which ends the loop.
/// - Any other reply, or none, is ignored: sleep and go on.
/// - A socket that cannot be bound is logged and ends the attempt.
pub fn discovery_step(state: &mut AppState, event: DiscoveryEvent) -> (a: DiscoveryAction)
    requires
        old(state).wf(),
    ensures
        final(state).wf(),
        final(state).same_metrics(old(state)),
        final(state).streaming == old(state).streaming,
        final(state).pairing_active == old(state).pairing_active,
        match event {
            DiscoveryEvent::RoundStart => {
                &&& a == (if old(state).pairing_active { DiscoveryAction::Broadcast } else { DiscoveryAction::Stop })
                &&& *final(state) == *old(state)
            },
            DiscoveryEvent::Reply { payload, sender } => if payload@ == hi_bytes() {
                &&& a == (DiscoveryAction::SendOk { to: sender })
                &&& final(state).paired
                &&& final(state).phone_ip == Some(sender)
                &&& exists|stamp: Seq<char>|
                    is_clock_stamp(stamp) && final(state).log_view() == bounded_push(old(state).log_view(), #[trigger] log_line(stamp, paired_message(sender@)))
            } else {
                &&& a == DiscoveryAction::Sleep
                &&& *final(state) == *old(state)
            },
            DiscoveryEvent::TimedOut => {
                &&& a == DiscoveryAction::Sleep
                &&& *final(state) == *old(state)
            },
            DiscoveryEvent::BindFailed => {
                &&& a == DiscoveryAction::Stop
                &&& final(state).same_but_logs(old(state))
                &&& exists|stamp: Seq<char>|
                    is_clock_stamp(stamp) && final(state).log_view() == bounded_push(old(state).log_view(), #[trigger] log_line(stamp, "discovery socket could not be bound"@))
            },
        },
{
    match event {
        DiscoveryEvent::RoundStart => {
            if state.pairing_active {
                DiscoveryAction::Broadcast
            } else {
                DiscoveryAction::Stop
            }
        },
        DiscoveryEvent::Reply { payload, sender } => {
            if is_hi(payload.as_slice()) {
                let mut msg = String::new();
                msg.append("paired with ");
                msg.append(sender.as_str());
                proof {
                    reveal_strlit("paired with ");
                    assert(msg@ =~= paired_message(sender@));
                }
                state.paired = true;
                state.phone_ip = Some(sender.clone());
                state.add_log(msg.as_str());
                DiscoveryAction::SendOk { to: sender }
            } else {
                DiscoveryAction::Sleep
            }
        },
        DiscoveryEvent::TimedOut => DiscoveryAction::Sleep,
        DiscoveryEvent::BindFailed => {
            state.add_log("discovery socket could not be bound");
            DiscoveryAction::Stop
        },
    }
}

} // verus!
