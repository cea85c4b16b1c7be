//! Decisions of the audio relay. The caller owns the socket and the playback
//! sink: it reports what arrived and performs the returned action.
use vstd::prelude::*;
use crate::history::bounded_push;
use crate::protocol::{classify_stream, stream_kind, StreamMessage, HEARTBEAT_TIMEOUT_MS, KEEP_ALIVE_INTERVAL_MS};
use crate::state::{is_clock_stamp, log_line, AppState};

verus! {

/// The relay's own clocks, in milliseconds on a monotonic clock.
#[derive(Clone, Copy, Debug, PartialEq, Eq, Structural)]
pub struct RelayTimers {
    /// When the last keep-alive was sent (or the relay started).
    pub last_keep_alive: u64,
    /// When the last audio payload arrived (or the relay started).
    pub last_audio: u64,
}

/// What the caller does after a receive.
#[derive(Clone, Copy, Debug, PartialEq, Eq, Structural)]
pub enum RelayAction {
    /// Go on with the next iteration.
    Continue,
    /// Write the datagram, verbatim, to the playback sink, then go on.
    Forward,
    /// End the loop and release the playback sink.
    Stop,
}

/// Time from `since` to `now`; zero if the clock reads earlier.
pub open spec fn elapsed(now: u64, since: u64) -> u64 {
    if now >= since {
        (now - since) as u64
    } else {
        0
    }
}

/// A latency sample as the last-latency field holds it: saturated to `u32`.
pub open spec fn latency_u32(lat: u64) -> u32 {
    if lat > u32::MAX as u64 {
        u32::MAX
    } else {
        lat as u32
    }
}

/// The packet counter after one more audio payload; it saturates.
pub open spec fn count_up(n: u64) -> u64 {
    if n < u64::MAX {
        (n + 1) as u64
    } else {
        n
    }
}

/// Milliseconds from `since` to `now`, zero if the clock reads earlier.
pub fn elapsed_ms(now: u64, since: u64) -> (r: u64)
    ensures
        r == elapsed(now, since),
{
    if now >= since {
        now - since
    } else {
        0
    }
}

/// Starts the relay at `now`: the heartbeat clock and both timers restart.
pub fn relay_start(state: &mut AppState, now: u64) -> (t: RelayTimers)
    requires
        old(state).wf(),
    ensures
        final(state).wf(),
        final(state).last_heartbeat == now,
        t == (RelayTimers { last_keep_alive: now, last_audio: now }),
        final(state).pairing_active == old(state).pairing_active,
        final(state).paired == old(state).paired,
        final(state).streaming == old(state).streaming,
        final(state).phone_ip == old(state).phone_ip,
        final(state).logs@ == old(state).logs@,
        final(state).last_latency == old(state).last_latency,
        final(state).packet_count == old(state).packet_count,
        final(state).latency_history@ == old(state).latency_history@,
{
    state.last_heartbeat = now;
    RelayTimers { last_keep_alive: now, last_audio: now }
}

/// Whether the relay loop goes on: exactly while streaming.
pub fn relay_should_run(state: &AppState) -> (r: bool)
    ensures
        r == state.streaming,
{
    state.streaming
}

/// Whether a keep-alive is due at `now`: once `KEEP_ALIVE_INTERVAL_MS`
/// have passed since the last one, whatever arrived meanwhile. When due,
/// the keep-alive timer restarts at `now`.
pub fn keep_alive_due(timers: &mut RelayTimers, now: u64) -> (send: bool)
    ensures
        send == (elapsed(now, old(timers).last_keep_alive) >= KEEP_ALIVE_INTERVAL_MS),
        final(timers).last_keep_alive == (if send { now } else { old(timers).last_keep_alive }),
        final(timers).last_audio == old(timers).last_audio,
{
    if elapsed_ms(now, timers.last_keep_alive) >= KEEP_ALIVE_INTERVAL_MS {
        timers.last_keep_alive = now;
        true
    } else {
        false
    }
}

/// Handles a datagram that arrived at `now` on the streaming socket. Every
/// receipt restarts the heartbeat clock at `now`, and:
/// - `BYE` ends the session with "peer disconnected" and stops the loop;
/// - a heartbeat only counts as liveness;
/// - anything else, an empty datagram included, is audio: its gap to the
///   previous audio payload is pushed as a latency sample and kept as the
///   last latency, the packet count goes up by one, and the caller forwards
///   the bytes.
/// The keep-alive timer is never touched.
pub fn relay_on_datagram(state: &mut AppState, timers: &mut RelayTimers, payload: &[u8], now: u64) -> (a: RelayAction)
    requires
        old(state).wf(),
    ensures
        final(state).wf(),
        final(timers).last_keep_alive == old(timers).last_keep_alive,
        final(state).pairing_active == old(state).pairing_active,
        final(state).last_heartbeat == now,
        stream_kind(payload@) == StreamMessage::Bye ==> {
            &&& a == RelayAction::Stop
            &&& !final(state).paired
            &&& !final(state).streaming
            &&& final(state).phone_ip.is_none()
            &&& final(state).last_latency == old(state).last_latency
            &&& final(state).packet_count == old(state).packet_count
            &&& final(state).latency_history@ == old(state).latency_history@
            &&& *final(timers) == *old(timers)
            &&& exists|stamp: Seq<char>|
                is_clock_stamp(stamp) && final(state).log_view() == bounded_push(old(state).log_view(), #[trigger] log_line(stamp, "peer disconnected"@))
        },
        stream_kind(payload@) == StreamMessage::Heartbeat ==> {
            &&& a == RelayAction::Continue
            &&& final(state).paired == old(state).paired
            &&& final(state).streaming == old(state).streaming
            &&& final(state).phone_ip == old(state).phone_ip
            &&& final(state).logs@ == old(state).logs@
            &&& final(state).last_latency == old(state).last_latency
            &&& final(state).packet_count == old(state).packet_count
            &&& final(state).latency_history@ == old(state).latency_history@
            &&& *final(timers) == *old(timers)
        },
        stream_kind(payload@) == StreamMessage::Audio ==> {
            let sample = elapsed(now, old(timers).last_audio);
            &&& a == RelayAction::Forward
            &&& final(timers).last_audio == now
            &&& final(state).latency_history@ == bounded_push(old(state).latency_history@, sample)
            &&& final(state).last_latency == Some(latency_u32(sample))
            &&& final(state).packet_count == count_up(old(state).packet_count)
            &&& final(state).paired == old(state).paired
            &&& final(state).streaming == old(state).streaming
            &&& final(state).phone_ip == old(state).phone_ip
            &&& final(state).logs@ == old(state).logs@
        },
{
    state.last_heartbeat = now;
    match classify_stream(payload) {
        StreamMessage::Bye => {
            state.end_session("peer disconnected");
            RelayAction::Stop
        },
        StreamMessage::Heartbeat => RelayAction::Continue,
        StreamMessage::Audio => {
            let sample = elapsed_ms(now, timers.last_audio);
            timers.last_audio = now;
            state.push_latency(sample);
            state.last_latency = Some(if sample > u32::MAX as u64 { u32::MAX } else { sample as u32 });
            if state.packet_count < u64::MAX {
                state.packet_count = state.packet_count + 1;
            }
            RelayAction::Forward
        },
    }
}

/// Handles a receive that timed out at `now`: once `HEARTBEAT_TIMEOUT_MS`
/// have passed since the last datagram, the session ends with
/// "communication lost" and the loop stops; before that nothing changes.
pub fn relay_on_timeout(state: &mut AppState, now: u64) -> (a: RelayAction)
    requires
        old(state).wf(),
    ensures
        final(state).wf(),
        elapsed(now, old(state).last_heartbeat) < HEARTBEAT_TIMEOUT_MS ==> a == RelayAction::Continue
            && *final(state) == *old(state),
        elapsed(now, old(state).last_heartbeat) >= HEARTBEAT_TIMEOUT_MS ==> {
            &&& a == RelayAction::Stop
            &&& !final(state).paired
            &&& !final(state).streaming
            &&& final(state).phone_ip.is_none()
            &&& final(state).pairing_active == old(state).pairing_active
            &&& final(state).same_metrics(old(state))
            &&& exists|stamp: Seq<char>|
                is_clock_stamp(stamp) && final(state).log_view() == bounded_push(old(state).log_view(), #[trigger] log_line(stamp, "communication lost"@))
        },
{
    if elapsed_ms(now, state.last_heartbeat) >= HEARTBEAT_TIMEOUT_MS {
        state.end_session("communication lost");
        RelayAction::Stop
    } else {
        RelayAction::Continue
    }
}

} // verus!
