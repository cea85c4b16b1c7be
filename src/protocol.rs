//! Wire protocol: ports, timing constants and the fixed-byte sentinels.
use vstd::prelude::*;

verus! {

/// UDP port of the discovery handshake.
pub const DISCOVERY_PORT: u16 = 50004;

/// UDP port of the audio stream and its liveness traffic.
pub const STREAM_PORT: u16 = 50006;

/// How long discovery waits for a reply, and then sleeps, per round.
pub const DISCOVERY_WAIT_MS: u64 = 1000;

/// Receive bound of one relay iteration.
pub const RELAY_WAIT_MS: u64 = 100;

/// Cadence of the keep-alive datagrams sent to the phone.
pub const KEEP_ALIVE_INTERVAL_MS: u64 = 500;

/// Silence after which the link is declared dead.
pub const HEARTBEAT_TIMEOUT_MS: u64 = 5000;

/// `MANGEO_DISCOVER`
pub open spec fn discover_bytes() -> Seq<u8> {
    seq![77u8, 65, 78, 71, 69, 79, 95, 68, 73, 83, 67, 79, 86, 69, 82]
}

/// `MANGEO_HI`
pub open spec fn hi_bytes() -> Seq<u8> {
    seq![77u8, 65, 78, 71, 69, 79, 95, 72, 73]
}

/// `MANGEO_OK`
pub open spec fn ok_bytes() -> Seq<u8> {
    seq![77u8, 65, 78, 71, 69, 79, 95, 79, 75]
}

/// `MANGEO_BYE`
pub open spec fn bye_bytes() -> Seq<u8> {
    seq![77u8, 65, 78, 71, 69, 79, 95, 66, 89, 69]
}

/// `MANGOVAR`
pub open spec fn heartbeat_bytes() -> Seq<u8> {
    seq![77u8, 65, 78, 71, 79, 86, 65, 82]
}

/// `MANGOHI`
pub open spec fn keep_alive_bytes() -> Seq<u8> {
    seq![77u8, 65, 78, 71, 79, 72, 73]
}

/// What a datagram on the streaming port means.
#[derive(Clone, Copy, Debug, PartialEq, Eq, Structural)]
pub enum StreamMessage {
    /// The peer ends the session.
    Bye,
    /// Liveness filler from the phone.
    Heartbeat,
    /// Anything else: raw audio, forwarded verbatim.
    Audio,
}

/// The meaning of a streaming-port payload: exact byte match on the
/// sentinels, audio otherwise.
pub open spec fn stream_kind(payload: Seq<u8>) -> StreamMessage {
    if payload == bye_bytes() {
        StreamMessage::Bye
    } else if payload == heartbeat_bytes() {
        StreamMessage::Heartbeat
    } else {
        StreamMessage::Audio
    }
}

pub fn discover_msg() -> (r: Vec<u8>)
    ensures
        r@ == discover_bytes(),
{
    let r = vec![77u8, 65, 78, 71, 69, 79, 95, 68, 73, 83, 67, 79, 86, 69, 82];
    assert(r@ =~= discover_bytes());
    r
}

pub fn hi_msg() -> (r: Vec<u8>)
    ensures
        r@ == hi_bytes(),
{
    let r = vec![77u8, 65, 78, 71, 69, 79, 95, 72, 73];
    assert(r@ =~= hi_bytes());
    r
}

pub fn ok_msg() -> (r: Vec<u8>)
    ensures
        r@ == ok_bytes(),
{
    let r = vec![77u8, 65, 78, 71, 69, 79, 95, 79, 75];
    assert(r@ =~= ok_bytes());
    r
}

pub fn bye_msg() -> (r: Vec<u8>)
    ensures
        r@ == bye_bytes(),
{
    let r = vec![77u8, 65, 78, 71, 69, 79, 95, 66, 89, 69];
    assert(r@ =~= bye_bytes());
    r
}

pub fn heartbeat_msg() -> (r: Vec<u8>)
    ensures
        r@ == heartbeat_bytes(),
{
    let r = vec![77u8, 65, 78, 71, 79, 86, 65, 82];
    assert(r@ =~= heartbeat_bytes());
    r
}

pub fn keep_alive_msg() -> (r: Vec<u8>)
    ensures
        r@ == keep_alive_bytes(),
{
    let r = vec![77u8, 65, 78, 71, 79, 72, 73];
    assert(r@ =~= keep_alive_bytes());
    r
}

/// Exact byte equality of two datagrams.
pub fn bytes_equal(a: &[u8], b: &[u8]) -> (r: bool)
    ensures
        r == (a@ == b@),
{
    if a.len() != b.len() {
        return false;
    }
    let mut i: usize = 0;
    while i < a.len()
        invariant
            a@.len() == b@.len(),
            i <= a@.len(),
            a@.subrange(0, i as int) == b@.subrange(0, i as int),
        decreases a@.len() - i,
    {
        if a[i] != b[i] {
            assert(a@[i as int] != b@[i as int]);
            return false;
        }
        assert(a@.subrange(0, i + 1) =~= a@.subrange(0, i as int).push(a@[i as int]));
        assert(b@.subrange(0, i + 1) =~= b@.subrange(0, i as int).push(b@[i as int]));
        i = i + 1;
    }
    assert(a@ =~= a@.subrange(0, i as int));
    assert(b@ =~= b@.subrange(0, i as int));
    true
}

/// Whether a discovery reply is the phone's `HI`.
pub fn is_hi(payload: &[u8]) -> (r: bool)
    ensures
        r == (payload@ == hi_bytes()),
{
    let hi = hi_msg();
    bytes_equal(payload, hi.as_slice())
}

/// Sorts a streaming-port datagram into bye, heartbeat or audio.
pub fn classify_stream(payload: &[u8]) -> (r: StreamMessage)
    ensures
        r == stream_kind(payload@),
{
    let bye = bye_msg();
    if bytes_equal(payload, bye.as_slice()) {
        return StreamMessage::Bye;
    }
    let hb = heartbeat_msg();
    if bytes_equal(payload, hb.as_slice()) {
        StreamMessage::Heartbeat
    } else {
        StreamMessage::Audio
    }
}

} // verus!
