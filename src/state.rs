//! The shared session record, its bounded histories and the user commands.
use vstd::prelude::*;
use vstd::string::StringExecFns;
use crate::history::{bounded_push, zero_history, HISTORY_CAPACITY};

verus! {

/// The shape of a time of day written `hh:mm:ss`: eight characters, with
/// the two separators in place.
pub open spec fn is_clock_stamp(s: Seq<char>) -> bool {
    &&& s.len() == 8
    &&& s[2] == ':'
    &&& s[5] == ':'
}

/// Relies on chrono's `Local::now` and `format("%H:%M:%S")`: the local wall
/// clock as hours, minutes and seconds, each zero-padded to two digits.
/// Which time it shows depends on the clock, so only its shape is stated.
#[verifier::external_body]
fn clock_stamp() -> (r: String)
    ensures
        is_clock_stamp(r@),
{
    chrono::Local::now().format("%H:%M:%S").to_string()
}

/// A log line: `[stamp] msg`.
pub open spec fn log_line(stamp: Seq<char>, msg: Seq<char>) -> Seq<char> {
    seq!['['] + stamp + seq![']', ' '] + msg
}

/// Builds `[stamp] msg`.
pub fn format_log_line(stamp: &str, msg: &str) -> (r: String)
    ensures
        r@ == log_line(stamp@, msg@),
{
    let mut r = String::new();
    r.append("[");
    r.append(stamp);
    r.append("] ");
    r.append(msg);
    proof {
        reveal_strlit("[");
        reveal_strlit("] ");
        assert(r@ =~= log_line(stamp@, msg@));
    }
    r
}

/// Latency, in milliseconds, above which the link is shown as poor.
pub const LATENCY_ALARM_MS: u32 = 80;

/// How the session presents itself to the user.
#[derive(Clone, Copy, Debug, PartialEq, Eq, Structural)]
pub enum LinkStatus {
    /// Paired and relaying audio.
    Live,
    /// Paired, not streaming.
    Paired,
    /// Looking for a phone.
    Searching,
    /// Doing nothing.
    Idle,
}

/// The session record shared by discovery, the relay and the user.
/// Times are milliseconds on a monotonic clock.
pub struct AppState {
    pub pairing_active: bool,
    pub paired: bool,
    pub streaming: bool,
    pub phone_ip: Option<String>,
    pub logs: Vec<String>,
    pub last_latency: Option<u32>,
    pub last_heartbeat: u64,
    pub packet_count: u64,
    pub latency_history: Vec<u64>,
}

impl AppState {
    /// Streaming only while paired, a phone address only while paired, and
    /// both histories within capacity.
    pub open spec fn wf(&self) -> bool {
        &&& self.streaming ==> self.paired
        &&& self.phone_ip.is_some() ==> self.paired
        &&& self.logs@.len() <= HISTORY_CAPACITY
        &&& self.latency_history@.len() <= HISTORY_CAPACITY
    }

    /// The log lines as character sequences.
    pub open spec fn log_view(&self) -> Seq<Seq<char>> {
        self.logs@.map_values(|s: String| s@)
    }

    /// Every field but the logs is the same as in `o`.
    pub open spec fn same_but_logs(&self, o: &AppState) -> bool {
        &&& self.pairing_active == o.pairing_active
        &&& self.paired == o.paired
        &&& self.streaming == o.streaming
        &&& self.phone_ip == o.phone_ip
        &&& self.last_latency == o.last_latency
        &&& self.last_heartbeat == o.last_heartbeat
        &&& self.packet_count == o.packet_count
        &&& self.latency_history@ == o.latency_history@
    }

    /// Live when paired and streaming, else paired, else searching while the
    /// search is active, else idle.
    pub open spec fn status_of(&self) -> LinkStatus {
        if self.paired && self.streaming {
            LinkStatus::Live
        } else if self.paired {
            LinkStatus::Paired
        } else if self.pairing_active {
            LinkStatus::Searching
        } else {
            LinkStatus::Idle
        }
    }

    /// A fresh session: searching for a phone, nothing else set, the latency
    /// history filled with zeros.
    pub fn new() -> (r: AppState)
        ensures
            r.wf(),
            r.pairing_active,
            !r.paired,
            !r.streaming,
            r.phone_ip.is_none(),
            r.logs@.len() == 0,
            r.last_latency.is_none(),
            r.last_heartbeat == 0,
            r.packet_count == 0,
            r.latency_history@ == zero_history(),
    {
        let mut hist: Vec<u64> = Vec::new();
        while hist.len() < HISTORY_CAPACITY
            invariant
                hist@.len() <= HISTORY_CAPACITY,
                forall|i: int| 0 <= i < hist@.len() ==> hist@[i] == 0u64,
            decreases HISTORY_CAPACITY - hist@.len(),
        {
            hist.push(0u64);
        }
        assert(hist@ =~= zero_history());
        AppState {
            pairing_active: true,
            paired: false,
            streaming: false,
            phone_ip: None,
            logs: Vec::new(),
            last_latency: None,
            last_heartbeat: 0,
            packet_count: 0,
            latency_history: hist,
        }
    }

    /// Appends an already built line to the log, evicting the oldest beyond
    /// capacity.
    fn push_log_line(&mut self, line: String)
        requires
            old(self).wf(),
        ensures
            final(self).wf(),
            final(self).same_but_logs(old(self)),
            final(self).log_view() == bounded_push(old(self).log_view(), line@),
    {
        let ghost before = self.logs@;
        self.logs.push(line);
        proof {
            assert(self.logs@.map_values(|s: String| s@) =~= before.map_values(|s: String| s@).push(line@));
        }
        if self.logs.len() > HISTORY_CAPACITY {
            let ghost full = self.logs@;
            self.logs.remove(0);
            proof {
                assert(self.logs@.map_values(|s: String| s@) =~= full.map_values(|s: String| s@).subrange(1, full.len() as int));
            }
        }
    }

    /// Appends `[stamp] msg` to the log, evicting the oldest beyond capacity.
    pub fn add_log_at(&mut self, stamp: &str, msg: &str)
        requires
            old(self).wf(),
        ensures
            final(self).wf(),
            final(self).same_but_logs(old(self)),
            final(self).log_view() == bounded_push(old(self).log_view(), log_line(stamp@, msg@)),
    {
        let line = format_log_line(stamp, msg);
        self.push_log_line(line);
    }

    /// Appends `msg`, stamped with the local time of day, to the log,
    /// evicting the oldest beyond capacity.
    pub fn add_log(&mut self, msg: &str)
        requires
            old(self).wf(),
        ensures
            final(self).wf(),
            final(self).same_but_logs(old(self)),
            exists|stamp: Seq<char>|
                is_clock_stamp(stamp) && final(self).log_view() == bounded_push(old(self).log_view(), #[trigger] log_line(stamp, msg@)),
    {
        let stamp = clock_stamp();
        self.add_log_at(stamp.as_str(), msg);
    }

    /// Appends a latency sample, evicting the oldest beyond capacity.
    pub fn push_latency(&mut self, lat: u64)
        requires
            old(self).wf(),
        ensures
            final(self).wf(),
            final(self).latency_history@ == bounded_push(old(self).latency_history@, lat),
            final(self).pairing_active == old(self).pairing_active,
            final(self).paired == old(self).paired,
            final(self).streaming == old(self).streaming,
            final(self).phone_ip == old(self).phone_ip,
            final(self).logs@ == old(self).logs@,
            final(self).last_latency == old(self).last_latency,
            final(self).last_heartbeat == old(self).last_heartbeat,
            final(self).packet_count == old(self).packet_count,
    {
        self.latency_history.push(lat);
        if self.latency_history.len() > HISTORY_CAPACITY {
            self.latency_history.remove(0);
        }
    }

    /// Every counter and sample is the same as in `o`.
    pub open spec fn same_metrics(&self, o: &AppState) -> bool {
        &&& self.last_latency == o.last_latency
        &&& self.last_heartbeat == o.last_heartbeat
        &&& self.packet_count == o.packet_count
        &&& self.latency_history@ == o.latency_history@
    }

    /// Ends the session: not paired, not streaming, no phone address, and
    /// `msg` logged.
    pub(crate) fn end_session(&mut self, msg: &str)
        requires
            old(self).wf(),
        ensures
            final(self).wf(),
            !final(self).paired,
            !final(self).streaming,
            final(self).phone_ip.is_none(),
            final(self).pairing_active == old(self).pairing_active,
            final(self).same_metrics(old(self)),
            exists|stamp: Seq<char>|
                is_clock_stamp(stamp) && final(self).log_view() == bounded_push(old(self).log_view(), #[trigger] log_line(stamp, msg@)),
    {
        self.paired = false;
        self.streaming = false;
        self.phone_ip = None;
        self.add_log(msg);
    }

    /// The user starts or stops the search for a phone. Only while not
    /// paired; returns whether discovery is to be started.
    pub fn toggle_pairing(&mut self) -> (start: bool)
        requires
            old(self).wf(),
        ensures
            final(self).wf(),
            old(self).paired ==> !start && final(self).pairing_active == old(self).pairing_active
                && final(self).logs@ == old(self).logs@,
            !old(self).paired ==> final(self).pairing_active == !old(self).pairing_active
                && start == final(self).pairing_active,
            start ==> exists|stamp: Seq<char>|
                is_clock_stamp(stamp) && final(self).log_view() == bounded_push(old(self).log_view(), #[trigger] log_line(stamp, "searching for phone"@)),
            !start ==> final(self).logs@ == old(self).logs@,
            final(self).paired == old(self).paired,
            final(self).streaming == old(self).streaming,
            final(self).phone_ip == old(self).phone_ip,
            final(self).same_metrics(old(self)),
    {
        if self.paired {
            return false;
        }
        self.pairing_active = !self.pairing_active;
        if self.pairing_active {
            self.add_log("searching for phone");
            true
        } else {
            false
        }
    }

    /// The user starts or stops the relay. Only while paired; returns
    /// whether the relay is to be started.
    pub fn toggle_streaming(&mut self) -> (start: bool)
        requires
            old(self).wf(),
        ensures
            final(self).wf(),
            !old(self).paired ==> !start && final(self).streaming == old(self).streaming,
            old(self).paired ==> final(self).streaming == !old(self).streaming
                && start == final(self).streaming,
            start ==> exists|stamp: Seq<char>|
                is_clock_stamp(stamp) && final(self).log_view() == bounded_push(old(self).log_view(), #[trigger] log_line(stamp, "listening for audio"@)),
            !start ==> final(self).logs@ == old(self).logs@,
            final(self).pairing_active == old(self).pairing_active,
            final(self).paired == old(self).paired,
            final(self).phone_ip == old(self).phone_ip,
            final(self).same_metrics(old(self)),
    {
        if !self.paired {
            return false;
        }
        self.streaming = !self.streaming;
        if self.streaming {
            self.add_log("listening for audio");
            true
        } else {
            false
        }
    }

    /// The user ends everything: pairing, streaming and the search stop, and
    /// the phone address is handed back so that it can be told good-bye.
    pub fn disconnect(&mut self) -> (notify: Option<String>)
        requires
            old(self).wf(),
        ensures
            final(self).wf(),
            notify == old(self).phone_ip,
            !final(self).pairing_active,
            !final(self).paired,
            !final(self).streaming,
            final(self).phone_ip.is_none(),
            final(self).same_metrics(old(self)),
            exists|stamp: Seq<char>|
                is_clock_stamp(stamp) && final(self).log_view() == bounded_push(old(self).log_view(), #[trigger] log_line(stamp, "disconnected"@)),
    {
        let notify = self.phone_ip.take();
        self.pairing_active = false;
        self.end_session("disconnected");
        notify
    }

    /// Whether the last latency sample is above the alarm threshold.
    pub fn latency_alarm(&self) -> (r: bool)
        ensures
            r == (self.last_latency.is_some() && self.last_latency.unwrap() > LATENCY_ALARM_MS),
    {
        match self.last_latency {
            Some(l) => l > LATENCY_ALARM_MS,
            None => false,
        }
    }

    /// The status shown to the user.
    pub fn status(&self) -> (r: LinkStatus)
        ensures
            r == self.status_of(),
    {
        if self.paired && self.streaming {
            LinkStatus::Live
        } else if self.paired {
            LinkStatus::Paired
        } else if self.pairing_active {
            LinkStatus::Searching
        } else {
            LinkStatus::Idle
        }
    }
}

} // verus!
