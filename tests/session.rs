use mangeomic::discovery::{discovery_step, DiscoveryAction, DiscoveryEvent};
use mangeomic::history::HISTORY_CAPACITY;
use mangeomic::protocol::{
    bye_msg, bytes_equal, classify_stream, discover_msg, heartbeat_msg, hi_msg, is_hi,
    keep_alive_msg, ok_msg, StreamMessage,
};
use mangeomic::relay::{
    elapsed_ms, keep_alive_due, relay_on_datagram, relay_on_timeout, relay_should_run,
    relay_start, RelayAction, RelayTimers,
};
use mangeomic::state::{format_log_line, AppState, LinkStatus};

fn paired_state(ip: &str) -> AppState {
    let mut st = AppState::new();
    let a = discovery_step(
        &mut st,
        DiscoveryEvent::Reply { payload: b"MANGEO_HI".to_vec(), sender: ip.to_string() },
    );
    assert!(matches!(a, DiscoveryAction::SendOk { .. }));
    st
}

fn streaming_state() -> AppState {
    let mut st = paired_state("10.0.0.2");
    assert!(st.toggle_streaming());
    st
}

#[test]
fn sentinels_have_their_bytes() {
    assert_eq!(discover_msg(), b"MANGEO_DISCOVER".to_vec());
    assert_eq!(hi_msg(), b"MANGEO_HI".to_vec());
    assert_eq!(ok_msg(), b"MANGEO_OK".to_vec());
    assert_eq!(bye_msg(), b"MANGEO_BYE".to_vec());
    assert_eq!(heartbeat_msg(), b"MANGOVAR".to_vec());
    assert_eq!(keep_alive_msg(), b"MANGOHI".to_vec());
}

#[test]
fn bytes_equal_is_exact() {
    assert!(bytes_equal(b"abc", b"abc"));
    assert!(!bytes_equal(b"abc", b"abd"));
    assert!(!bytes_equal(b"abc", b"abcd"));
    assert!(bytes_equal(b"", b""));
}

#[test]
fn stream_payloads_are_classified() {
    assert_eq!(classify_stream(b"MANGEO_BYE"), StreamMessage::Bye);
    assert_eq!(classify_stream(b"MANGOVAR"), StreamMessage::Heartbeat);
    assert_eq!(classify_stream(b"MANGOHI"), StreamMessage::Audio);
    assert_eq!(classify_stream(b"MANGEO_BYE "), StreamMessage::Audio);
    assert_eq!(classify_stream(&[1, 2, 3, 4]), StreamMessage::Audio);
    assert!(is_hi(b"MANGEO_HI"));
    assert!(!is_hi(b"MANGEO_HELLO"));
}

#[test]
fn new_session_defaults() {
    let st = AppState::new();
    assert!(st.pairing_active);
    assert!(!st.paired);
    assert!(!st.streaming);
    assert!(st.phone_ip.is_none());
    assert!(st.logs.is_empty());
    assert!(st.last_latency.is_none());
    assert_eq!(st.packet_count, 0);
    assert_eq!(st.latency_history, vec![0u64; 50]);
    assert_eq!(st.status(), LinkStatus::Searching);
}

#[test]
fn log_line_format() {
    assert_eq!(format_log_line("12:34:56", "hello"), "[12:34:56] hello");
    let mut st = AppState::new();
    st.add_log_at("01:02:03", "x");
    assert_eq!(st.logs, vec!["[01:02:03] x".to_string()]);
}

#[test]
fn add_log_stamps_with_time_of_day() {
    let mut st = AppState::new();
    st.add_log("ready");
    let line = &st.logs[0];
    let b = line.as_bytes();
    assert_eq!(b.len(), "[hh:mm:ss] ready".len());
    assert_eq!(b[0], b'[');
    assert_eq!(b[3], b':');
    assert_eq!(b[6], b':');
    assert!(line.ends_with("] ready"));
}

#[test]
fn latency_history_evicts_oldest() {
    let mut st = AppState::new();
    for i in 1..=60u64 {
        st.push_latency(i);
        assert!(st.latency_history.len() <= HISTORY_CAPACITY);
    }
    let expected: Vec<u64> = (11..=60u64).collect();
    assert_eq!(st.latency_history, expected);
}

#[test]
fn log_history_evicts_oldest() {
    let mut st = AppState::new();
    for i in 0..60 {
        st.add_log_at("00:00:00", &format!("m{}", i));
        assert!(st.logs.len() <= 50);
    }
    assert_eq!(st.logs.len(), 50);
    assert_eq!(st.logs[0], "[00:00:00] m10");
    assert_eq!(st.logs[49], "[00:00:00] m59");
}

#[test]
fn discovery_hi_pairs_with_sender() {
    let mut st = AppState::new();
    assert!(matches!(discovery_step(&mut st, DiscoveryEvent::RoundStart), DiscoveryAction::Broadcast));
    let a = discovery_step(
        &mut st,
        DiscoveryEvent::Reply { payload: b"MANGEO_HI".to_vec(), sender: "192.168.1.50".to_string() },
    );
    match a {
        DiscoveryAction::SendOk { to } => assert_eq!(to, "192.168.1.50"),
        other => panic!("unexpected action {:?}", other),
    }
    assert!(st.paired);
    assert_eq!(st.phone_ip.as_deref(), Some("192.168.1.50"));
    assert_eq!(st.logs.len(), 1);
    assert!(st.logs[0].ends_with("] paired with 192.168.1.50"));
    assert_eq!(st.status(), LinkStatus::Paired);
}

#[test]
fn discovery_ignores_other_payloads() {
    let mut st = AppState::new();
    let a = discovery_step(
        &mut st,
        DiscoveryEvent::Reply { payload: b"MANGEO_OK".to_vec(), sender: "192.168.1.9".to_string() },
    );
    assert!(matches!(a, DiscoveryAction::Sleep));
    assert!(matches!(discovery_step(&mut st, DiscoveryEvent::TimedOut), DiscoveryAction::Sleep));
    assert!(matches!(discovery_step(&mut st, DiscoveryEvent::RoundStart), DiscoveryAction::Broadcast));
    assert!(!st.paired);
    assert!(st.phone_ip.is_none());
    assert!(st.logs.is_empty());
}

#[test]
fn discovery_stops_when_cancelled() {
    let mut st = AppState::new();
    assert!(!st.toggle_pairing());
    assert!(!st.pairing_active);
    assert!(matches!(discovery_step(&mut st, DiscoveryEvent::RoundStart), DiscoveryAction::Stop));
    assert_eq!(st.status(), LinkStatus::Idle);
}

#[test]
fn discovery_bind_failure_is_logged() {
    let mut st = AppState::new();
    assert!(matches!(discovery_step(&mut st, DiscoveryEvent::BindFailed), DiscoveryAction::Stop));
    assert!(!st.paired);
    assert_eq!(st.logs.len(), 1);
    assert!(st.logs[0].ends_with("discovery socket could not be bound"));
}

#[test]
fn relay_latency_from_audio_gaps() {
    let mut st = streaming_state();
    let mut t = relay_start(&mut st, 0);
    assert_eq!(t, RelayTimers { last_keep_alive: 0, last_audio: 0 });
    assert_eq!(relay_on_datagram(&mut st, &mut t, &[1, 2, 3], 0), RelayAction::Forward);
    assert_eq!(relay_on_datagram(&mut st, &mut t, &[4, 5, 6], 30), RelayAction::Forward);
    assert_eq!(st.last_latency, Some(30));
    assert_eq!(*st.latency_history.last().unwrap(), 30);
    assert_eq!(st.latency_history[48], 0);
    assert_eq!(st.packet_count, 2);
    assert_eq!(relay_on_datagram(&mut st, &mut t, b"MANGOVAR", 40), RelayAction::Continue);
    assert_eq!(st.packet_count, 2);
    assert_eq!(st.last_heartbeat, 40);
    assert_eq!(st.last_latency, Some(30));
    assert_eq!(relay_on_datagram(&mut st, &mut t, &[7], 100), RelayAction::Forward);
    assert_eq!(st.last_latency, Some(70));
    assert_eq!(st.packet_count, 3);
}

#[test]
fn relay_bye_ends_session() {
    let mut st = streaming_state();
    let mut t = relay_start(&mut st, 0);
    assert!(relay_should_run(&st));
    assert_eq!(relay_on_datagram(&mut st, &mut t, b"MANGEO_BYE", 10), RelayAction::Stop);
    assert!(!st.paired);
    assert!(!st.streaming);
    assert!(st.phone_ip.is_none());
    assert!(st.logs.last().unwrap().ends_with("peer disconnected"));
    assert!(!relay_should_run(&st));
    assert_eq!(st.packet_count, 0);
}

#[test]
fn relay_times_out_after_silence() {
    let mut st = streaming_state();
    let _t = relay_start(&mut st, 0);
    assert_eq!(relay_on_timeout(&mut st, 4999), RelayAction::Continue);
    assert!(st.streaming);
    assert_eq!(relay_on_timeout(&mut st, 5100), RelayAction::Stop);
    assert!(!st.paired);
    assert!(!st.streaming);
    assert!(st.logs.last().unwrap().contains("communication lost"));
}

#[test]
fn relay_timeout_at_exact_limit() {
    let mut st = streaming_state();
    let _t = relay_start(&mut st, 1000);
    assert_eq!(relay_on_timeout(&mut st, 6000), RelayAction::Stop);
    assert!(!st.streaming);
}

#[test]
fn relay_traffic_resets_heartbeat_clock() {
    let mut st = streaming_state();
    let mut t = relay_start(&mut st, 0);
    assert_eq!(relay_on_datagram(&mut st, &mut t, b"MANGOVAR", 4000), RelayAction::Continue);
    assert_eq!(relay_on_timeout(&mut st, 8000), RelayAction::Continue);
    assert_eq!(relay_on_timeout(&mut st, 9000), RelayAction::Stop);
}

#[test]
fn relay_counts_empty_datagram_as_receipt() {
    let mut st = streaming_state();
    let mut t = relay_start(&mut st, 0);
    assert_eq!(relay_on_datagram(&mut st, &mut t, &[], 4000), RelayAction::Forward);
    assert_eq!(st.last_heartbeat, 4000);
    assert_eq!(st.packet_count, 1);
    assert_eq!(st.last_latency, Some(4000));
    assert_eq!(relay_on_timeout(&mut st, 5000), RelayAction::Continue);
    assert!(st.streaming);
    assert!(st.paired);
}

#[test]
fn fresh_latency_history_keeps_fifty() {
    let mut st = AppState::new();
    st.push_latency(7);
    st.push_latency(8);
    st.push_latency(9);
    let mut expected = vec![0u64; 47];
    expected.extend([7u64, 8, 9]);
    assert_eq!(st.latency_history, expected);
}

#[test]
fn keep_alive_cadence_ignores_inbound() {
    let mut st = streaming_state();
    let mut t = relay_start(&mut st, 0);
    assert!(!keep_alive_due(&mut t, 499));
    for ms in [100u64, 200, 300, 400] {
        relay_on_datagram(&mut st, &mut t, &[9, 9], ms);
    }
    assert!(keep_alive_due(&mut t, 500));
    assert_eq!(t.last_keep_alive, 500);
    assert!(!keep_alive_due(&mut t, 900));
    assert!(keep_alive_due(&mut t, 1000));
}

#[test]
fn latency_saturates_and_clock_skew_is_zero() {
    let mut st = streaming_state();
    let mut t = relay_start(&mut st, 0);
    relay_on_datagram(&mut st, &mut t, &[1], 5_000_000_000);
    assert_eq!(st.last_latency, Some(u32::MAX));
    assert_eq!(*st.latency_history.last().unwrap(), 5_000_000_000);
    assert_eq!(elapsed_ms(10, 20), 0);
    assert_eq!(elapsed_ms(20, 10), 10);
}

#[test]
fn commands_follow_pairing() {
    let mut st = AppState::new();
    assert!(!st.toggle_streaming());
    assert!(!st.streaming);
    assert!(!st.toggle_pairing());
    assert!(st.toggle_pairing());
    assert!(st.pairing_active);
    assert!(st.logs.last().unwrap().ends_with("searching for phone"));

    let mut st = paired_state("10.1.1.1");
    assert!(!st.toggle_pairing());
    assert!(st.toggle_streaming());
    assert_eq!(st.status(), LinkStatus::Live);
    assert!(st.logs.last().unwrap().ends_with("listening for audio"));
    assert!(!st.toggle_streaming());
    assert_eq!(st.status(), LinkStatus::Paired);
}

#[test]
fn disconnect_hands_back_address() {
    let mut st = streaming_state();
    assert_eq!(st.disconnect(), Some("10.0.0.2".to_string()));
    assert!(!st.paired && !st.streaming && !st.pairing_active);
    assert!(st.phone_ip.is_none());
    assert!(st.logs.last().unwrap().ends_with("disconnected"));
    assert_eq!(st.disconnect(), None);
}

#[test]
fn latency_alarm_threshold() {
    let mut st = AppState::new();
    assert!(!st.latency_alarm());
    st.last_latency = Some(80);
    assert!(!st.latency_alarm());
    st.last_latency = Some(81);
    assert!(st.latency_alarm());
}
