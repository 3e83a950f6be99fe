use serial_mqtt_bridge::count::parse_count_bytes;
use serial_mqtt_bridge::session::{
    offline_bytes, online_bytes, Action, ConnectionState, Controller, Event, Phase, Settings,
    Topics, QOS_AT_LEAST_ONCE, QOS_EXACTLY_ONCE,
};

fn settings(max_attempts: u32) -> Settings {
    Settings {
        topics: Topics {
            transmit: "tx".to_string(),
            receive: "rx".to_string(),
            receive_control: "rxctl".to_string(),
            availability: "avail".to_string(),
        },
        max_read: 4096,
        max_attempts,
        retry_interval_ms: 1000,
    }
}

fn message(topic: &str, payload: &[u8]) -> Event {
    Event::Message { topic: topic.to_string(), payload: payload.to_vec() }
}

/// A controller that has connected, subscribed and announced itself.
fn listening(max_attempts: u32) -> Controller {
    let mut c = Controller::new(settings(max_attempts));
    c.step(Event::Start);
    c.step(Event::Connected);
    c.step(Event::Subscribed);
    assert!(matches!(c.step(Event::Published), Action::Receive));
    assert!(c.phase() == Phase::Listening);
    c
}

fn is_receive(a: &Action) -> bool {
    matches!(a, Action::Receive)
}

#[test]
fn start_connects_with_last_will() {
    let mut c = Controller::new(settings(12));
    assert!(c.connection_state() == ConnectionState::Disconnected);
    match c.step(Event::Start) {
        Action::Connect { will_topic, will_payload, will_qos, clean_session } => {
            assert_eq!(will_topic, "avail");
            assert_eq!(will_payload, b"offline".to_vec());
            assert_eq!(will_qos, QOS_AT_LEAST_ONCE);
            assert!(clean_session);
        }
        _ => panic!("expected a connect"),
    }
    assert!(c.phase() == Phase::Connecting);
}

#[test]
fn connect_then_subscribe_then_online() {
    let mut c = Controller::new(settings(12));
    c.step(Event::Start);
    match c.step(Event::Connected) {
        Action::Subscribe { transmit, receive_control, qos } => {
            assert_eq!(transmit, "tx");
            assert_eq!(receive_control, "rxctl");
            assert_eq!(qos, QOS_EXACTLY_ONCE);
        }
        _ => panic!("expected a subscribe"),
    }
    assert!(c.connection_state() == ConnectionState::Connected);
    match c.step(Event::Subscribed) {
        Action::Announce { topic, payload, qos } => {
            assert_eq!(topic, "avail");
            assert_eq!(payload, b"online".to_vec());
            assert_eq!(qos, QOS_AT_LEAST_ONCE);
        }
        _ => panic!("expected the online beacon"),
    }
    assert!(is_receive(&c.step(Event::Published)));
}

#[test]
fn initial_connect_failure_is_fatal() {
    let mut c = Controller::new(settings(12));
    c.step(Event::Start);
    assert!(matches!(c.step(Event::ConnectFailed), Action::Exit { success: false }));
    assert!(c.is_stopped());
    assert!(matches!(c.step(Event::Start), Action::Exit { success: false }));
}

#[test]
fn online_never_before_connect() {
    let mut c = Controller::new(settings(12));
    // An event out of order before the connect stops the run without a beacon.
    assert!(matches!(c.step(Event::Subscribed), Action::Exit { success: false }));
    assert!(matches!(c.step(Event::Connected), Action::Exit { success: false }));
}

#[test]
fn transmit_payload_written_verbatim() {
    let mut c = listening(12);
    let payload: Vec<u8> = vec![0, 255, 10, 13, 0x41];
    match c.step(message("tx", &payload)) {
        Action::Write { data } => assert_eq!(data, payload),
        _ => panic!("expected a write"),
    }
    assert!(is_receive(&c.step(Event::Written)));
    assert!(c.phase() == Phase::Listening);
}

#[test]
fn empty_transmit_payload_still_written() {
    let mut c = listening(12);
    match c.step(message("tx", b"")) {
        Action::Write { data } => assert!(data.is_empty()),
        _ => panic!("expected a write"),
    }
}

#[test]
fn read_request_publishes_bytes_obtained() {
    let mut c = listening(12);
    assert!(matches!(c.step(message("rxctl", b"5")), Action::Read { max: 5 }));
    let buffer = vec![9u8, 8, 7, 0, 0];
    match c.step(Event::ReadDone { buffer, count: 3 }) {
        Action::Forward { topic, payload, qos } => {
            assert_eq!(topic, "rx");
            assert_eq!(payload, vec![9u8, 8, 7]);
            assert_eq!(qos, QOS_AT_LEAST_ONCE);
        }
        _ => panic!("expected a forward"),
    }
    assert!(is_receive(&c.step(Event::Published)));
}

#[test]
fn zero_byte_request_publishes_empty_payload() {
    let mut c = listening(12);
    assert!(matches!(c.step(message("rxctl", b"0")), Action::Read { max: 0 }));
    match c.step(Event::ReadDone { buffer: Vec::new(), count: 0 }) {
        Action::Forward { topic, payload, .. } => {
            assert_eq!(topic, "rx");
            assert!(payload.is_empty());
        }
        _ => panic!("expected a forward"),
    }
}

#[test]
fn read_failure_publishes_nothing() {
    let mut c = listening(12);
    c.step(message("rxctl", b"4"));
    assert!(is_receive(&c.step(Event::ReadFailed)));
    assert!(c.phase() == Phase::Listening);
}

#[test]
fn read_count_beyond_request_is_dropped() {
    let mut c = listening(12);
    c.step(message("rxctl", b"2"));
    assert!(is_receive(&c.step(Event::ReadDone { buffer: vec![1, 2, 3], count: 3 })));
    c.step(message("rxctl", b"4"));
    assert!(is_receive(&c.step(Event::ReadDone { buffer: vec![1, 2], count: 3 })));
}

#[test]
fn unparsable_request_is_dropped() {
    let mut c = listening(12);
    for bad in [&b"abc"[..], b"", b"-1", b" 3", b"3 ", b"+", b"1.5"] {
        assert!(is_receive(&c.step(message("rxctl", bad))));
        assert!(c.phase() == Phase::Listening);
    }
    // The loop goes on with later messages.
    assert!(matches!(c.step(message("rxctl", b"1")), Action::Read { max: 1 }));
}

#[test]
fn request_above_ceiling_is_dropped() {
    let mut c = listening(12);
    assert!(is_receive(&c.step(message("rxctl", b"4097"))));
    assert!(matches!(c.step(message("rxctl", b"4096")), Action::Read { max: 4096 }));
}

#[test]
fn other_topic_is_ignored() {
    let mut c = listening(12);
    assert!(is_receive(&c.step(message("elsewhere", b"1"))));
    assert!(is_receive(&c.step(message("rx", b"1"))));
    assert!(c.phase() == Phase::Listening);
}

#[test]
fn reconnect_after_loss_resubscribes() {
    let mut c = listening(12);
    assert!(matches!(c.step(Event::NoMessage), Action::Reconnect { delay_ms: 1000 }));
    assert!(c.connection_state() == ConnectionState::Reconnecting);
    assert!(matches!(c.step(Event::ReconnectFailed), Action::Reconnect { delay_ms: 1000 }));
    assert_eq!(c.attempts(), 1);
    assert!(matches!(c.step(Event::Reconnected), Action::Subscribe { .. }));
    assert_eq!(c.attempts(), 0);
    assert!(matches!(c.step(Event::Subscribed), Action::Announce { .. }));
    assert!(is_receive(&c.step(Event::Published)));
}

#[test]
fn reconnect_attempts_are_bounded() {
    let mut c = listening(3);
    let mut attempts = 0;
    let mut action = c.step(Event::NoMessage);
    while let Action::Reconnect { delay_ms } = action {
        assert_eq!(delay_ms, 1000);
        attempts += 1;
        action = c.step(Event::ReconnectFailed);
    }
    assert_eq!(attempts, 3);
    assert!(matches!(action, Action::Exit { success: false }));
    assert!(c.connection_state() == ConnectionState::Disconnected);
}

#[test]
fn no_attempts_allowed_stops_at_loss() {
    let mut c = listening(0);
    assert!(matches!(c.step(Event::NoMessage), Action::Exit { success: false }));
}

#[test]
fn shutdown_while_connected_goes_offline_once() {
    let mut c = listening(12);
    match c.step(Event::StreamClosed { connected: true }) {
        Action::Announce { topic, payload, .. } => {
            assert_eq!(topic, "avail");
            assert_eq!(payload, b"offline".to_vec());
        }
        _ => panic!("expected the offline beacon"),
    }
    assert!(matches!(c.step(Event::Published), Action::Disconnect));
    assert!(matches!(c.step(Event::Disconnected), Action::Exit { success: true }));
    // Later shutdown requests change nothing.
    assert!(matches!(c.step(Event::Shutdown), Action::Exit { success: true }));
    assert!(matches!(c.step(Event::StreamClosed { connected: true }), Action::Exit { success: true }));
}

#[test]
fn shutdown_while_disconnected_skips_beacon() {
    let mut c = listening(12);
    assert!(matches!(c.step(Event::StreamClosed { connected: false }), Action::Exit { success: true }));
}

#[test]
fn shutdown_during_reconnect_stops_cleanly() {
    let mut c = listening(12);
    c.step(Event::NoMessage);
    assert!(matches!(c.step(Event::Shutdown), Action::Exit { success: true }));
}

#[test]
fn second_shutdown_while_going_offline_does_not_repeat_beacon() {
    let mut c = listening(12);
    assert!(matches!(c.step(Event::Shutdown), Action::Announce { .. }));
    assert!(matches!(c.step(Event::Shutdown), Action::Exit { success: false }));
    assert!(matches!(c.step(Event::Published), Action::Exit { success: false }));
}

#[test]
fn loopback_end_to_end() {
    let mut c = listening(12);
    // The device echoes what was written.
    let mut device: Vec<u8> = Vec::new();
    match c.step(message("tx", b"\x01\x02")) {
        Action::Write { data } => {
            assert_eq!(data, vec![1u8, 2]);
            device.extend_from_slice(&data);
        }
        _ => panic!("expected a write"),
    }
    c.step(Event::Written);
    let n = match c.step(message("rxctl", b"2")) {
        Action::Read { max } => max,
        _ => panic!("expected a read"),
    };
    assert_eq!(n, 2);
    let mut buffer = vec![0u8; n];
    let k = device.len().min(n);
    buffer[..k].copy_from_slice(&device[..k]);
    match c.step(Event::ReadDone { buffer, count: k }) {
        Action::Forward { topic, payload, .. } => {
            assert_eq!(topic, "rx");
            assert_eq!(payload, vec![1u8, 2]);
        }
        _ => panic!("expected a forward"),
    }
    c.step(Event::Published);
    assert!(is_receive(&c.step(message("rxctl", b"abc"))));
}

#[test]
fn beacon_payloads() {
    assert_eq!(online_bytes(), b"online".to_vec());
    assert_eq!(offline_bytes(), b"offline".to_vec());
}

#[test]
fn count_parses_digits() {
    assert_eq!(parse_count_bytes(b"0"), Some(0));
    assert_eq!(parse_count_bytes(b"42"), Some(42));
    assert_eq!(parse_count_bytes(b"+7"), Some(7));
    assert_eq!(parse_count_bytes(b"007"), Some(7));
    let max = usize::MAX.to_string();
    assert_eq!(parse_count_bytes(max.as_bytes()), Some(usize::MAX));
}

#[test]
fn count_rejects_other_text() {
    assert_eq!(parse_count_bytes(b""), None);
    assert_eq!(parse_count_bytes(b"+"), None);
    assert_eq!(parse_count_bytes(b"-"), None);
    assert_eq!(parse_count_bytes(b"-0"), None);
    assert_eq!(parse_count_bytes(b"++1"), None);
    assert_eq!(parse_count_bytes(b"12a"), None);
    assert_eq!(parse_count_bytes(&[0xff, 0x31]), None);
    let over = format!("{}0", usize::MAX);
    assert_eq!(parse_count_bytes(over.as_bytes()), None);
    assert_eq!(parse_count_bytes(b"18446744073709551616"), "18446744073709551616".parse::<usize>().ok());
}

#[test]
fn count_agrees_with_std() {
    for text in ["0", "1", "+12", "-3", "x", "", "99999", " 1", "0x10", "+-1"] {
        assert_eq!(parse_count_bytes(text.as_bytes()), text.parse::<usize>().ok(), "{}", text);
    }
}
