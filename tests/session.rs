use futures::channel::oneshot;
use ws_gate::websocket::{
    admit_upgrade, CloseReason, Frame, FrameError, Message, MonitorAction, MonitorEvent,
    MonitorStatus, StopReason, WebSocketArgs, WsSession, CLIENT_TIMEOUT_MS, HEARTBEAT_INTERVAL_MS,
};

fn session_at(now: u64) -> (WsSession, oneshot::Receiver<()>) {
    let (tx, rx) = oneshot::channel();
    (WsSession::establish("alice".to_string(), 1, now, tx), rx)
}

#[test]
fn cadence_constants() {
    assert_eq!(HEARTBEAT_INTERVAL_MS, 5000);
    assert_eq!(CLIENT_TIMEOUT_MS, 10000);
}

#[test]
fn establish_starts_fresh() {
    let (s, _rx) = session_at(1234);
    assert_eq!(s.user_id(), "alice");
    assert_eq!(s.server_id(), 1);
    assert_eq!(s.last_heartbeat(), 1234);
    assert_eq!(s.monitor_status(), MonitorStatus::Running);
    assert!(!s.shutdown_fired());
}

#[test]
fn ping_is_acknowledged_with_same_payload_and_refreshes() {
    let (mut s, _rx) = session_at(0);
    let r = s.handle_frame(Frame::Ping(b"are you there".to_vec()), 4000);
    match r {
        Ok(Some(Message::Pong(p))) => assert_eq!(p, b"are you there".to_vec()),
        other => panic!("unexpected {other:?}"),
    }
    assert_eq!(s.last_heartbeat(), 4000);
}

#[test]
fn pong_emits_nothing_but_refreshes() {
    let (mut s, _rx) = session_at(100);
    let r = s.handle_frame(Frame::Pong(b"x".to_vec()), 7100);
    assert!(matches!(r, Ok(None)));
    assert_eq!(s.last_heartbeat(), 7100);
}

#[test]
fn heartbeat_never_moves_backwards() {
    let (mut s, _rx) = session_at(5000);
    let r = s.handle_frame(Frame::Pong(Vec::new()), 3000);
    assert!(matches!(r, Ok(None)));
    assert_eq!(s.last_heartbeat(), 5000);
}

#[test]
fn text_is_echoed() {
    let (mut s, _rx) = session_at(0);
    match s.handle_frame(Frame::Text(b"ping-app".to_vec()), 10) {
        Ok(Some(Message::Text(t))) => assert_eq!(t, "ping-app"),
        other => panic!("unexpected {other:?}"),
    }
    assert_eq!(s.last_heartbeat(), 0);
}

#[test]
fn multibyte_text_is_decoded() {
    let (mut s, _rx) = session_at(0);
    let bytes = "h\u{e9}llo \u{1f600}".as_bytes().to_vec();
    assert_eq!(bytes.len(), 11);
    match s.handle_frame(Frame::Text(bytes), 10) {
        Ok(Some(Message::Text(t))) => {
            assert_eq!(t, "h\u{e9}llo \u{1f600}");
            assert_eq!(t.chars().count(), 7);
        }
        other => panic!("unexpected {other:?}"),
    }
}

#[test]
fn malformed_text_is_a_connection_error() {
    let (mut s, _rx) = session_at(0);
    let r = s.handle_frame(Frame::Text(vec![0x66, 0xff, 0x6f]), 10);
    assert!(matches!(r, Err(FrameError::InvalidText)));
    let r = s.handle_frame(Frame::Text(vec![0xed, 0xa0, 0x80]), 10);
    assert!(matches!(r, Err(FrameError::InvalidText)));
}

#[test]
fn binary_is_echoed() {
    let (mut s, _rx) = session_at(0);
    match s.handle_frame(Frame::Binary(vec![0, 159, 255]), 10) {
        Ok(Some(Message::Binary(b))) => assert_eq!(b, vec![0, 159, 255]),
        other => panic!("unexpected {other:?}"),
    }
}

#[test]
fn close_is_acknowledged_with_reason() {
    let (mut s, _rx) = session_at(0);
    let reason = CloseReason { code: 1000, description: Some("bye".to_string()) };
    match s.handle_frame(Frame::Close(Some(reason)), 10) {
        Ok(Some(Message::Close(Some(c)))) => {
            assert_eq!(c.code, 1000);
            assert_eq!(c.description.as_deref(), Some("bye"));
        }
        other => panic!("unexpected {other:?}"),
    }
    assert!(matches!(s.handle_frame(Frame::Close(None), 10), Ok(Some(Message::Close(None)))));
}

#[test]
fn continuation_is_dropped() {
    let (mut s, _rx) = session_at(0);
    assert!(matches!(s.handle_frame(Frame::Continuation(vec![1, 2]), 10), Ok(None)));
    assert_eq!(s.last_heartbeat(), 0);
}

#[test]
fn silence_past_timeout_terminates() {
    let (mut s, _rx) = session_at(0);
    assert_eq!(s.heartbeat(MonitorEvent::Tick { now: 5000 }), MonitorAction::Probe);
    assert_eq!(s.heartbeat(MonitorEvent::Tick { now: 10000 }), MonitorAction::Probe);
    assert_eq!(s.heartbeat(MonitorEvent::Tick { now: 10001 }), MonitorAction::Exit(StopReason::TimedOut));
    assert_eq!(s.monitor_status(), MonitorStatus::Stopped(StopReason::TimedOut));
    assert_eq!(s.heartbeat(MonitorEvent::Tick { now: 15000 }), MonitorAction::Idle);
}

#[test]
fn failed_probe_stops_monitor() {
    let (mut s, _rx) = session_at(0);
    assert_eq!(s.heartbeat(MonitorEvent::Tick { now: 5000 }), MonitorAction::Probe);
    assert_eq!(s.heartbeat(MonitorEvent::ProbeFailed), MonitorAction::Exit(StopReason::PeerGone));
    assert_eq!(s.monitor_status(), MonitorStatus::Stopped(StopReason::PeerGone));
}

#[test]
fn shutdown_stops_monitor_before_timeout() {
    let (mut s, mut rx) = session_at(0);
    assert_eq!(s.heartbeat(MonitorEvent::Tick { now: 5000 }), MonitorAction::Probe);
    assert!(s.shutdown());
    assert_eq!(rx.try_recv(), Ok(Some(())));
    assert_eq!(s.heartbeat(MonitorEvent::Tick { now: 6000 }), MonitorAction::Exit(StopReason::Shutdown));
    assert_eq!(s.heartbeat(MonitorEvent::Tick { now: 7000 }), MonitorAction::Idle);
    assert_eq!(s.heartbeat(MonitorEvent::Shutdown), MonitorAction::Idle);
}

#[test]
fn delivered_shutdown_event_stops_monitor() {
    let (mut s, _rx) = session_at(0);
    assert_eq!(s.heartbeat(MonitorEvent::Shutdown), MonitorAction::Exit(StopReason::Shutdown));
    assert_eq!(s.monitor_status(), MonitorStatus::Stopped(StopReason::Shutdown));
}

#[test]
fn second_shutdown_is_noop() {
    let (mut s, rx) = session_at(0);
    assert!(s.shutdown());
    assert_eq!(s.heartbeat(MonitorEvent::Shutdown), MonitorAction::Exit(StopReason::Shutdown));
    drop(rx);
    assert!(!s.shutdown());
    assert!(s.shutdown_fired());
    assert_eq!(s.heartbeat(MonitorEvent::Shutdown), MonitorAction::Idle);
    assert_eq!(s.monitor_status(), MonitorStatus::Stopped(StopReason::Shutdown));
}

#[test]
fn shutdown_with_receiver_gone_is_no_failure() {
    let (mut s, rx) = session_at(0);
    drop(rx);
    assert!(s.shutdown());
    assert!(!s.shutdown());
}

#[test]
fn upgrade_with_principal_starts_session() {
    let (tx, _rx) = oneshot::channel();
    let s = admit_upgrade(Some("alice".to_string()), &WebSocketArgs { server_id: 42 }, 900, tx)
        .expect("session");
    assert_eq!(s.user_id(), "alice");
    assert_eq!(s.server_id(), 42);
    assert_eq!(s.last_heartbeat(), 900);
    assert_eq!(s.monitor_status(), MonitorStatus::Running);
}

#[test]
fn upgrade_without_principal_is_rejected() {
    let (tx, _rx) = oneshot::channel();
    assert!(admit_upgrade(None, &WebSocketArgs { server_id: 42 }, 900, tx).is_none());
}

#[test]
fn end_to_end_alice() {
    let (tx, _rx) = oneshot::channel();
    let mut s = admit_upgrade(Some("alice".to_string()), &WebSocketArgs { server_id: 1 }, 0, tx)
        .expect("session");
    match s.handle_frame(Frame::Text(b"ping-app".to_vec()), 100) {
        Ok(Some(Message::Text(t))) => assert_eq!(t, "ping-app"),
        other => panic!("unexpected {other:?}"),
    }
    // first probe after one interval
    assert_eq!(s.heartbeat(MonitorEvent::Tick { now: 5000 }), MonitorAction::Probe);
    // the client acknowledges it
    assert!(matches!(s.handle_frame(Frame::Pong(Vec::new()), 5050), Ok(None)));
    assert_eq!(s.heartbeat(MonitorEvent::Tick { now: 10000 }), MonitorAction::Probe);
    assert_eq!(s.heartbeat(MonitorEvent::Tick { now: 15000 }), MonitorAction::Probe);
    assert_eq!(s.monitor_status(), MonitorStatus::Running);
    // no further acknowledgments: the connection ends within eleven more seconds
    let mut now: u64 = 15000;
    let mut ended = false;
    while now < 26000 {
        now += HEARTBEAT_INTERVAL_MS;
        if s.heartbeat(MonitorEvent::Tick { now }) == MonitorAction::Exit(StopReason::TimedOut) {
            ended = true;
            break;
        }
    }
    assert!(ended);
    assert!(now <= 26000);
}
