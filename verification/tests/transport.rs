//! The transport state machine and the read loop's decisions.

use milky::transport::{
    loop_step, transport_step, LoopAction, LoopEvent, LoopState, TransportEvent, TransportState,
};
use milky::types::event::EventKind;

#[test]
fn lifecycle_transitions() {
    let s = transport_step(TransportState::Idle, TransportEvent::ConnectRequested);
    assert_eq!(s, TransportState::Connecting);
    let s = transport_step(s, TransportEvent::ConnectFinished { ok: true });
    assert_eq!(s, TransportState::Open);
    let s = transport_step(s, TransportEvent::ShutdownRequested);
    assert_eq!(s, TransportState::Closing);
    let s = transport_step(s, TransportEvent::CloseFinished);
    assert_eq!(s, TransportState::Closed);
}

#[test]
fn connect_failure_faults() {
    let s = transport_step(TransportState::Connecting, TransportEvent::ConnectFinished {
        ok: false,
    });
    assert_eq!(s, TransportState::Faulted);
    assert_eq!(transport_step(s, TransportEvent::ConnectRequested), TransportState::Faulted);
}

#[test]
fn shutdown_is_idempotent_and_closes_once() {
    let s0 = LoopState { conn_present: true, exited: false, closes_sent: 0 };
    let (s1, a1) = loop_step(s0, LoopEvent::Shutdown);
    assert!(matches!(a1, LoopAction::SendCloseAndExit));
    assert_eq!(s1.closes_sent, 1);
    assert!(!s1.conn_present);
    let (s2, a2) = loop_step(s1, LoopEvent::Shutdown);
    assert!(matches!(a2, LoopAction::Exit));
    assert_eq!(s2.closes_sent, 1);
    assert_eq!(s2, s1);
}

#[test]
fn shutdown_after_read_exit_sends_no_close() {
    let s0 = LoopState { conn_present: true, exited: false, closes_sent: 0 };
    let (s1, a1) = loop_step(s0, LoopEvent::ReadError);
    assert!(matches!(a1, LoopAction::Exit));
    assert!(!s1.conn_present);
    assert_eq!(s1.closes_sent, 0);
    let (s2, a2) = loop_step(s1, LoopEvent::Shutdown);
    assert!(matches!(a2, LoopAction::Exit));
    assert_eq!(s2.closes_sent, 0);
}

#[test]
fn frames_decode_and_forward_in_order() {
    let s = LoopState { conn_present: true, exited: false, closes_sent: 0 };
    let frame1 = "{\"time\":1,\"self_id\":1,\"event_type\":\"group_nudge\",\"data\":{\"group_id\":1,\"sender_id\":2,\"receiver_id\":3}}";
    let frame2 = "{\"time\":2,\"self_id\":1,\"event_type\":\"bot_offline\",\"data\":{\"reason\":\"kicked\"}}";
    let (s, a) = loop_step(s, LoopEvent::Frame(frame1.to_string()));
    match a {
        LoopAction::Deliver(e) => {
            assert_eq!(e.time, 1);
            assert!(matches!(e.kind, EventKind::GroupNudge(_)));
        }
        other => panic!("expected delivery, got {:?}", std::mem::discriminant(&other)),
    }
    let (s, a) = loop_step(s, LoopEvent::Frame(frame2.to_string()));
    match a {
        LoopAction::Deliver(e) => {
            assert_eq!(e.time, 2);
            assert!(matches!(e.kind, EventKind::BotOffline(_)));
        }
        _ => panic!("expected delivery"),
    }
    assert!(s.conn_present);
}

#[test]
fn bad_frame_is_dropped_and_loop_continues() {
    let s = LoopState { conn_present: true, exited: false, closes_sent: 0 };
    let (s1, a) = loop_step(s, LoopEvent::Frame("{broken".to_string()));
    assert!(matches!(a, LoopAction::DropFrame(_)));
    assert_eq!(s1, s);
}

#[test]
fn remote_close_exits_without_close_frame() {
    let s = LoopState { conn_present: true, exited: false, closes_sent: 0 };
    let (s1, a) = loop_step(s, LoopEvent::RemoteClosed);
    assert!(matches!(a, LoopAction::Exit));
    assert!(s1.exited);
    assert_eq!(s1.closes_sent, 0);
}

fn loop_events() -> Vec<LoopEvent> {
    vec![
        LoopEvent::Shutdown,
        LoopEvent::Frame(
            "{\"time\":1,\"self_id\":1,\"event_type\":\"bot_offline\",\"data\":{\"reason\":\"x\"}}"
                .to_string(),
        ),
        LoopEvent::Frame("{bad".to_string()),
        LoopEvent::ReadError,
        LoopEvent::RemoteClosed,
    ]
}

#[test]
fn no_interleaving_double_closes_or_reuses_the_handle() {
    // Exhaustively drive the loop/shutdown state machine through every
    // event sequence of bounded length and check the shared-handle
    // guarantees on each interleaving.
    let n = loop_events().len();
    let depth = 4;
    let mut total: usize = 1;
    for _ in 0..depth {
        total *= n;
    }
    for mut code in 0..total {
        let mut state = LoopState { conn_present: true, exited: false, closes_sent: 0 };
        for _ in 0..depth {
            let ev = loop_events().swap_remove(code % n);
            code /= n;
            let (next, action) = loop_step(state, ev);
            if matches!(action, LoopAction::SendCloseAndExit) {
                assert!(state.conn_present, "close frame sent without holding the handle");
            }
            if matches!(action, LoopAction::Deliver(_)) {
                assert!(state.conn_present, "frame read without holding the handle");
            }
            state = next;
            assert!(state.closes_sent <= 1, "handle closed twice");
            assert!(
                !(state.conn_present && state.closes_sent > 0),
                "handle still present after a close"
            );
        }
    }
}
