//! The transport's state machine and the event loop's decisions.
//!
//! The streaming strategy keeps one connection handle in a guarded slot
//! shared by exactly two actors, the read loop and the shutdown trigger.
//! Everything those actors decide — who takes the handle, when a close
//! frame is sent, when the loop exits — is a pure function of the state
//! and the observed occurrence, modelled and verified here; the
//! surrounding runtime only performs the chosen action.

use vstd::prelude::*;

use crate::error::DecodeError;
use crate::event_codec::decode_event_text;
use crate::types::event::Event;

verus! {

/// The transport's lifecycle.  `Faulted` is absorbing and reachable from
/// `Connecting` and `Open` on an unrecoverable failure.
#[derive(Clone, Copy, Debug, PartialEq, Eq, Structural)]
pub enum TransportState {
    Idle,
    Connecting,
    Open,
    Closing,
    Closed,
    Faulted,
}

/// What the transport observes.
#[derive(Clone, Copy, Debug, PartialEq, Eq, Structural)]
pub enum TransportEvent {
    /// `connect()` was called.
    ConnectRequested,
    /// The connection attempt resolved, well or badly.
    ConnectFinished { ok: bool },
    /// `shutdown()` was called.
    ShutdownRequested,
    /// The close handshake finished.
    CloseFinished,
    /// An unrecoverable failure was observed mid-stream.
    Fault,
}

/// The lifecycle's transition function: `connect()` moves `Idle` through
/// `Connecting` to `Open` or `Faulted`; `shutdown()` moves `Open` through
/// `Closing` to `Closed`; a fault from `Connecting` or `Open` is
/// absorbing; everything else leaves the state alone.
pub fn transport_step(s: TransportState, ev: TransportEvent) -> (r: TransportState)
    ensures
        s == TransportState::Idle && ev == TransportEvent::ConnectRequested ==> r
            == TransportState::Connecting,
        s == TransportState::Connecting ==> (match ev {
            TransportEvent::ConnectFinished { ok } => r == (if ok {
                TransportState::Open
            } else {
                TransportState::Faulted
            }),
            TransportEvent::Fault => r == TransportState::Faulted,
            _ => r == s,
        }),
        s == TransportState::Idle && ev != TransportEvent::ConnectRequested ==> r == s,
        s == TransportState::Open ==> (match ev {
            TransportEvent::ShutdownRequested => r == TransportState::Closing,
            TransportEvent::Fault => r == TransportState::Faulted,
            _ => r == s,
        }),
        s == TransportState::Closing ==> (match ev {
            TransportEvent::CloseFinished => r == TransportState::Closed,
            _ => r == s,
        }),
        s == TransportState::Faulted ==> r == TransportState::Faulted,
        s == TransportState::Closed ==> r == TransportState::Closed,
{
    match (s, ev) {
        (TransportState::Idle, TransportEvent::ConnectRequested) => TransportState::Connecting,
        (TransportState::Connecting, TransportEvent::ConnectFinished { ok }) => if ok {
            TransportState::Open
        } else {
            TransportState::Faulted
        },
        (TransportState::Open, TransportEvent::ShutdownRequested) => TransportState::Closing,
        (TransportState::Closing, TransportEvent::CloseFinished) => TransportState::Closed,
        (TransportState::Connecting, TransportEvent::Fault) => TransportState::Faulted,
        (TransportState::Open, TransportEvent::Fault) => TransportState::Faulted,
        _ => s,
    }
}

/// The shared state of the read loop and the shutdown trigger, as both
/// actors see it under the lock: whether the guarded slot still holds the
/// connection handle, whether the loop has exited, and how many close
/// frames have ever been sent.
#[derive(Clone, Copy, Debug, PartialEq, Eq, Structural)]
pub struct LoopState {
    /// The guarded slot holds the handle.
    pub conn_present: bool,
    /// The read loop has exited.
    pub exited: bool,
    /// How many close frames were sent over the handle.
    pub closes_sent: u64,
}

/// What one iteration of the read loop, or one shutdown call, observes.
pub enum LoopEvent {
    /// The shutdown signal fired; it wins every race against a read.
    Shutdown,
    /// One text frame arrived.
    Frame(String),
    /// The transport failed mid-read.
    ReadError,
    /// The remote closed cleanly.
    RemoteClosed,
}

/// What the runtime must do after a step.
pub enum LoopAction {
    /// Send a close frame over the handle just taken, then exit.
    SendCloseAndExit,
    /// Forward this event into the delivery channel.
    Deliver(Event),
    /// Log this frame's decode failure and continue reading.
    DropFrame(DecodeError),
    /// Release everything and exit the loop.
    Exit,
    /// Nothing; keep reading.
    Continue,
}

/// The loop is healthy: a handle still in the slot has never been closed,
/// and at most one close frame is ever sent.
pub open spec fn loop_inv(s: LoopState) -> bool {
    &&& s.closes_sent <= 1
    &&& (s.conn_present ==> s.closes_sent == 0)
}

/// One step of the read-loop/shutdown state machine.
///
/// The shutdown path takes the handle out of the slot, and only a step
/// that takes the handle sends a close frame — so a second shutdown, or a
/// shutdown racing a read that already released the handle, finds the
/// slot empty and sends nothing.  A frame is decoded only while the
/// handle is held; a failed decode drops that frame alone and the loop
/// continues.
pub fn loop_step(s: LoopState, ev: LoopEvent) -> (r: (LoopState, LoopAction))
    requires
        loop_inv(s),
    ensures
        loop_inv(r.0),
        r.0.closes_sent >= s.closes_sent,
        ev is Shutdown ==> r == spec_loop_shutdown(s),
        ev is Shutdown ==> r.0.exited == s.exited && !r.0.conn_present && (if s.conn_present
            && !s.exited {
            r.1 is SendCloseAndExit && r.0.closes_sent == s.closes_sent + 1
        } else {
            r.1 is Exit && r.0.closes_sent == s.closes_sent
        }),
        (match ev {
            LoopEvent::Frame(text) => s.conn_present && !s.exited ==> r.0 == s && (
            match crate::json_parse::spec_parse(text@) {
                None => (r.1 matches LoopAction::DropFrame(e) && e == DecodeError::Syntax),
                Some(_) => exists|v: crate::json::JsonValue|
                    crate::json_parse::spec_parse(text@) == Some(crate::json::jv_model(v)) && (
                    match #[trigger] crate::codec::dec_event(v) {
                        Ok(em) => (r.1 matches LoopAction::Deliver(e) && em == crate::codec::event_m(
                            e,
                        )),
                        Err(er) => (r.1 matches LoopAction::DropFrame(e) && e == er),
                    }),
            }),
            _ => true,
        }),
        (match ev {
            LoopEvent::Frame(_) => !(s.conn_present && !s.exited) ==> r.0 == s && r.1 is Continue,
            _ => true,
        }),
        ev is ReadError || ev is RemoteClosed ==> r.1 is Exit && !r.0.conn_present && r.0.exited
            && r.0.closes_sent == s.closes_sent,
        !(ev is Shutdown) && !s.conn_present ==> !(r.1 is SendCloseAndExit),
{
    match ev {
        LoopEvent::Shutdown => {
            if s.conn_present && !s.exited {
                (
                    LoopState {
                        conn_present: false,
                        exited: s.exited,
                        closes_sent: s.closes_sent + 1,
                    },
                    LoopAction::SendCloseAndExit,
                )
            } else {
                (
                    LoopState { conn_present: false, exited: s.exited, closes_sent: s.closes_sent },
                    LoopAction::Exit,
                )
            }
        },
        LoopEvent::Frame(text) => {
            if s.conn_present && !s.exited {
                match decode_event_text(text.as_str()) {
                    Ok(e) => (s, LoopAction::Deliver(e)),
                    Err(er) => (s, LoopAction::DropFrame(er)),
                }
            } else {
                (s, LoopAction::Continue)
            }
        },
        LoopEvent::ReadError => {
            (
                LoopState { conn_present: false, exited: true, closes_sent: s.closes_sent },
                LoopAction::Exit,
            )
        },
        LoopEvent::RemoteClosed => {
            (
                LoopState { conn_present: false, exited: true, closes_sent: s.closes_sent },
                LoopAction::Exit,
            )
        },
    }
}

/// Shutdown is idempotent: after one shutdown step, a second shutdown
/// step changes nothing and sends no second close frame.
pub proof fn lemma_shutdown_idempotent(s: LoopState, a: (LoopState, LoopAction), b: (
    LoopState,
    LoopAction,
))
    requires
        loop_inv(s),
        a == spec_loop_shutdown(s),
        b == spec_loop_shutdown(a.0),
    ensures
        b.0 == a.0,
        !(b.1 is SendCloseAndExit),
        a.0.closes_sent <= 1,
{
}

/// The shutdown step, at the specification level.
pub open spec fn spec_loop_shutdown(s: LoopState) -> (LoopState, LoopAction) {
    if s.conn_present && !s.exited {
        (
            LoopState {
                conn_present: false,
                exited: s.exited,
                closes_sent: (s.closes_sent + 1) as u64,
            },
            LoopAction::SendCloseAndExit,
        )
    } else {
        (
            LoopState { conn_present: false, exited: s.exited, closes_sent: s.closes_sent },
            LoopAction::Exit,
        )
    }
}

/// However shutdown races the read loop, the handle is closed at most
/// once: every interleaving of steps from a healthy state keeps the
/// invariant, which bounds `closes_sent` by one.
pub proof fn lemma_no_double_close(s: LoopState)
    requires
        loop_inv(s),
    ensures
        s.closes_sent <= 1,
        spec_loop_shutdown(s).0.closes_sent <= 1,
{
}

} // verus!
