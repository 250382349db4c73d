use vstd::prelude::*;

use crate::keepalive::{
    fresh_ping_payload, on_pong, KeepalivePhase, PingTiming, SessionState, PING_PAYLOAD_LEN,
};

verus! {

/// Bound on the number of application-level frames that may await
/// transmission at once: one keepalive frame plus one protocol reply.
pub const MAX_PENDING_FRAMES: usize = 2;

/// An inbound WebSocket frame, reduced to what the session reads of it.
/// `Text` and `Binary` carry the raw payload bytes; ping, pong and close
/// payloads are never inspected. `Other` stands for any frame kind the
/// session does not recognize.
#[derive(Clone, Debug, PartialEq, Eq)]
pub enum InboundFrame {
    Ping,
    Pong,
    Close,
    Text(Vec<u8>),
    Binary(Vec<u8>),
    Other,
}

/// One of the three event sources the session loop waits on: a shutdown
/// request, the keepalive timer firing, or the next inbound frame. The
/// caller must check cancellation with highest priority on every iteration.
#[derive(Clone, Debug, PartialEq, Eq)]
pub enum SessionEvent {
    CancelRequested,
    TimerFired,
    FrameReceived(InboundFrame),
}

/// What the session loop must do next after one event is handled.
#[derive(Clone, Debug, PartialEq, Eq)]
pub enum SessionStep {
    /// Keep looping in the given state; nothing to send.
    Continue(SessionState),
    /// Send a ping frame with this payload, then keep looping.
    SendPing { payload: Vec<u8>, next: SessionState },
    /// Hand these payload bytes to the message dispatcher, then keep
    /// looping in the given (unchanged) state.
    Dispatch { payload: Vec<u8>, next: SessionState },
    /// Send a close frame, then end the session successfully.
    SendCloseAndFinish,
    /// End the session successfully, with nothing to send.
    Finish,
}

/// Handle one event of the session loop.
///
/// Cancellation always closes and ends the session. A timer firing while
/// awaiting ping time sends a fresh random ping and starts awaiting the
/// pong; firing while awaiting the pong means the connection is silently
/// dead, and the session ends successfully so the supervisor reconnects
/// without a backoff penalty. Any pong returns the machine to awaiting
/// ping time with a freshly sampled delay. A close frame ends the session
/// successfully; text and binary payloads go to the dispatcher; ping and
/// unrecognized frames change nothing.
pub fn session_step(state: SessionState, timing: &PingTiming, event: SessionEvent) -> (step:
    SessionStep)
    requires
        timing.wf(),
        state.wf(*timing),
    ensures
        event == SessionEvent::CancelRequested ==> step == SessionStep::SendCloseAndFinish,
        event == SessionEvent::TimerFired && state.phase == KeepalivePhase::AwaitingPingTime
            ==> (step matches SessionStep::SendPing { payload, next } && payload@.len()
            == PING_PAYLOAD_LEN && next.phase == KeepalivePhase::AwaitingPong && next.wf(*timing)),
        event == SessionEvent::TimerFired && state.phase == KeepalivePhase::AwaitingPong ==> step
            == SessionStep::Finish,
        event == SessionEvent::FrameReceived(InboundFrame::Pong) ==> (step matches
            SessionStep::Continue(next) && next.phase == KeepalivePhase::AwaitingPingTime
            && next.wf(*timing)),
        event == SessionEvent::FrameReceived(InboundFrame::Ping) ==> step
            == SessionStep::Continue(state),
        event == SessionEvent::FrameReceived(InboundFrame::Close) ==> step == SessionStep::Finish,
        event matches SessionEvent::FrameReceived(InboundFrame::Text(b)) ==> step
            == (SessionStep::Dispatch { payload: b, next: state }),
        event matches SessionEvent::FrameReceived(InboundFrame::Binary(b)) ==> step
            == (SessionStep::Dispatch { payload: b, next: state }),
        event == SessionEvent::FrameReceived(InboundFrame::Other) ==> step
            == SessionStep::Continue(state),
        step matches SessionStep::Continue(next) ==> next.wf(*timing),
        step matches SessionStep::SendPing { payload, next } ==> next.wf(*timing),
        step matches SessionStep::Dispatch { payload, next } ==> next.wf(*timing),
{
    match event {
        SessionEvent::CancelRequested => SessionStep::SendCloseAndFinish,
        SessionEvent::TimerFired => {
            match state.phase {
                KeepalivePhase::AwaitingPingTime => {
                    let payload = fresh_ping_payload();
                    let next = SessionState {
                        phase: KeepalivePhase::AwaitingPong,
                        timer_ms: timing.pong_timeout_ms,
                    };
                    SessionStep::SendPing { payload, next }
                },
                KeepalivePhase::AwaitingPong => SessionStep::Finish,
            }
        },
        SessionEvent::FrameReceived(frame) => {
            match frame {
                InboundFrame::Ping => SessionStep::Continue(state),
                InboundFrame::Pong => SessionStep::Continue(on_pong(timing)),
                InboundFrame::Close => SessionStep::Finish,
                InboundFrame::Text(payload) => SessionStep::Dispatch { payload, next: state },
                InboundFrame::Binary(payload) => SessionStep::Dispatch { payload, next: state },
                InboundFrame::Other => SessionStep::Continue(state),
            }
        },
    }
}

} // verus!
