use gateway_client::keepalive::{
    sample_ping_delay, start_session, KeepalivePhase, PingTiming, SessionState,
    DEFAULT_MAX_PING_INTERVAL_MS, DEFAULT_MIN_PING_INTERVAL_MS, DEFAULT_PONG_TIMEOUT_MS,
};
use gateway_client::session::{session_step, InboundFrame, SessionEvent, SessionStep};

fn timing() -> PingTiming {
    PingTiming { min_ping_interval_ms: 100, max_ping_interval_ms: 200, pong_timeout_ms: 50 }
}

#[test]
fn default_timing_matches_the_documented_values() {
    let t = PingTiming::default();
    assert_eq!(t.min_ping_interval_ms, 15000);
    assert_eq!(t.max_ping_interval_ms, 25000);
    assert_eq!(t.pong_timeout_ms, 10000);
    assert_eq!(DEFAULT_MIN_PING_INTERVAL_MS, 15000);
    assert_eq!(DEFAULT_MAX_PING_INTERVAL_MS, 25000);
    assert_eq!(DEFAULT_PONG_TIMEOUT_MS, 10000);
}

#[test]
fn first_ping_delay_is_sampled_within_the_window() {
    let t = timing();
    for _ in 0..100 {
        let s = start_session(&t);
        assert_eq!(s.phase, KeepalivePhase::AwaitingPingTime);
        assert!(s.timer_ms >= 100 && s.timer_ms <= 200);
    }
}

#[test]
fn degenerate_window_pins_the_sampled_delay() {
    let t = PingTiming { min_ping_interval_ms: 42, max_ping_interval_ms: 42, pong_timeout_ms: 7 };
    assert_eq!(sample_ping_delay(&t), 42);
    assert_eq!(start_session(&t).timer_ms, 42);
}

#[test]
fn timer_while_awaiting_ping_time_sends_a_random_ping() {
    let t = timing();
    let s = SessionState { phase: KeepalivePhase::AwaitingPingTime, timer_ms: 150 };
    match session_step(s, &t, SessionEvent::TimerFired) {
        SessionStep::SendPing { payload, next } => {
            assert_eq!(payload.len(), 8);
            assert_eq!(next.phase, KeepalivePhase::AwaitingPong);
            assert_eq!(next.timer_ms, 50);
        }
        other => panic!("expected a ping to be sent, got {:?}", other),
    }
}

#[test]
fn pong_timeout_ends_the_session_successfully() {
    let t = timing();
    let s = SessionState { phase: KeepalivePhase::AwaitingPong, timer_ms: 50 };
    assert_eq!(session_step(s, &t, SessionEvent::TimerFired), SessionStep::Finish);
}

#[test]
fn any_pong_returns_to_awaiting_ping_time_with_fresh_delay() {
    let t = timing();
    let awaiting_pong = SessionState { phase: KeepalivePhase::AwaitingPong, timer_ms: 50 };
    match session_step(awaiting_pong, &t, SessionEvent::FrameReceived(InboundFrame::Pong)) {
        SessionStep::Continue(next) => {
            assert_eq!(next.phase, KeepalivePhase::AwaitingPingTime);
            assert!(next.timer_ms >= 100 && next.timer_ms <= 200);
        }
        other => panic!("expected the session to continue, got {:?}", other),
    }
}

#[test]
fn unsolicited_pong_still_resets_the_schedule() {
    let t = timing();
    let awaiting_ping = SessionState { phase: KeepalivePhase::AwaitingPingTime, timer_ms: 150 };
    match session_step(awaiting_ping, &t, SessionEvent::FrameReceived(InboundFrame::Pong)) {
        SessionStep::Continue(next) => {
            assert_eq!(next.phase, KeepalivePhase::AwaitingPingTime);
            assert!(next.timer_ms >= 100 && next.timer_ms <= 200);
        }
        other => panic!("expected the session to continue, got {:?}", other),
    }
}

#[test]
fn cancellation_closes_and_finishes() {
    let t = timing();
    let s = SessionState { phase: KeepalivePhase::AwaitingPingTime, timer_ms: 150 };
    assert_eq!(session_step(s, &t, SessionEvent::CancelRequested), SessionStep::SendCloseAndFinish);
    let awaiting_pong = SessionState { phase: KeepalivePhase::AwaitingPong, timer_ms: 50 };
    assert_eq!(
        session_step(awaiting_pong, &t, SessionEvent::CancelRequested),
        SessionStep::SendCloseAndFinish
    );
}

#[test]
fn close_frame_finishes_the_session() {
    let t = timing();
    let s = SessionState { phase: KeepalivePhase::AwaitingPingTime, timer_ms: 150 };
    assert_eq!(
        session_step(s, &t, SessionEvent::FrameReceived(InboundFrame::Close)),
        SessionStep::Finish
    );
}

#[test]
fn ping_and_unrecognized_frames_change_nothing() {
    let t = timing();
    let s = SessionState { phase: KeepalivePhase::AwaitingPong, timer_ms: 50 };
    assert_eq!(
        session_step(s, &t, SessionEvent::FrameReceived(InboundFrame::Ping)),
        SessionStep::Continue(s)
    );
    assert_eq!(
        session_step(s, &t, SessionEvent::FrameReceived(InboundFrame::Other)),
        SessionStep::Continue(s)
    );
}

#[test]
fn text_and_binary_payloads_go_to_the_dispatcher() {
    let t = timing();
    let s = SessionState { phase: KeepalivePhase::AwaitingPingTime, timer_ms: 150 };
    let bytes = b"{\"action\":\"hello\"}".to_vec();
    assert_eq!(
        session_step(s, &t, SessionEvent::FrameReceived(InboundFrame::Text(bytes.clone()))),
        SessionStep::Dispatch { payload: bytes.clone(), next: s }
    );
    assert_eq!(
        session_step(s, &t, SessionEvent::FrameReceived(InboundFrame::Binary(bytes.clone()))),
        SessionStep::Dispatch { payload: bytes, next: s }
    );
}
