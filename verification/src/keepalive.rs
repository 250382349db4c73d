use vstd::prelude::*;

verus! {

/// Default ping-interval window and pong timeout, in milliseconds.
pub const DEFAULT_MIN_PING_INTERVAL_MS: u64 = 15000;

pub const DEFAULT_MAX_PING_INTERVAL_MS: u64 = 25000;

pub const DEFAULT_PONG_TIMEOUT_MS: u64 = 10000;

/// Number of random payload bytes carried by an outgoing ping.
pub const PING_PAYLOAD_LEN: usize = 8;

/// The keepalive timing configuration: pings are sent after a delay sampled
/// uniformly from `[min_ping_interval_ms, max_ping_interval_ms]`, and a pong
/// must arrive within `pong_timeout_ms` of a ping.
#[derive(Clone, Copy, Debug, PartialEq, Eq, Structural)]
pub struct PingTiming {
    pub min_ping_interval_ms: u64,
    pub max_ping_interval_ms: u64,
    pub pong_timeout_ms: u64,
}

impl PingTiming {
    /// A timing configuration is well formed when its ping window is a
    /// nonempty interval.
    pub open spec fn wf(self) -> bool {
        self.min_ping_interval_ms <= self.max_ping_interval_ms
    }
}

impl Default for PingTiming {
    /// The default timing: pings every 15 to 25 seconds, pongs awaited for 10.
    fn default() -> (t: PingTiming)
        ensures
            t == (PingTiming {
                min_ping_interval_ms: DEFAULT_MIN_PING_INTERVAL_MS,
                max_ping_interval_ms: DEFAULT_MAX_PING_INTERVAL_MS,
                pong_timeout_ms: DEFAULT_PONG_TIMEOUT_MS,
            }),
            t.wf(),
    {
        PingTiming {
            min_ping_interval_ms: DEFAULT_MIN_PING_INTERVAL_MS,
            max_ping_interval_ms: DEFAULT_MAX_PING_INTERVAL_MS,
            pong_timeout_ms: DEFAULT_PONG_TIMEOUT_MS,
        }
    }
}

/// The keepalive phase: either waiting for the sampled ping time to arrive,
/// or waiting for the peer's pong. Exactly one phase is active at a time.
#[derive(Clone, Copy, Debug, PartialEq, Eq, Structural)]
pub enum KeepalivePhase {
    AwaitingPingTime,
    AwaitingPong,
}

/// The per-session keepalive state: the current phase and the delay, in
/// milliseconds, after which the session's single active timer fires.
#[derive(Clone, Copy, Debug, PartialEq, Eq, Structural)]
pub struct SessionState {
    pub phase: KeepalivePhase,
    pub timer_ms: u64,
}

impl SessionState {
    /// The session invariant: while awaiting ping time the timer holds a
    /// delay sampled from the ping window; while awaiting a pong it holds
    /// the pong timeout.
    pub open spec fn wf(self, timing: PingTiming) -> bool {
        match self.phase {
            KeepalivePhase::AwaitingPingTime => timing.min_ping_interval_ms <= self.timer_ms
                <= timing.max_ping_interval_ms,
            KeepalivePhase::AwaitingPong => self.timer_ms == timing.pong_timeout_ms,
        }
    }
}

/// Relies on `rand::Rng::gen_range` over the inclusive range `min..=max`:
/// the sample is uniform over the range and always falls within it. The
/// range is nonempty by the precondition, so the call cannot panic.
#[verifier::external_body]
fn sample_uniform_ms(min: u64, max: u64) -> (d: u64)
    requires
        min <= max,
    ensures
        min <= d <= max,
{
    rand::Rng::gen_range(&mut rand::thread_rng(), min..=max)
}

/// Relies on `rand::RngCore::fill_bytes`: it fills the whole buffer, so the
/// payload keeps its length.
#[verifier::external_body]
fn random_payload(len: usize) -> (p: Vec<u8>)
    ensures
        p@.len() == len,
{
    let mut p = vec![0u8; len];
    rand::RngCore::fill_bytes(&mut rand::thread_rng(), &mut p[..]);
    p
}

/// Sample the delay until the next ping from the configured window.
pub fn sample_ping_delay(timing: &PingTiming) -> (d: u64)
    requires
        timing.wf(),
    ensures
        timing.min_ping_interval_ms <= d <= timing.max_ping_interval_ms,
{
    sample_uniform_ms(timing.min_ping_interval_ms, timing.max_ping_interval_ms)
}

/// Draw the random payload for an outgoing ping.
pub fn fresh_ping_payload() -> (p: Vec<u8>)
    ensures
        p@.len() == PING_PAYLOAD_LEN,
{
    random_payload(PING_PAYLOAD_LEN)
}

/// The state a session starts in: awaiting ping time, with the first ping
/// delay sampled from the configured window.
pub fn start_session(timing: &PingTiming) -> (s: SessionState)
    requires
        timing.wf(),
    ensures
        s.phase == KeepalivePhase::AwaitingPingTime,
        s.wf(*timing),
{
    SessionState { phase: KeepalivePhase::AwaitingPingTime, timer_ms: sample_ping_delay(timing) }
}

/// The state after any pong is received, in either phase: back to awaiting
/// ping time, with a freshly sampled delay. The pong payload is never
/// inspected; any pong proves liveness.
pub fn on_pong(timing: &PingTiming) -> (s: SessionState)
    requires
        timing.wf(),
    ensures
        s.phase == KeepalivePhase::AwaitingPingTime,
        s.wf(*timing),
{
    SessionState { phase: KeepalivePhase::AwaitingPingTime, timer_ms: sample_ping_delay(timing) }
}

} // verus!
