use vstd::prelude::*;

use crate::errors::{spec_backoff_kind, BackoffKind, ConnectionError};

verus! {

/// How one connection attempt ended: `Completed` covers both a peer- or
/// shutdown-initiated close and a keepalive timeout (an expected liveness
/// failure, not a fault); `Failed` carries a classified connection error.
#[derive(Clone, Copy, Debug, PartialEq, Eq, Structural)]
pub enum SessionOutcome {
    Completed,
    Failed(ConnectionError),
}

/// What the supervisor does between two connection attempts: whether the
/// cumulative backoff state is reset, which backoff kind (if any) drives
/// the wait before the next attempt, and whether to log the distinguished
/// "check credentials" diagnostic. There is always a next attempt; only a
/// shutdown request ends the supervisor loop.
#[derive(Clone, Copy, Debug, PartialEq, Eq, Structural)]
pub struct RetryDirective {
    pub reset_backoff: bool,
    pub backoff: Option<BackoffKind>,
    pub warn_credentials: bool,
}

/// The supervisor's policy between attempts: any outcome that is not a
/// classified error resets the backoff state and waits nothing; an error
/// keeps the backoff state, waits per its classification, and earns the
/// credentials diagnostic exactly when it is a handshake rejection with
/// status 403.
pub open spec fn spec_retry_directive(outcome: SessionOutcome) -> RetryDirective {
    match outcome {
        SessionOutcome::Completed => RetryDirective {
            reset_backoff: true,
            backoff: None,
            warn_credentials: false,
        },
        SessionOutcome::Failed(e) => RetryDirective {
            reset_backoff: false,
            backoff: Some(spec_backoff_kind(e)),
            warn_credentials: e.spec_is_forbidden_rejection(),
        },
    }
}

/// Decide what the supervisor does after one session's outcome.
pub fn next_retry_directive(outcome: &SessionOutcome) -> (d: RetryDirective)
    ensures
        d == spec_retry_directive(*outcome),
{
    match outcome {
        SessionOutcome::Completed => RetryDirective {
            reset_backoff: true,
            backoff: None,
            warn_credentials: false,
        },
        SessionOutcome::Failed(e) => RetryDirective {
            reset_backoff: false,
            backoff: Some(e.as_backoff_kind()),
            warn_credentials: e.is_forbidden_rejection(),
        },
    }
}

/// A session that ends without a classified error — a graceful close or a
/// keepalive timeout — is reconnected at once: the backoff state is reset
/// and no backoff wait is imposed.
pub proof fn lemma_completed_session_is_not_penalized()
    ensures
        spec_retry_directive(SessionOutcome::Completed).reset_backoff,
        spec_retry_directive(SessionOutcome::Completed).backoff is None,
{
}

/// No connection error ends the supervisor loop: every failure, whatever
/// its classification, yields a backoff wait for the next attempt, and the
/// backoff state is never reset on a classified error.
pub proof fn lemma_every_failure_is_retried(e: ConnectionError)
    ensures
        spec_retry_directive(SessionOutcome::Failed(e)).backoff == Some(spec_backoff_kind(e)),
        !spec_retry_directive(SessionOutcome::Failed(e)).reset_backoff,
{
}

/// The credentials diagnostic is logged for a handshake rejection with
/// status 403 and for nothing else; it does not change the classification,
/// which stays permanent for status 403.
pub proof fn lemma_credentials_diagnostic_iff_forbidden(e: ConnectionError)
    ensures
        spec_retry_directive(SessionOutcome::Failed(e)).warn_credentials
            <==> e.spec_is_forbidden_rejection(),
        e.spec_is_forbidden_rejection() ==> spec_backoff_kind(e) == BackoffKind::Permanent,
{
}

} // verus!
