use vstd::prelude::*;

verus! {

/// HTTP status codes whose handshake rejections are worth retrying soon.
pub const STATUS_TOO_MANY_REQUESTS: u16 = 429;

pub const STATUS_SERVICE_UNAVAILABLE: u16 = 503;

pub const STATUS_GATEWAY_TIMEOUT: u16 = 504;

/// The status code that suggests the authorization token is wrong.
pub const STATUS_FORBIDDEN: u16 = 403;

/// The shape of a WebSocket transport failure, as far as the retry policy
/// reads it: a rejected upgrade handshake with its HTTP status code, an
/// I/O-level failure, or anything else the transport reports.
#[derive(Clone, Copy, Debug, PartialEq, Eq, Structural)]
pub enum WsFailure {
    HttpRejection { status: u16 },
    Io,
    Other,
}

/// A failure of one connection attempt. These are the only errors that cross
/// from a session to the supervisor; each one is answered with a reconnect,
/// never with a crash.
#[derive(Clone, Copy, Debug, PartialEq, Eq, Structural)]
pub enum ConnectionError {
    /// The upgrade request could not be constructed.
    HttpRequestError,
    /// A reply could not be encoded as JSON.
    JsonError,
    /// The transport failed while connecting, sending or receiving.
    WebSocketError(WsFailure),
}

/// How the retry policy should treat a failed attempt: `Transient` failures
/// are retried soon, `Permanent` ones at the normal (maximal) backoff pace.
#[derive(Clone, Copy, Debug, PartialEq, Eq, Structural)]
pub enum BackoffKind {
    Transient,
    Permanent,
}

/// Everything the client can report to its caller: construction failures
/// (invalid authorization header or service URI) and per-attempt connection
/// failures.
#[derive(Clone, Copy, Debug, PartialEq, Eq, Structural)]
pub enum Error {
    InvalidHeaderValue,
    InvalidUri,
    UnknownScheme,
    HttpRequestError,
    JsonError,
    WebSocketError(WsFailure),
}

/// How a connection failure maps to a backoff kind: handshake rejections with
/// status 429, 503 or 504 and transport I/O failures are transient; every
/// other failure, including any other rejection status, is permanent.
pub open spec fn spec_backoff_kind(e: ConnectionError) -> BackoffKind {
    match e {
        ConnectionError::HttpRequestError => BackoffKind::Permanent,
        ConnectionError::JsonError => BackoffKind::Permanent,
        ConnectionError::WebSocketError(f) => match f {
            WsFailure::HttpRejection { status } => if status == STATUS_TOO_MANY_REQUESTS
                || status == STATUS_SERVICE_UNAVAILABLE || status == STATUS_GATEWAY_TIMEOUT {
                BackoffKind::Transient
            } else {
                BackoffKind::Permanent
            },
            WsFailure::Io => BackoffKind::Transient,
            WsFailure::Other => BackoffKind::Permanent,
        },
    }
}

impl ConnectionError {
    /// True exactly of a handshake rejection with status 403, the one failure
    /// that earns a "check your credentials" diagnostic. The classification
    /// itself stays permanent; this is a logging-only distinction.
    pub open spec fn spec_is_forbidden_rejection(self) -> bool {
        self == ConnectionError::WebSocketError(
            WsFailure::HttpRejection { status: STATUS_FORBIDDEN },
        )
    }

    /// Classify this failure for the retry policy.
    pub fn as_backoff_kind(&self) -> (k: BackoffKind)
        ensures
            k == spec_backoff_kind(*self),
    {
        match self {
            ConnectionError::HttpRequestError => BackoffKind::Permanent,
            ConnectionError::JsonError => BackoffKind::Permanent,
            ConnectionError::WebSocketError(f) => match f {
                WsFailure::HttpRejection { status } => {
                    if *status == STATUS_TOO_MANY_REQUESTS || *status == STATUS_SERVICE_UNAVAILABLE
                        || *status == STATUS_GATEWAY_TIMEOUT {
                        BackoffKind::Transient
                    } else {
                        BackoffKind::Permanent
                    }
                },
                WsFailure::Io => BackoffKind::Transient,
                WsFailure::Other => BackoffKind::Permanent,
            },
        }
    }

    /// Decide whether this failure warrants the credentials diagnostic.
    pub fn is_forbidden_rejection(&self) -> (b: bool)
        ensures
            b == self.spec_is_forbidden_rejection(),
    {
        match self {
            ConnectionError::WebSocketError(WsFailure::HttpRejection { status }) => *status
                == STATUS_FORBIDDEN,
            _ => false,
        }
    }
}

impl From<ConnectionError> for Error {
    /// Widen a per-attempt connection failure into the client's error type.
    fn from(e: ConnectionError) -> (r: Error) {
        match e {
            ConnectionError::HttpRequestError => Error::HttpRequestError,
            ConnectionError::JsonError => Error::JsonError,
            ConnectionError::WebSocketError(f) => Error::WebSocketError(f),
        }
    }
}

impl vstd::std_specs::convert::FromSpecImpl<ConnectionError> for Error {
    open spec fn obeys_from_spec() -> bool {
        true
    }

    open spec fn from_spec(e: ConnectionError) -> Error {
        match e {
            ConnectionError::HttpRequestError => Error::HttpRequestError,
            ConnectionError::JsonError => Error::JsonError,
            ConnectionError::WebSocketError(f) => Error::WebSocketError(f),
        }
    }
}

} // verus!
