//! The decision core of a resilient WebSocket gateway client: the keepalive
//! state machine that detects silently dead connections, the dispatcher for
//! the JSON channel protocol, the classifier that turns failures into backoff
//! decisions, the supervisor's retry policy, and the derivation of the
//! service URI and upgrade headers. The host around it performs the I/O these
//! decisions call for and feeds every outcome back in.

pub mod client;
pub mod errors;
pub mod keepalive;
pub mod message;
pub mod session;
pub mod strutil;
pub mod supervisor;
pub mod uri;
