use vstd::prelude::*;
use vstd::string::StringExecFns;

use crate::errors::Error;
use crate::keepalive::PingTiming;
use crate::uri::{root_to_service_uri, spec_service_uri, ServiceUriView};

verus! {

/// The authorization header value, `Token` followed by the secret token.
/// The type deliberately has no `Debug` or `Display`, so the secret cannot
/// reach any log or error message; only [`AuthzValue::header_value`] hands
/// it out, for the upgrade request alone.
pub struct AuthzValue {
    value: String,
}

impl View for AuthzValue {
    type V = Seq<char>;

    closed spec fn view(&self) -> Seq<char> {
        self.value@
    }
}

impl AuthzValue {
    /// The raw header value, for the `Authorization` header of the
    /// upgrade request and for nothing else.
    pub fn header_value(&self) -> (s: &String)
        ensures
            s@ == self@,
    {
        &self.value
    }
}

/// Whether `http` accepts a string as an HTTP header value.
pub uninterp spec fn header_value_ok(s: Seq<char>) -> bool;

/// Relies on `http::HeaderValue::from_str`: whether a string is a valid
/// header value is a function of the string alone.
#[verifier::external_body]
fn valid_header_value(s: &str) -> (b: bool)
    ensures
        b == header_value_ok(s@),
{
    http::HeaderValue::from_str(s).is_ok()
}

/// Relies on tungstenite's `generate_key`: a fresh `Sec-WebSocket-Key`
/// nonce per call, the base64 encoding of 16 random bytes, hence always
/// 24 characters.
#[verifier::external_body]
fn fresh_websocket_key() -> (k: String)
    ensures
        k@.len() == 24,
{
    tokio_tungstenite::tungstenite::handshake::client::generate_key()
}

/// The client's configuration, created once and owned by the supervisor
/// for the client's entire lifetime.
pub struct WebSocketClient {
    pub authz_value: AuthzValue,
    pub timing: PingTiming,
    pub service_uri: String,
    pub authority: String,
}

/// The authorization header value derived from a token.
pub open spec fn spec_authz_value(token: Seq<char>) -> Seq<char> {
    "Token "@ + token
}

impl WebSocketClient {
    /// Build a client from a service root URL, a secret token and the
    /// keepalive timing. Construction fails, and the client never starts,
    /// when the token does not form a valid header value or the root does
    /// not yield a service URI.
    pub fn new(service_root: &str, auth_token: &str, timing: PingTiming) -> (r: Result<
        WebSocketClient,
        Error,
    >)
        requires
            timing.wf(),
        ensures
            !header_value_ok(spec_authz_value(auth_token@)) ==> r == Err::<WebSocketClient, Error>(
                Error::InvalidHeaderValue,
            ),
            header_value_ok(spec_authz_value(auth_token@)) ==> match spec_service_uri(
                service_root@,
            ) {
                Err(e) => r == Err::<WebSocketClient, Error>(e),
                Ok(v) => r matches Ok(c) && c.authz_value@ == spec_authz_value(auth_token@)
                    && c.timing == timing && c.service_uri@ == v.uri && c.authority@ == v.authority,
            },
    {
        let mut authz = String::from_str("Token ");
        authz.append(auth_token);
        if !valid_header_value(authz.as_str()) {
            return Err(Error::InvalidHeaderValue);
        }
        let service = match root_to_service_uri(service_root) {
            Err(e) => {
                return Err(e);
            },
            Ok(s) => s,
        };
        Ok(
            WebSocketClient {
                authz_value: AuthzValue { value: authz },
                timing,
                service_uri: service.uri,
                authority: service.authority,
            },
        )
    }

    /// The headers of the HTTP/1.1 upgrade request, in order: `Host` with
    /// the service authority, `Authorization` with the secret value,
    /// `Connection: Upgrade`, `Upgrade: websocket`, the WebSocket version,
    /// and a freshly generated nonce, never reused across attempts.
    pub fn connect_request_headers(&self) -> (h: Vec<(String, String)>)
        ensures
            h@.len() == 6,
            h@[0].0@ == "Host"@ && h@[0].1@ == self.authority@,
            h@[1].0@ == "Authorization"@ && h@[1].1@ == self.authz_value@,
            h@[2].0@ == "Connection"@ && h@[2].1@ == "Upgrade"@,
            h@[3].0@ == "Upgrade"@ && h@[3].1@ == "websocket"@,
            h@[4].0@ == "Sec-WebSocket-Version"@ && h@[4].1@ == "13"@,
            h@[5].0@ == "Sec-WebSocket-Key"@ && h@[5].1@.len() == 24,
    {
        let key = fresh_websocket_key();
        let mut h: Vec<(String, String)> = Vec::new();
        h.push((String::from_str("Host"), self.authority.clone()));
        h.push((String::from_str("Authorization"), self.authz_value.header_value().clone()));
        h.push((String::from_str("Connection"), String::from_str("Upgrade")));
        h.push((String::from_str("Upgrade"), String::from_str("websocket")));
        h.push((String::from_str("Sec-WebSocket-Version"), String::from_str("13")));
        h.push((String::from_str("Sec-WebSocket-Key"), key));
        h
    }
}

} // verus!
