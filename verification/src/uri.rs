use vstd::prelude::*;
use vstd::string::{StrSliceExecFns, StringExecFns};

use crate::errors::Error;
use crate::strutil::string_is;

verus! {

/// The components of a parsed URI, as far as this client reads them:
/// scheme and authority where present, and the path (never the query).
#[derive(Clone, Debug, PartialEq, Eq)]
pub struct UriParts {
    pub scheme: Option<String>,
    pub authority: Option<String>,
    pub path: String,
}

/// The character-level image of [`UriParts`].
pub ghost struct UriPartsView {
    pub scheme: Option<Seq<char>>,
    pub authority: Option<Seq<char>>,
    pub path: Seq<char>,
}

impl View for UriParts {
    type V = UriPartsView;

    open spec fn view(&self) -> UriPartsView {
        UriPartsView {
            scheme: match self.scheme {
                Some(s) => Some(s@),
                None => None,
            },
            authority: match self.authority {
                Some(a) => Some(a@),
                None => None,
            },
            path: self.path@,
        }
    }
}

/// What `http::Uri` parsing yields on a given string: `None` when the
/// string is not a valid URI, otherwise its components.
pub uninterp spec fn uri_parts_of(s: Seq<char>) -> Option<UriPartsView>;

/// Relies on `str::parse::<http::Uri>` and the `Uri` component accessors
/// `scheme_str`, `authority` and `path`: parsing is a function of the
/// string alone, and the accessors return the parsed components (`path`
/// returns `"/"` for a URI with a scheme but no path).
#[verifier::external_body]
fn parse_uri(s: &str) -> (r: Option<UriParts>)
    ensures
        r is Some <==> uri_parts_of(s@) is Some,
        r matches Some(p) ==> uri_parts_of(s@) == Some(p@),
{
    match s.parse::<http::Uri>() {
        Err(_) => None,
        Ok(u) => Some(
            UriParts {
                scheme: u.scheme_str().map(|x| x.to_string()),
                authority: u.authority().map(|a| a.as_str().to_string()),
                path: u.path().to_string(),
            },
        ),
    }
}

/// The scheme of the service URI: `http` maps to `ws`, `https` to `wss`,
/// the WebSocket schemes stay as they are, a missing scheme counts as
/// `ws`, and anything else is refused.
pub open spec fn spec_mapped_scheme(scheme: Option<Seq<char>>) -> Option<Seq<char>> {
    let s = match scheme {
        Some(s) => s,
        None => "ws"@,
    };
    if s == "http"@ || s == "ws"@ {
        Some("ws"@)
    } else if s == "https"@ || s == "wss"@ {
        Some("wss"@)
    } else {
        None
    }
}

/// Map a root URI's scheme to the WebSocket scheme of the service URI.
fn map_scheme(scheme: &Option<String>) -> (r: Option<String>)
    ensures
        r is Some <==> spec_mapped_scheme(
            match *scheme {
                Some(s) => Some(s@),
                None => None,
            },
        ) is Some,
        r matches Some(m) ==> spec_mapped_scheme(
            match *scheme {
                Some(s) => Some(s@),
                None => None,
            },
        ) == Some(m@),
{
    match scheme {
        None => Some(String::from_str("ws")),
        Some(s) => {
            if string_is(s, "http") || string_is(s, "ws") {
                Some(String::from_str("ws"))
            } else if string_is(s, "https") || string_is(s, "wss") {
                Some(String::from_str("wss"))
            } else {
                None
            }
        },
    }
}

/// The root's path with the fixed gateway path appended, adding a
/// separator exactly when the root's path does not already end in one.
pub open spec fn spec_joined_path(p: Seq<char>) -> Seq<char> {
    if p.len() == 0 {
        "ws/gateway/ml/"@
    } else if p.last() == '/' {
        p + "ws/gateway/ml/"@
    } else {
        p + "/ws/gateway/ml/"@
    }
}

/// Append the gateway path to a root path.
fn join_gateway_path(path: &str) -> (r: String)
    ensures
        r@ == spec_joined_path(path@),
{
    let n = path.unicode_len();
    if n == 0 {
        String::from_str("ws/gateway/ml/")
    } else {
        let last = path.get_char(n - 1);
        let mut joined = path.to_owned();
        if last == '/' {
            joined.append("ws/gateway/ml/");
        } else {
            joined.append("/ws/gateway/ml/");
        }
        joined
    }
}

/// A full URI assembled from a scheme, an authority and a path.
pub open spec fn spec_assembled_uri(scheme: Seq<char>, authority: Seq<char>, path: Seq<char>) -> Seq<
    char,
> {
    scheme + "://"@ + authority + path
}

/// The service URI derived from a root, with the authority kept for the
/// `Host` header of the upgrade request.
#[derive(Clone, Debug, PartialEq, Eq)]
pub struct ServiceUri {
    pub uri: String,
    pub authority: String,
}

/// The character-level image of [`ServiceUri`].
pub ghost struct ServiceUriView {
    pub uri: Seq<char>,
    pub authority: Seq<char>,
}

impl View for ServiceUri {
    type V = ServiceUriView;

    open spec fn view(&self) -> ServiceUriView {
        ServiceUriView { uri: self.uri@, authority: self.authority@ }
    }
}

/// How a service root turns into the gateway's service URI: the root must
/// parse, its scheme must map to a WebSocket scheme, it must carry an
/// authority, and the reassembled URI with the gateway path appended must
/// parse in turn.
pub open spec fn spec_service_uri(root: Seq<char>) -> Result<ServiceUriView, Error> {
    match uri_parts_of(root) {
        None => Err(Error::InvalidUri),
        Some(p) => match spec_mapped_scheme(p.scheme) {
            None => Err(Error::UnknownScheme),
            Some(scheme) => match p.authority {
                None => Err(Error::InvalidUri),
                Some(authority) => {
                    let built = spec_assembled_uri(scheme, authority, spec_joined_path(p.path));
                    if uri_parts_of(built) is Some {
                        Ok(ServiceUriView { uri: built, authority })
                    } else {
                        Err(Error::InvalidUri)
                    }
                },
            },
        },
    }
}

/// Derive the gateway's service URI from a service root: map the scheme,
/// append the fixed gateway path, and keep the authority for the `Host`
/// header. A root that does not parse, has no authority, or reassembles
/// into something unparsable is an invalid URI; an unrecognized scheme is
/// refused as such.
pub fn root_to_service_uri(service_root: &str) -> (r: Result<ServiceUri, Error>)
    ensures
        r matches Ok(u) ==> spec_service_uri(service_root@) == Ok::<ServiceUriView, Error>(u@),
        r matches Err(e) ==> spec_service_uri(service_root@) == Err::<ServiceUriView, Error>(e),
{
    let parts = match parse_uri(service_root) {
        None => {
            return Err(Error::InvalidUri);
        },
        Some(p) => p,
    };
    let scheme = match map_scheme(&parts.scheme) {
        None => {
            return Err(Error::UnknownScheme);
        },
        Some(s) => s,
    };
    let authority = match parts.authority {
        None => {
            return Err(Error::InvalidUri);
        },
        Some(a) => a,
    };
    let joined = join_gateway_path(parts.path.as_str());
    let mut uri = scheme;
    uri.append("://");
    uri.append(authority.as_str());
    uri.append(joined.as_str());
    match parse_uri(uri.as_str()) {
        None => Err(Error::InvalidUri),
        Some(_) => Ok(ServiceUri { uri, authority }),
    }
}

} // verus!
