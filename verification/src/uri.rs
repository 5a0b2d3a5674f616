//! Target-URI construction for the proxy data plane.
//!
//! On every proxied exchange the target URI is rebuilt from the configured
//! backend URI's scheme and authority with the incoming request's path and
//! query overlaid verbatim: the authority is never replaced and the path is
//! copied, not concatenated, so trailing slashes and percent-encoding
//! round-trip byte for byte. The WebSocket path does the same and then
//! forces the scheme to `ws`, the backend hop being plain even when the
//! front-end terminated TLS.

use vstd::prelude::*;

use crate::text::str_eq;

verus! {

/// A URI in the three parts the proxy manipulates, each optional as in the
/// generic URI grammar. A `unix` scheme carries the socket's filesystem
/// path as its authority.
#[derive(Clone)]
pub struct UriParts {
    /// `http`, `https`, `unix` or `ws`.
    pub scheme: Option<String>,
    /// Host and optional port — or the socket path under the `unix` scheme.
    pub authority: Option<String>,
    /// Path and optional query, exactly as they appear on the wire.
    pub path_and_query: Option<String>,
}

impl UriParts {
    /// Deep clone of all three parts.
    pub fn clone_parts(&self) -> (r: UriParts)
        ensures
            views_match(&r, self),
    {
        UriParts {
            scheme: clone_part(&self.scheme),
            authority: clone_part(&self.authority),
            path_and_query: clone_part(&self.path_and_query),
        }
    }
}

/// Both URIs have the same parts, compared by contents.
pub open spec fn views_match(a: &UriParts, b: &UriParts) -> bool {
    &&& part_view(&a.scheme) == part_view(&b.scheme)
    &&& part_view(&a.authority) == part_view(&b.authority)
    &&& part_view(&a.path_and_query) == part_view(&b.path_and_query)
}

/// The contents of one optional URI part.
pub open spec fn part_view(p: &Option<String>) -> Option<Seq<char>> {
    match p {
        Some(s) => Some(s@),
        None => None,
    }
}

fn clone_part(p: &Option<String>) -> (r: Option<String>)
    ensures
        part_view(&r) == part_view(p),
{
    match p {
        Some(s) => Some(s.clone()),
        None => None,
    }
}

/// The unary proxy path's target URI: the backend URI's scheme and
/// authority, with the incoming request's path and query overlaid verbatim.
pub fn make_uri_parts(backend_uri: &UriParts, request_path_and_query: &Option<String>) -> (r:
    UriParts)
    ensures
        part_view(&r.scheme) == part_view(&backend_uri.scheme),
        part_view(&r.authority) == part_view(&backend_uri.authority),
        part_view(&r.path_and_query) == part_view(request_path_and_query),
{
    let mut parts = backend_uri.clone_parts();
    parts.path_and_query = clone_part(request_path_and_query);
    parts
}

/// The WebSocket proxy path's target URI: as [`make_uri_parts`], with the
/// scheme forced to `ws`.
pub fn make_ws_uri_parts(backend_uri: &UriParts, request_path_and_query: &Option<String>) -> (r:
    UriParts)
    ensures
        part_view(&r.scheme) == Some("ws"@),
        part_view(&r.authority) == part_view(&backend_uri.authority),
        part_view(&r.path_and_query) == part_view(request_path_and_query),
{
    let mut parts = make_uri_parts(backend_uri, request_path_and_query);
    parts.scheme = Some("ws".to_owned());
    parts
}

/// Which transport the backend client speaks, fixed for its lifetime when
/// it is constructed from the backend URI.
#[derive(Clone, Copy, Debug, PartialEq, Eq, Structural)]
pub enum Transport {
    /// Plain TCP, for the `http` and `https` schemes (and any unrecognized
    /// scheme, as the TCP client is the default).
    Tcp,
    /// A Unix-domain socket whose path is the URI's authority.
    UnixSocket,
}

/// Transport selection at client construction: the `unix` scheme selects the
/// Unix-domain transport; everything else dispatches over TCP.
pub fn transport_for(backend_uri: &UriParts) -> (r: Transport)
    ensures
        r == Transport::UnixSocket <==> part_view(&backend_uri.scheme) == Some("unix"@),
{
    match &backend_uri.scheme {
        Some(scheme) => {
            if str_eq(scheme.as_str(), "unix") {
                Transport::UnixSocket
            } else {
                Transport::Tcp
            }
        }
        None => Transport::Tcp,
    }
}

/// The backend URI the router targets when none is configured: the local
/// development server over TCP in debug mode, the application's Unix-domain
/// socket under the given temporary directory otherwise.
pub fn default_backend_uri(debug: bool, temp_dir: &str) -> (r: UriParts)
    ensures
        debug ==> part_view(&r.scheme) == Some("http"@) && part_view(&r.authority) == Some(
            "localhost:8000"@,
        ),
        !debug ==> part_view(&r.scheme) == Some("unix"@) && part_view(&r.authority) == Some(
            temp_dir@ + "/authentik-core.sock"@,
        ),
        part_view(&r.path_and_query) == Some("/"@),
{
    if debug {
        UriParts {
            scheme: Some("http".to_owned()),
            authority: Some("localhost:8000".to_owned()),
            path_and_query: Some("/".to_owned()),
        }
    } else {
        let mut socket_path = temp_dir.to_owned();
        socket_path.append("/authentik-core.sock");
        UriParts {
            scheme: Some("unix".to_owned()),
            authority: Some(socket_path),
            path_and_query: Some("/".to_owned()),
        }
    }
}

} // verus!
