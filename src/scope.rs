//! The scope: a protocol-neutral description of one inbound request.
use vstd::prelude::*;

verus! {

/// Protocol tag of a plain HTTP request.
pub const PROTO_HTTP: &'static str = "http";

/// Protocol tag of a request that asks for a WebSocket upgrade.
pub const PROTO_WS: &'static str = "ws";

/// HTTP version of a request.
#[derive(Clone, Copy, Debug, PartialEq, Eq, Structural)]
pub enum HttpVersion {
    Http09,
    Http10,
    Http11,
    Http2,
    Http3,
}

/// A transport address: the host as text and the port.
pub struct SocketAddress {
    pub host: String,
    pub port: u16,
}

/// What the transport hands over of a request: method, URI, version and
/// headers (names as text, values as bytes).
pub struct RequestHead {
    pub method: String,
    pub uri: String,
    pub version: HttpVersion,
    pub headers: Vec<(String, Vec<u8>)>,
}

/// The description of one request that the application callback receives.
pub struct Scope {
    pub proto: String,
    pub http_version: HttpVersion,
    pub scheme: String,
    pub uri: String,
    pub method: String,
    pub server: SocketAddress,
    pub client: SocketAddress,
    pub headers: Vec<(String, Vec<u8>)>,
}

/// Whether two addresses are the same host and port.
pub open spec fn same_address(a: SocketAddress, b: SocketAddress) -> bool {
    a.host@ == b.host@ && a.port == b.port
}

/// Whether `s` describes the request `head` that arrived on `server` from
/// `client` under `scheme`, before any upgrade.
pub open spec fn scope_of(
    s: Scope,
    server: SocketAddress,
    client: SocketAddress,
    head: RequestHead,
    scheme: Seq<char>,
) -> bool {
    &&& s.proto@ == PROTO_HTTP@
    &&& s.http_version == head.version
    &&& s.scheme@ == scheme
    &&& s.uri@ == head.uri@
    &&& s.method@ == head.method@
    &&& same_address(s.server, server)
    &&& same_address(s.client, client)
    &&& s.headers@ == head.headers@
}

/// Whether two scopes are equal field by field.
pub open spec fn same_scope(a: Scope, b: Scope) -> bool {
    &&& a.proto@ == b.proto@
    &&& a.http_version == b.http_version
    &&& a.scheme@ == b.scheme@
    &&& a.uri@ == b.uri@
    &&& a.method@ == b.method@
    &&& same_address(a.server, b.server)
    &&& same_address(a.client, b.client)
    &&& a.headers@ == b.headers@
}

/// Builds the scope of a request. It cannot fail; the protocol tag starts
/// as `"http"`.
pub fn build_scope(
    server: SocketAddress,
    client: SocketAddress,
    head: RequestHead,
    scheme: &str,
) -> (r: Scope)
    ensures
        scope_of(r, server, client, head, scheme@),
{
    Scope {
        proto: PROTO_HTTP.to_owned(),
        http_version: head.version,
        scheme: scheme.to_owned(),
        uri: head.uri,
        method: head.method,
        server,
        client,
        headers: head.headers,
    }
}

/// Building the scope twice from the same request gives structurally equal
/// scopes.
pub proof fn lemma_build_scope_deterministic(
    a: Scope,
    b: Scope,
    server: SocketAddress,
    client: SocketAddress,
    head: RequestHead,
    scheme: Seq<char>,
)
    requires
        scope_of(a, server, client, head, scheme),
        scope_of(b, server, client, head, scheme),
    ensures
        same_scope(a, b),
{
}

impl Scope {
    /// Marks the scope as a WebSocket upgrade, leaving the rest as it was.
    pub fn set_ws(&mut self)
        ensures
            final(self).proto@ == PROTO_WS@,
            final(self).http_version == old(self).http_version,
            final(self).scheme == old(self).scheme,
            final(self).uri == old(self).uri,
            final(self).method == old(self).method,
            final(self).server == old(self).server,
            final(self).client == old(self).client,
            final(self).headers == old(self).headers,
    {
        self.proto = PROTO_WS.to_owned();
    }
}

} // verus!
