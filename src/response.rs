//! Response descriptions: what the application hands back, and the plan of
//! the one response that goes to the transport.
use vstd::prelude::*;
use vstd::string::StringSliceAdditionalSpecFns;
use vstd::utf8::encode_utf8;
use crate::wire::{status_code, headers_ok, valid_status, valid_headers};

verus! {

/// Name of the header that identifies the server on every response built
/// here.
pub const SERVER_HEADER: &'static str = "server";

/// Where the body of a response comes from.
pub enum BodySource {
    /// The bytes, held in memory.
    Bytes(Vec<u8>),
    /// A file, streamed as it is read.
    File(String),
}

/// The response that the application callback produced: a status, headers,
/// and exactly one of a payload or a file path.
pub struct ResponseDescriptor {
    pub status: u16,
    pub headers: Vec<(String, String)>,
    pub body: BodySource,
}

/// A response ready for the wire: its status and headers have been checked.
pub struct ResponsePlan {
    pub status: u16,
    pub headers: Vec<(String, String)>,
    pub body: BodySource,
}

/// Settings of the responses that are built here rather than by the
/// application.
pub struct Responder {
    /// Value of the server identification header.
    pub server: String,
}

/// Whether `b` is an in-memory body equal to `bytes`.
pub open spec fn body_is_bytes(b: BodySource, bytes: Seq<u8>) -> bool {
    match b {
        BodySource::Bytes(v) => v@ == bytes,
        BodySource::File(_) => false,
    }
}

/// Whether `h` is the single server identification header with value
/// `server`.
pub open spec fn only_server_header(h: Seq<(String, String)>, server: Seq<char>) -> bool {
    &&& h.len() == 1
    &&& h[0].0@ == SERVER_HEADER@
    &&& h[0].1@ == server
}

/// Whether `p` is a response of this core with the given status and body.
pub open spec fn plain_response(p: ResponsePlan, status: u16, body: Seq<u8>, server: Seq<char>) -> bool {
    &&& p.status == status
    &&& only_server_header(p.headers@, server)
    &&& body_is_bytes(p.body, body)
}

/// Whether `p` is the fixed fallback: `500`, the server header, no body.
pub open spec fn is_fallback(p: ResponsePlan, server: Seq<char>) -> bool {
    plain_response(p, 500, Seq::empty(), server)
}

/// The status sent for a WebSocket session whose callback asked for
/// `status`: the status itself where it is a valid code, else `403`.
pub open spec fn session_status(status: i32) -> u16 {
    if 0 <= status <= u16::MAX && valid_status(status as int) {
        status as u16
    } else {
        403
    }
}

/// Whether a descriptor can be turned into a response as it stands.
pub open spec fn descriptor_valid(d: ResponseDescriptor) -> bool {
    valid_status(d.status as int) && valid_headers(d.headers@)
}

impl Responder {
    pub fn new(server: String) -> (r: Responder)
        ensures
            r.server == server,
    {
        Responder { server }
    }

    /// A response of the given status with the server header and `body`.
    fn plain(&self, status: u16, body: Vec<u8>) -> (r: ResponsePlan)
        ensures
            plain_response(r, status, body@, self.server@),
    {
        let mut headers: Vec<(String, String)> = Vec::new();
        headers.push((SERVER_HEADER.to_owned(), self.server.clone()));
        ResponsePlan { status, headers, body: BodySource::Bytes(body) }
    }

    /// The universal last resort: `500`, the server header, an empty body.
    pub fn fallback(&self) -> (r: ResponsePlan)
        ensures
            is_fallback(r, self.server@),
    {
        self.plain(500, Vec::new())
    }

    /// The answer to a failed WebSocket handshake: `400`, with the
    /// description of the failure as its body.
    pub fn bad_request(&self, description: &str) -> (r: ResponsePlan)
        ensures
            plain_response(r, 400, encode_utf8(description@), self.server@),
    {
        let mut body: Vec<u8> = Vec::new();
        let bytes = description.as_bytes();
        let mut i: usize = 0;
        while i < bytes.len()
            invariant
                bytes@ == description.spec_bytes(),
                i <= bytes@.len(),
                body@ == bytes@.subrange(0, i as int),
            decreases bytes@.len() - i,
        {
            body.push(bytes[i]);
            i = i + 1;
        }
        assert(body@ =~= bytes@);
        self.plain(400, body)
    }

    /// What a WebSocket session sends back on the reply channel once its
    /// callback has returned. `outcome` is `None` when the callback failed,
    /// else its status and whether it already sent the response itself.
    /// A result of `None` means that nothing is sent.
    pub fn session_reply(&self, outcome: Option<(i32, bool)>) -> (r: Option<ResponsePlan>)
        ensures
            match outcome {
                None => r is Some && is_fallback(r->0, self.server@),
                Some((_, true)) => r is None,
                Some((status, false)) => r is Some && plain_response(
                    r->0,
                    session_status(status),
                    Seq::empty(),
                    self.server@,
                ),
            },
    {
        match outcome {
            None => Some(self.fallback()),
            Some((_, true)) => None,
            Some((status, false)) => {
                let mut code: u16 = 403;
                if 0 <= status && status <= 65535 {
                    match status_code(status as u16) {
                        Some(c) => {
                            code = c;
                        },
                        None => {},
                    }
                }
                Some(self.plain(code, Vec::new()))
            },
        }
    }

    /// Turns the application's descriptor into the response to send: the
    /// descriptor as it is where its status and headers are valid, else the
    /// fallback. A file body is still a path here; opening it is the
    /// caller's, see [`Responder::file_opened`].
    pub fn materialize(&self, d: ResponseDescriptor) -> (r: ResponsePlan)
        ensures
            descriptor_valid(d) ==> r == (ResponsePlan {
                status: d.status,
                headers: d.headers,
                body: d.body,
            }),
            !descriptor_valid(d) ==> is_fallback(r, self.server@),
    {
        let status_ok = status_code(d.status).is_some();
        if status_ok && headers_ok(&d.headers) {
            ResponsePlan { status: d.status, headers: d.headers, body: d.body }
        } else {
            self.fallback()
        }
    }

    /// The response to send once the file of a planned file body has been
    /// opened, or has failed to open: the plan itself, or the fallback.
    pub fn file_opened(&self, plan: ResponsePlan, opened: bool) -> (r: ResponsePlan)
        ensures
            opened ==> r == plan,
            !opened ==> is_fallback(r, self.server@),
    {
        if opened {
            plan
        } else {
            self.fallback()
        }
    }
}

} // verus!
