//! The HTTP bridge: what is sent for a request, and what the front-end
//! gets back for each outcome of the exchange.
//!
//! The exchange runs in two awaited steps, performed by the host: the
//! request is sent, then the response body is read as text. After each
//! step the bridge decides what comes next.

use std::collections::HashMap;
use vstd::prelude::*;
use crate::method::{HttpMethod, method_named, parse_method, upper_of};

verus! {

/// A request described by the front-end.
#[derive(Debug)]
pub struct HttpRequest {
    pub url: String,
    /// The method name, in any letter case.
    pub method: String,
    pub headers: HashMap<String, String>,
    pub body: Option<String>,
}

/// What the front-end gets back from a completed exchange.
#[derive(Debug)]
pub struct HttpResponse {
    pub status: u16,
    pub body: String,
}

/// A request whose method has been dispatched, ready to be sent as it is.
#[derive(Debug)]
pub struct OutgoingRequest {
    pub method: HttpMethod,
    pub url: String,
    /// Attached to the outgoing request one for one, none stripped.
    pub headers: HashMap<String, String>,
    /// Attached verbatim when present; no payload at all when absent.
    pub body: Option<String>,
}

/// What the bridge does after the request has been sent.
#[derive(Debug)]
pub enum FetchStep {
    /// A response came with this status: read its body as text next.
    ReadBody { status: u16 },
    /// The exchange is over with this outcome.
    Done(Result<HttpResponse, String>),
}

pub open spec fn unsupported_message(method: Seq<char>) -> Seq<char> {
    "Unsupported HTTP method: "@ + method
}

pub open spec fn transport_message(cause: Seq<char>) -> Seq<char> {
    "HTTP request failed: "@ + cause
}

pub open spec fn body_message(cause: Seq<char>) -> Seq<char> {
    "Failed to read response body: "@ + cause
}

/// A refused method's message holds the method exactly as the front-end
/// wrote it, not its upper-case form.
pub proof fn lemma_refusal_names_method(method: Seq<char>)
    ensures
        exists|i: int|
            0 <= i && i + method.len() <= unsupported_message(method).len()
                && #[trigger] unsupported_message(method).subrange(i, i + method.len()) == method,
{
    let msg = unsupported_message(method);
    let i = "Unsupported HTTP method: "@.len() as int;
    assert(msg.subrange(i, i + method.len()) =~= method);
}

/// Whatever the transport reported, a failed exchange's message starts
/// with "HTTP request failed:".
pub proof fn lemma_transport_failure_prefixed(cause: Seq<char>)
    ensures
        transport_message(cause).subrange(0, "HTTP request failed:"@.len() as int)
            == "HTTP request failed:"@,
{
    reveal_strlit("HTTP request failed: ");
    reveal_strlit("HTTP request failed:");
    assert(transport_message(cause).subrange(0, "HTTP request failed:"@.len() as int)
        =~= "HTTP request failed:"@);
}

/// `prefix` followed by `rest`.
pub(crate) fn prefixed(prefix: &str, rest: &str) -> (r: String)
    ensures
        r@ == prefix@ + rest@,
{
    let mut msg = String::from_str(prefix);
    msg.append(rest);
    msg
}

/// Turns the front-end's request into the request to send, or refuses it
/// when its method is not one of the supported verbs. Nothing is sent for a
/// refused request.
pub fn prepare_request(request: HttpRequest) -> (r: Result<OutgoingRequest, String>)
    ensures
        match method_named(upper_of(request.method@)) {
            Some(m) => r is Ok && r->Ok_0.method == m,
            None => r is Err && r->Err_0@ == unsupported_message(request.method@),
        },
        r is Ok ==> {
            let out = r->Ok_0;
            &&& out.url@ == request.url@
            &&& out.headers@ == request.headers@
            &&& forall|k: String| #[trigger]
                request.headers@.contains_key(k) ==> out.headers@.contains_key(k)
                    && out.headers@[k] == request.headers@[k]
            &&& out.body == request.body
        },
{
    match parse_method(request.method.as_str()) {
        Some(m) => Ok(
            OutgoingRequest {
                method: m,
                url: request.url,
                headers: request.headers,
                body: request.body,
            },
        ),
        None => Err(prefixed("Unsupported HTTP method: ", request.method.as_str())),
    }
}

/// Decides what follows the sending of the request: `sent` is the status
/// of the response, or the transport's description of why none came.
pub fn after_send(sent: Result<u16, String>) -> (r: FetchStep)
    ensures
        match sent {
            Ok(status) => r == FetchStep::ReadBody { status },
            Err(cause) => r is Done && r->Done_0 is Err
                && r->Done_0->Err_0@ == transport_message(cause@),
        },
{
    match sent {
        Ok(status) => FetchStep::ReadBody { status },
        Err(cause) => FetchStep::Done(Err(prefixed("HTTP request failed: ", cause.as_str()))),
    }
}

/// The bridge's result once the body of a response with `status` has been
/// read: `read` is its text, or the description of why it could not be
/// decoded.
pub fn after_read(status: u16, read: Result<String, String>) -> (r: Result<HttpResponse, String>)
    ensures
        match read {
            Ok(text) => r is Ok && r->Ok_0.status == status && r->Ok_0.body@ == text@,
            Err(cause) => r is Err && r->Err_0@ == body_message(cause@),
        },
{
    match read {
        Ok(text) => Ok(HttpResponse { status, body: text }),
        Err(cause) => Err(prefixed("Failed to read response body: ", cause.as_str())),
    }
}

} // verus!
