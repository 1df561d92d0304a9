//! One outbound call, step by step. Each step is a function from the call's
//! state and what the transport reported to the next state, so that the
//! caller's context is handed back exactly once, on success and on failure,
//! and a request whose body cannot be encoded never reaches the pool.
use vstd::prelude::*;
use crate::context::{display_body_key, display_headers_key, has_key, Context, ContextView};
use crate::encoding::{
    accept_encoding_header, accept_encoding_name, accepted_encodings, accepted_encodings_value,
    compress, failure_of, outbound_coding, sends_unchanged, EncodingError,
};
use crate::headers::{without_name, Headers};
use crate::uri::Uri;
use crate::bytes::lower_bytes;

verus! {

/// Seconds an idle pooled connection is kept before it is closed.
pub const POOL_IDLE_TIMEOUT_SECS: u64 = 5;

/// Seconds of idleness before a TCP keepalive probe is sent.
pub const TCP_KEEPALIVE_SECS: u64 = 60;

/// A request as the caller hands it in; its body is read separately.
pub struct Request {
    pub method: String,
    pub uri: Uri,
    pub headers: Headers,
    pub context: Context,
}

/// The request as it goes on the wire, with its body buffered and encoded.
pub struct Outbound {
    pub method: String,
    pub uri: Uri,
    pub headers: Headers,
    pub body: Vec<u8>,
}

/// The status and headers of a response; its body is streamed by the transport.
pub struct ResponseHead {
    pub status: u16,
    pub headers: Headers,
}

/// A completed call: the response head and the caller's context.
pub struct Response {
    pub status: u16,
    pub headers: Headers,
    pub context: Context,
}

/// Where a call failed.
#[derive(Clone, Copy, Debug, PartialEq, Eq, Structural)]
pub enum Stage {
    /// Reading the outbound body.
    BodyRead,
    /// Encoding the outbound body.
    Compression,
    /// Waiting for the pool to accept a call.
    Readiness,
    /// Resolving, connecting or exchanging the request with the peer.
    Fetch,
}

/// How a transport failure came about, as the transport reports it.
#[derive(Clone, Copy, Debug, PartialEq, Eq, Structural)]
pub enum FetchFailure {
    /// Resolving the host, the TCP connection or the TLS handshake failed.
    Connect,
    /// Any other failure of the pool or the exchange.
    Transport,
}

/// What went wrong in a call.
pub enum CallError {
    BodyRead(String),
    Encoding(EncodingError),
    Connect(String),
    Transport(String),
}

/// A failed call: the stage, the error and the caller's context.
pub struct Failure {
    pub stage: Stage,
    pub error: CallError,
    pub context: Context,
}

/// A request ready to be dispatched once the pool accepts a call.
pub struct Prepared {
    pub request: Outbound,
    pub context: Context,
    /// The caller asked for headers to be logged.
    pub display_headers: bool,
    /// The caller asked for the outbound body to be logged.
    pub display_body: bool,
}

/// A dispatched request, waiting for the response head. It holds the
/// caller's context with this call counted as in flight.
pub struct InFlight {
    context: Context,
    display_headers: bool,
}

/// The context while the call is in flight: one more call counted.
pub open spec fn entered(c: ContextView) -> ContextView {
    ContextView { active_requests: c.active_requests + 1, ..c }
}

/// The context once the response or the failure has come back: the call
/// counted by `entered` no longer counted.
pub open spec fn released(c: ContextView) -> ContextView {
    ContextView { active_requests: (c.active_requests - 1) as nat, ..c }
}

impl InFlight {
    /// The context counts this call, so releasing it never goes below zero.
    #[verifier::type_invariant]
    spec fn counts_this_call(&self) -> bool {
        self.context@.active_requests >= 1
    }

    /// The context as it stands while the call is in flight.
    pub closed spec fn context_view(&self) -> ContextView {
        self.context@
    }

    /// Whether the caller asked for headers to be logged.
    pub closed spec fn shows_headers(&self) -> bool {
        self.display_headers
    }

    /// The context as it stands while the call is in flight.
    pub fn context(&self) -> (r: &Context)
        ensures
            r@ == self.context_view(),
    {
        &self.context
    }

    /// Whether the caller asked for headers to be logged.
    pub fn display_headers(&self) -> (r: bool)
        ensures
            r == self.shows_headers(),
    {
        self.display_headers
    }
}

/// The headers a request goes out with: the caller's, with `Accept-Encoding`
/// set to the codings this client decodes.
pub open spec fn outbound_headers(headers: Seq<(Seq<u8>, Seq<u8>)>) -> Seq<(Seq<u8>, Seq<u8>)> {
    without_name(headers, accept_encoding_name()).push((accept_encoding_name(), accepted_encodings()))
}

/// Steps 1 to 5 of a call: takes the outcome of buffering the body, encodes
/// it as the request's `Content-Encoding` says, and sets `Accept-Encoding`.
/// A body that could not be read, or a coding that cannot be applied, ends
/// the call here and hands the context back untouched.
pub fn prepare(request: Request, body: Result<Vec<u8>, String>) -> (r: Result<Prepared, Failure>)
    ensures
        body is Err ==> (r matches Err(f) && f.stage == Stage::BodyRead && (f.error matches CallError::BodyRead(m)
            && body == Err::<Vec<u8>, String>(m)) && f.context@ == request.context@),
        body is Ok && !sends_unchanged(request.headers@) ==> (r matches Err(f) && f.stage
            == Stage::Compression && (f.error matches CallError::Encoding(e) && outbound_coding(
            request.headers@,
        ) == Some(e.encoding@) && e.failure == failure_of(e.encoding@)) && f.context@
            == request.context@),
        body is Ok && sends_unchanged(request.headers@) ==> (r matches Ok(p) && p.request.body@
            == body->Ok_0@ && p.request.method@ == request.method@ && p.request.uri == request.uri
            && p.request.headers@ == outbound_headers(request.headers@)
            && p.context@ == request.context@ && p.display_headers == has_key(
            request.context@.entries,
            display_headers_key(),
        ) && p.display_body == has_key(request.context@.entries, display_body_key())),
{
    let Request { method, uri, mut headers, context } = request;
    let bytes = match body {
        Ok(b) => b,
        Err(m) => {
            return Err(Failure { stage: Stage::BodyRead, error: CallError::BodyRead(m), context });
        },
    };
    let encoded = match compress(bytes, &headers) {
        Ok(b) => b,
        Err(e) => {
            return Err(Failure { stage: Stage::Compression, error: CallError::Encoding(e), context });
        },
    };
    let name = accept_encoding_header();
    let value = accepted_encodings_value();
    proof {
        assert(lower_bytes(accept_encoding_name()) =~= accept_encoding_name());
    }
    headers.insert(name.as_slice(), value.as_slice());
    let display_headers = context.displays_headers();
    let display_body = context.displays_body();
    Ok(Prepared {
        request: Outbound { method, uri, headers, body: encoded },
        context,
        display_headers,
        display_body,
    })
}

impl Prepared {
    /// Step 6: once the pool has said whether it accepts a call, marks the
    /// context as in flight and hands out the request to send; a pool that
    /// refused ends the call with the context handed back.
    pub fn on_ready(self, ready: Result<(), String>) -> (r: Result<(InFlight, Outbound), Failure>)
        requires
            self.context@.active_requests < u64::MAX,
        ensures
            ready is Ok ==> (r matches Ok((f, o)) && f.context_view() == entered(self.context@)
                && f.shows_headers() == self.display_headers && o.body@
                == self.request.body@ && o.headers@ == self.request.headers@ && o.method@
                == self.request.method@ && o.uri == self.request.uri),
            ready is Err ==> (r matches Err(f) && f.stage == Stage::Readiness && (f.error matches CallError::Transport(m)
                && ready == Err::<(), String>(m)) && f.context@ == self.context@),
    {
        let Prepared { request, mut context, display_headers, display_body: _ } = self;
        match ready {
            Ok(()) => {
                context.enter_active_request();
                Ok((InFlight { context, display_headers }, request))
            },
            Err(m) => Err(Failure { stage: Stage::Readiness, error: CallError::Transport(m), context }),
        }
    }
}

impl InFlight {
    /// Steps 7 and 8: stops counting this call as in flight and hands the
    /// context back, as `Prepared::on_ready` received it, with the response
    /// head or with the failure the transport reported.
    pub fn on_response(self, outcome: Result<ResponseHead, (FetchFailure, String)>) -> (r: Result<
        Response,
        Failure,
    >)
        ensures
            outcome is Ok ==> (r matches Ok(resp) && resp.status == outcome->Ok_0.status
                && resp.headers@ == outcome->Ok_0.headers@ && resp.context@ == released(
                self.context_view(),
            )),
            outcome is Err ==> (r matches Err(f) && f.stage == Stage::Fetch && f.context@
                == released(self.context_view()) && match outcome->Err_0.0 {
                FetchFailure::Connect => f.error matches CallError::Connect(m) && m
                    == outcome->Err_0.1,
                FetchFailure::Transport => f.error matches CallError::Transport(m) && m
                    == outcome->Err_0.1,
            }),
    {
        proof {
            use_type_invariant(&self);
        }
        let InFlight { mut context, display_headers: _ } = self;
        context.leave_active_request();
        match outcome {
            Ok(head) => Ok(Response { status: head.status, headers: head.headers, context }),
            Err((FetchFailure::Connect, m)) => Err(
                Failure { stage: Stage::Fetch, error: CallError::Connect(m), context },
            ),
            Err((FetchFailure::Transport, m)) => Err(
                Failure { stage: Stage::Fetch, error: CallError::Transport(m), context },
            ),
        }
    }
}

/// A call that reaches the pool counts itself in the context while it is in
/// flight and hands the context back exactly as it was supplied: the same
/// entries and the same count of calls in flight.
pub proof fn lemma_context_handed_back(supplied: ContextView)
    ensures
        entered(supplied).entries == supplied.entries,
        entered(supplied).active_requests == supplied.active_requests + 1,
        released(entered(supplied)) == supplied,
{
}

} // verus!
