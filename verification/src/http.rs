//! Plain-value model of the HTTP exchanges the client performs.
//!
//! A request is an immutable value that can be sent any number of times;
//! a response is a status, an optional CSRF header and a body.  The
//! [`Transport`] trait is the library's only door to the network: the
//! embedding program supplies an implementation that performs real I/O and
//! keeps the cookie jar, while [`crate::scripted::ScriptedTransport`] answers
//! from a prepared script so the protocol can be exercised in tests.

use vstd::prelude::*;

verus! {

/// The HTTP method of a request built by this client.
#[derive(Debug, Clone, Copy, PartialEq, Eq, Structural)]
pub enum Method {
    Get,
    Post,
}

/// The body a request carries, as a structured value.  Serialising it to
/// JSON on the wire is the transport's business.
#[derive(Debug, Clone)]
pub enum RequestBody {
    /// No body (the listing requests).
    Empty,
    /// The login payload.
    Login { username: String, password: String },
    /// The station-manager command payload.
    Command { cmd: String, mac: String },
}

/// One not-yet-sent HTTP request.  An immutable value object: duplicating it
/// always succeeds, which is what lets the client replay a request after
/// re-authenticating.
#[derive(Debug)]
pub struct HttpRequest {
    pub method: Method,
    pub url: String,
    /// The CSRF token attached as the `x-csrf-token` header, if any.
    pub csrf_token: Option<String>,
    pub body: RequestBody,
}

/// One HTTP response, reduced to what the client reads.
#[derive(Debug)]
pub struct HttpResponse {
    pub status: u16,
    /// The value of the response's `x-csrf-token` header, if present.
    pub csrf_token: Option<String>,
    pub body: String,
}

/// A connection-level failure: the exchange produced no response at all.
#[derive(Debug)]
pub struct TransportFault {
    pub message: String,
}

/// The mathematical value of a [`RequestBody`].
pub enum BodyView {
    Empty,
    Login { username: Seq<char>, password: Seq<char> },
    Command { cmd: Seq<char>, mac: Seq<char> },
}

/// The mathematical value of an [`HttpRequest`].
pub struct RequestView {
    pub method: Method,
    pub url: Seq<char>,
    pub csrf_token: Option<Seq<char>>,
    pub body: BodyView,
}

/// The mathematical value of an [`HttpResponse`].
pub struct ResponseView {
    pub status: u16,
    pub csrf_token: Option<Seq<char>>,
    pub body: Seq<char>,
}

impl View for RequestBody {
    type V = BodyView;

    open spec fn view(&self) -> BodyView {
        match self {
            RequestBody::Empty => BodyView::Empty,
            RequestBody::Login { username, password } => BodyView::Login {
                username: username@,
                password: password@,
            },
            RequestBody::Command { cmd, mac } => BodyView::Command { cmd: cmd@, mac: mac@ },
        }
    }
}

impl View for HttpRequest {
    type V = RequestView;

    open spec fn view(&self) -> RequestView {
        RequestView {
            method: self.method,
            url: self.url@,
            csrf_token: self.csrf_token.deep_view(),
            body: self.body@,
        }
    }
}

impl View for HttpResponse {
    type V = ResponseView;

    open spec fn view(&self) -> ResponseView {
        ResponseView {
            status: self.status,
            csrf_token: self.csrf_token.deep_view(),
            body: self.body@,
        }
    }
}

/// Whether a status is a failure in the sense of the protocol: the client
/// treats 400–599 as failures and everything else as success.
pub open spec fn spec_is_error_status(status: u16) -> bool {
    400 <= status < 600
}

/// The one failure status that triggers re-authentication.
pub open spec fn spec_is_unauthorized(status: u16) -> bool {
    status == 401
}

#[verifier::when_used_as_spec(spec_is_error_status)]
pub fn is_error_status(status: u16) -> (r: bool)
    ensures
        r == spec_is_error_status(status),
{
    400 <= status && status < 600
}

#[verifier::when_used_as_spec(spec_is_unauthorized)]
pub fn is_unauthorized(status: u16) -> (r: bool)
    ensures
        r == spec_is_unauthorized(status),
{
    status == 401
}

impl RequestBody {
    /// An equal copy of the body.
    pub fn duplicate(&self) -> (r: RequestBody)
        ensures
            r@ == self@,
    {
        match self {
            RequestBody::Empty => RequestBody::Empty,
            RequestBody::Login { username, password } => RequestBody::Login {
                username: username.clone(),
                password: password.clone(),
            },
            RequestBody::Command { cmd, mac } => RequestBody::Command {
                cmd: cmd.clone(),
                mac: mac.clone(),
            },
        }
    }
}

impl HttpRequest {
    /// An equal copy of the request.  Duplication always succeeds: a
    /// request is a plain value, so it can be replayed any number of times.
    pub fn duplicate(&self) -> (r: HttpRequest)
        ensures
            r@ == self@,
    {
        HttpRequest {
            method: self.method,
            url: self.url.clone(),
            csrf_token: match &self.csrf_token {
                Some(t) => Some(t.clone()),
                None => None,
            },
            body: self.body.duplicate(),
        }
    }
}

impl HttpResponse {
    /// An equal copy of the response.
    pub fn duplicate(&self) -> (r: HttpResponse)
        ensures
            r@ == self@,
    {
        HttpResponse {
            status: self.status,
            csrf_token: match &self.csrf_token {
                Some(t) => Some(t.clone()),
                None => None,
            },
            body: self.body.clone(),
        }
    }
}

impl TransportFault {
    /// An equal copy of the fault.
    pub fn duplicate(&self) -> (r: TransportFault)
        ensures
            r.message@ == self.message@,
    {
        TransportFault { message: self.message.clone() }
    }
}

/// One request/response exchange as the client saw it: what was sent, and
/// either the response or the transport fault's message.  Values of this
/// type exist only in specifications; the client keeps a ghost log of them.
pub struct Exchange {
    pub request: RequestView,
    pub outcome: Result<ResponseView, Seq<char>>,
}

/// An executor of HTTP exchanges with cookie persistence.
///
/// The trait promises nothing about the response: the client is verified to
/// behave correctly whatever comes back, and records what it sent and
/// received in its own ghost log.  Implementations must keep cookies across
/// the calls made through one value (transport-level session affinity); the
/// library cannot check that, and does not rely on it in any proof.
pub trait Transport {
    fn execute(&mut self, request: &HttpRequest) -> Result<HttpResponse, TransportFault>;
}

} // verus!
