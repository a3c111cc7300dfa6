//! The authenticated client: the session manager around the router's
//! private web API.
//!
//! Every operation funnels through [`UnifiDreamRouter::guarded_send`]: the
//! stored CSRF token is attached to the request, the request goes out once,
//! and a 401 answer triggers one login followed by one replay of the very
//! same request.  The whole protocol — which requests leave in which order,
//! what the stored token becomes, which error the caller sees — is the spec
//! function [`guarded_send_spec`], a function of the starting state and of
//! the transport's answers; the client's contracts say that the code follows
//! it exactly, and the proof functions at the end of the module state the
//! protocol's laws.

use vstd::prelude::*;
use vstd::string::StringExecFns;

use crate::credentials::{CredentialProvider, CredentialsView};
use crate::error::{AuthReason, ErrorView, RouterError};
use crate::http::{
    spec_is_error_status, spec_is_unauthorized, BodyView, Exchange, HttpRequest, HttpResponse,
    Method, RequestBody, RequestView, ResponseView, Transport, TransportFault,
};
use crate::http::is_error_status;
use crate::http::is_unauthorized;
use crate::json::{decode_listing, spec_decode_listing};
use crate::router::{Client, ClientView, Router};
use crate::session::{token_after, tokens_through};

verus! {

// ---------------------------------------------------------------------------
// The protocol, as a function of the transport's answers.
// ---------------------------------------------------------------------------

/// What one run of the protocol did: the requests it sent, the result the
/// caller sees, and the token left in the session.
pub struct ProtocolRun {
    pub sent: Seq<RequestView>,
    pub outcome: Result<ResponseView, ErrorView>,
    pub token: Option<Seq<char>>,
}

/// `req` with the given token attached as its CSRF header.
pub open spec fn attach_csrf(req: RequestView, token: Option<Seq<char>>) -> RequestView {
    RequestView { csrf_token: token, ..req }
}

/// The login request for the given credentials.  It carries no CSRF header.
pub open spec fn login_request(login_url: Seq<char>, cred: CredentialsView) -> RequestView {
    RequestView {
        method: Method::Post,
        url: login_url,
        csrf_token: None,
        body: BodyView::Login { username: cred.username, password: cred.password },
    }
}

/// The login flow.  `cred` is the provider's answer for the client's host;
/// `oracle` holds the transport's answers from the login POST on.  Without
/// credentials nothing is sent; otherwise the credentials are POSTed once,
/// a failure status is final, and a success response updates the token.
pub open spec fn login_spec(
    token: Option<Seq<char>>,
    cred: Option<CredentialsView>,
    login_url: Seq<char>,
    oracle: Seq<Result<ResponseView, Seq<char>>>,
) -> ProtocolRun {
    match cred {
        None => ProtocolRun {
            sent: seq![],
            outcome: Err(ErrorView::Authentication { reason: AuthReason::CredentialsNotFound }),
            token,
        },
        Some(c) => {
            let lreq = login_request(login_url, c);
            if oracle.len() == 0 {
                ProtocolRun { sent: seq![], outcome: Err(ErrorView::InternalInvariant), token }
            } else {
                match oracle[0] {
                    Err(message) => ProtocolRun {
                        sent: seq![lreq],
                        outcome: Err(ErrorView::Transport { message }),
                        token,
                    },
                    Ok(resp) => {
                        if spec_is_error_status(resp.status) {
                            ProtocolRun {
                                sent: seq![lreq],
                                outcome: Err(
                                    ErrorView::Authentication {
                                        reason: AuthReason::LoginFailed { status: resp.status },
                                    },
                                ),
                                token,
                            }
                        } else {
                            ProtocolRun {
                                sent: seq![lreq],
                                outcome: Ok(resp),
                                token: token_after(token, resp.csrf_token),
                            }
                        }
                    },
                }
            }
        },
    }
}

/// The guarded-send protocol.  `req` is the caller's request (its CSRF field
/// is ignored: the stored token is attached); `oracle` holds the transport's
/// answers in order.  A success answer is handed back after the token
/// update; a 401 triggers the login flow and, when that succeeds, one replay
/// of the identical request; any other failure status is final at once.
pub open spec fn guarded_send_spec(
    req: RequestView,
    token: Option<Seq<char>>,
    cred: Option<CredentialsView>,
    login_url: Seq<char>,
    oracle: Seq<Result<ResponseView, Seq<char>>>,
) -> ProtocolRun {
    let first = attach_csrf(req, token);
    if oracle.len() == 0 {
        ProtocolRun { sent: seq![], outcome: Err(ErrorView::InternalInvariant), token }
    } else {
        match oracle[0] {
            Err(message) => ProtocolRun {
                sent: seq![first],
                outcome: Err(ErrorView::Transport { message }),
                token,
            },
            Ok(r0) => {
                if !spec_is_error_status(r0.status) {
                    ProtocolRun {
                        sent: seq![first],
                        outcome: Ok(r0),
                        token: token_after(token, r0.csrf_token),
                    }
                } else if !spec_is_unauthorized(r0.status) {
                    ProtocolRun {
                        sent: seq![first],
                        outcome: Err(ErrorView::UnexpectedStatus { status: r0.status }),
                        token,
                    }
                } else {
                    let lrun = login_spec(token, cred, login_url, oracle.skip(1));
                    match lrun.outcome {
                        Err(e) => ProtocolRun {
                            sent: seq![first] + lrun.sent,
                            outcome: Err(e),
                            token: lrun.token,
                        },
                        Ok(_) => {
                            if oracle.len() < 3 {
                                ProtocolRun {
                                    sent: seq![first] + lrun.sent,
                                    outcome: Err(ErrorView::InternalInvariant),
                                    token: lrun.token,
                                }
                            } else {
                                let sent = seq![first] + lrun.sent + seq![first];
                                match oracle[2] {
                                    Err(message) => ProtocolRun {
                                        sent,
                                        outcome: Err(ErrorView::Transport { message }),
                                        token: lrun.token,
                                    },
                                    Ok(r2) => {
                                        if !spec_is_error_status(r2.status) {
                                            ProtocolRun {
                                                sent,
                                                outcome: Ok(r2),
                                                token: token_after(lrun.token, r2.csrf_token),
                                            }
                                        } else if spec_is_unauthorized(r2.status) {
                                            ProtocolRun {
                                                sent,
                                                outcome: Err(
                                                    ErrorView::Authentication {
                                                        reason: AuthReason::RetryUnauthorized,
                                                    },
                                                ),
                                                token: lrun.token,
                                            }
                                        } else {
                                            ProtocolRun {
                                                sent,
                                                outcome: Err(
                                                    ErrorView::UnexpectedStatus {
                                                        status: r2.status,
                                                    },
                                                ),
                                                token: lrun.token,
                                            }
                                        }
                                    },
                                }
                            }
                        },
                    }
                }
            },
        }
    }
}

/// The view of a transport answer, for the ghost log.
pub open spec fn transport_outcome_view(r: &Result<HttpResponse, TransportFault>) -> Result<
    ResponseView,
    Seq<char>,
> {
    match r {
        Ok(resp) => Ok(resp@),
        Err(f) => Err(f.message@),
    }
}

// ---------------------------------------------------------------------------
// Endpoints.
// ---------------------------------------------------------------------------

pub open spec fn spec_login_url(host: Seq<char>) -> Seq<char> {
    "https://"@ + host + "/api/auth/login"@
}

pub open spec fn spec_site_url(host: Seq<char>) -> Seq<char> {
    "https://"@ + host + "/proxy/network/api/s/default"@
}

pub open spec fn spec_known_devices_url(host: Seq<char>) -> Seq<char> {
    "https://"@ + host + "/proxy/network/api/s/default/rest/user"@
}

pub open spec fn spec_connected_devices_url(host: Seq<char>) -> Seq<char> {
    "https://"@ + host + "/proxy/network/api/s/default/stat/sta"@
}

fn build_url(host: &str, suffix: &str) -> (r: String)
    ensures
        r@ == "https://"@ + host@ + suffix@,
{
    let mut s = String::from_str("https://");
    s.append(host);
    s.append(suffix);
    s
}

// ---------------------------------------------------------------------------
// Payload records.
// ---------------------------------------------------------------------------

/// One raw client record of a listing response.
#[derive(Debug, Clone)]
pub struct UnifiClient {
    /// The router's name for the device, when it reported one.
    pub name: Option<String>,
    pub mac: String,
}

/// The mathematical value of a [`UnifiClient`].
pub struct UnifiClientView {
    pub name: Option<Seq<char>>,
    pub mac: Seq<char>,
}

impl View for UnifiClient {
    type V = UnifiClientView;

    open spec fn view(&self) -> UnifiClientView {
        UnifiClientView { name: self.name.deep_view(), mac: self.mac@ }
    }
}

impl DeepView for UnifiClient {
    type V = UnifiClientView;

    open spec fn deep_view(&self) -> UnifiClientView {
        self.view()
    }
}

/// The display name of a raw record: the router's name, or the fixed
/// placeholder when the router reported none.
pub open spec fn spec_display_name(name: Option<Seq<char>>) -> Seq<char> {
    match name {
        Some(n) => n,
        None => "<unnamed client>"@,
    }
}

impl UnifiClient {
    /// The record's display name, with the placeholder for a nameless one.
    pub fn name(&self) -> (r: String)
        ensures
            r@ == spec_display_name(self@.name),
    {
        match &self.name {
            Some(n) => n.clone(),
            None => String::from_str("<unnamed client>"),
        }
    }
}

/// The payload that blocks a station.
#[derive(Debug, Clone)]
pub struct BlockCommand {
    pub cmd: String,
    pub mac: String,
}

impl BlockCommand {
    pub fn new(mac: &str) -> (r: Self)
        ensures
            r.cmd@ == "block-sta"@,
            r.mac@ == mac@,
    {
        BlockCommand { cmd: String::from_str("block-sta"), mac: String::from_str(mac) }
    }
}

/// The payload that unblocks a station.
#[derive(Debug, Clone)]
pub struct UnblockCommand {
    pub cmd: String,
    pub mac: String,
}

impl UnblockCommand {
    pub fn new(mac: &str) -> (r: Self)
        ensures
            r.cmd@ == "unblock-sta"@,
            r.mac@ == mac@,
    {
        UnblockCommand { cmd: String::from_str("unblock-sta"), mac: String::from_str(mac) }
    }
}

/// The request a command payload travels in: a POST of `{ cmd, mac }` to
/// the station-manager endpoint under the given site URL.
pub open spec fn command_request(site_url: Seq<char>, cmd: Seq<char>, mac: Seq<char>) -> RequestView {
    RequestView {
        method: Method::Post,
        url: site_url + "/cmd/stamgr"@,
        csrf_token: None,
        body: BodyView::Command { cmd, mac },
    }
}

/// Whether a request is a login: a POST of credentials to the login
/// endpoint.
pub open spec fn is_login_request(r: RequestView, login_url: Seq<char>) -> bool {
    r.url == login_url && r.body is Login
}

/// The request a listing is fetched with.
pub open spec fn listing_request(url: Seq<char>) -> RequestView {
    RequestView { method: Method::Get, url, csrf_token: None, body: BodyView::Empty }
}

// ---------------------------------------------------------------------------
// The client.
// ---------------------------------------------------------------------------

/// `request` with `token` attached as its CSRF header (replacing whatever
/// header the value held).
fn with_token(request: &HttpRequest, token: &Option<String>) -> (r: HttpRequest)
    ensures
        r@ == attach_csrf(request@, token.deep_view()),
{
    HttpRequest {
        method: request.method,
        url: request.url.clone(),
        csrf_token: match token {
            Some(t) => Some(t.clone()),
            None => None,
        },
        body: request.body.duplicate(),
    }
}

/// The authenticated client for one router.
///
/// Holds the four endpoint URLs (fixed at construction), the credential
/// provider, the transport, the stored CSRF token, and a ghost log of every
/// exchange performed, which the contracts are stated over.
pub struct UnifiDreamRouter<T, C> {
    transport: T,
    provider: C,
    login_url: String,
    known_devices_url: String,
    connected_devices_url: String,
    site_url: String,
    hostname: String,
    csrf_token: Option<String>,
    log: Ghost<Seq<Exchange>>,
}

impl<T: Transport, C: CredentialProvider> UnifiDreamRouter<T, C> {
    /// The stored CSRF token.
    pub closed spec fn token(&self) -> Option<Seq<char>> {
        self.csrf_token.deep_view()
    }

    /// Every exchange this client has performed, in order.
    pub closed spec fn log(&self) -> Seq<Exchange> {
        self.log@
    }

    pub closed spec fn hostname(&self) -> Seq<char> {
        self.hostname@
    }

    pub closed spec fn login_url(&self) -> Seq<char> {
        self.login_url@
    }

    pub closed spec fn known_devices_url(&self) -> Seq<char> {
        self.known_devices_url@
    }

    pub closed spec fn connected_devices_url(&self) -> Seq<char> {
        self.connected_devices_url@
    }

    pub closed spec fn site_url(&self) -> Seq<char> {
        self.site_url@
    }

    pub closed spec fn provider(&self) -> C {
        self.provider
    }

    /// The transport's current state.
    pub closed spec fn transport(&self) -> T {
        self.transport
    }

    /// Read access to the transport — the way a caller inspects a test
    /// double after driving the client.
    pub fn transport_ref(&self) -> (r: &T)
        ensures
            *r == self.transport(),
    {
        &self.transport
    }

    /// The provider's answer for this client's host.
    pub open spec fn cred(&self) -> Option<CredentialsView> {
        self.provider().creds_for(self.hostname())
    }

    /// What never changes across an operation: host, endpoints, provider.
    pub open spec fn same_config(pre: Self, post: Self) -> bool {
        &&& post.hostname() == pre.hostname()
        &&& post.login_url() == pre.login_url()
        &&& post.known_devices_url() == pre.known_devices_url()
        &&& post.connected_devices_url() == pre.connected_devices_url()
        &&& post.site_url() == pre.site_url()
        &&& post.provider() == pre.provider()
    }

    /// A fresh client for `hostname`: endpoints derived from the host, no
    /// token yet, an empty log.
    pub fn new(transport: T, provider: C, hostname: &str) -> (r: Self)
        ensures
            r.hostname() == hostname@,
            r.login_url() == spec_login_url(hostname@),
            r.known_devices_url() == spec_known_devices_url(hostname@),
            r.connected_devices_url() == spec_connected_devices_url(hostname@),
            r.site_url() == spec_site_url(hostname@),
            r.provider() == provider,
            r.token() is None,
            r.log() == Seq::<Exchange>::empty(),
    {
        UnifiDreamRouter {
            transport,
            provider,
            login_url: build_url(hostname, "/api/auth/login"),
            known_devices_url: build_url(hostname, "/proxy/network/api/s/default/rest/user"),
            connected_devices_url: build_url(hostname, "/proxy/network/api/s/default/stat/sta"),
            site_url: build_url(hostname, "/proxy/network/api/s/default"),
            hostname: String::from_str(hostname),
            csrf_token: None,
            log: Ghost(Seq::empty()),
        }
    }

    /// One exchange through the transport, recorded in the log.
    fn exchange(&mut self, request: &HttpRequest) -> (r: Result<HttpResponse, TransportFault>)
        ensures
            Self::same_config(*old(self), *final(self)),
            final(self).token() == old(self).token(),
            final(self).log() == old(self).log().push(
                Exchange { request: request@, outcome: transport_outcome_view(&r) },
            ),
    {
        let r = self.transport.execute(request);
        self.log = Ghost(
            self.log@.push(Exchange { request: request@, outcome: transport_outcome_view(&r) }),
        );
        r
    }

    /// Overwrites the stored token with the response's CSRF header; a
    /// response without the header leaves the token unchanged.
    fn store_token_from(&mut self, response: &HttpResponse)
        ensures
            Self::same_config(*old(self), *final(self)),
            final(self).log() == old(self).log(),
            final(self).token() == token_after(old(self).token(), response@.csrf_token),
    {
        match &response.csrf_token {
            Some(t) => {
                self.csrf_token = Some(t.clone());
            },
            None => {},
        }
    }

    /// The login flow: fetch credentials, POST them to the login endpoint,
    /// store the CSRF header of a success response.  Follows
    /// [`login_spec`] exactly; a lookup failure sends nothing (the log grows
    /// by the login POST alone, or not at all).
    pub fn login(&mut self) -> (r: Result<(), RouterError>)
        ensures
            Self::same_config(*old(self), *final(self)),
            old(self).log().is_prefix_of(final(self).log()),
            ({
                let delta = final(self).log().skip(old(self).log().len() as int);
                let run = login_spec(
                    old(self).token(),
                    old(self).cred(),
                    old(self).login_url(),
                    delta.map_values(|e: Exchange| e.outcome),
                );
                &&& delta.map_values(|e: Exchange| e.request) == run.sent
                &&& final(self).token() == run.token
                &&& (r matches Ok(u) ==> run.outcome is Ok)
                &&& (r matches Err(e) ==> run.outcome == Result::<ResponseView, ErrorView>::Err(
                    e@,
                ))
            }),
    {
        proof {
            assert(self.log().skip(old(self).log().len() as int) =~= Seq::<Exchange>::empty());
        }
        let cred = match self.provider.lookup(self.hostname.as_str()) {
            Some(c) => c,
            None => {
                proof {
                    assert(Seq::<Exchange>::empty().map_values(|e: Exchange| e.outcome) =~= Seq::<
                        Result<ResponseView, Seq<char>>,
                    >::empty());
                    assert(Seq::<Exchange>::empty().map_values(|e: Exchange| e.request) =~= Seq::<
                        RequestView,
                    >::empty());
                }
                return Err(RouterError::Authentication {
                    reason: AuthReason::CredentialsNotFound,
                });
            },
        };
        let request = HttpRequest {
            method: Method::Post,
            url: self.login_url.clone(),
            csrf_token: None,
            body: RequestBody::Login { username: cred.username, password: cred.password },
        };
        let outcome = self.exchange(&request);
        proof {
            let delta = self.log().skip(old(self).log().len() as int);
            assert(delta =~= seq![
                Exchange { request: request@, outcome: transport_outcome_view(&outcome) },
            ]);
            assert(delta.map_values(|e: Exchange| e.outcome) =~= seq![
                transport_outcome_view(&outcome),
            ]);
            assert(delta.map_values(|e: Exchange| e.request) =~= seq![request@]);
        }
        let resp = match outcome {
            Ok(resp) => resp,
            Err(f) => {
                return Err(RouterError::Transport { message: f.message });
            },
        };
        if is_error_status(resp.status) {
            return Err(RouterError::Authentication {
                reason: AuthReason::LoginFailed { status: resp.status },
            });
        }
        self.store_token_from(&resp);
        Ok(())
    }

    /// The guarded-send protocol around one request.  Follows
    /// [`guarded_send_spec`] exactly: the stored token is attached, a 401
    /// answer triggers one login and one replay of the identical request,
    /// and the stored token afterwards is what the spec says.
    pub fn guarded_send(&mut self, req: &HttpRequest) -> (r: Result<HttpResponse, RouterError>)
        ensures
            Self::same_config(*old(self), *final(self)),
            old(self).log().is_prefix_of(final(self).log()),
            final(self).log().len() > old(self).log().len(),
            final(self).log()[old(self).log().len() as int].request == attach_csrf(
                req@,
                old(self).token(),
            ),
            ({
                let delta = final(self).log().skip(old(self).log().len() as int);
                let run = guarded_send_spec(
                    req@,
                    old(self).token(),
                    old(self).cred(),
                    old(self).login_url(),
                    delta.map_values(|e: Exchange| e.outcome),
                );
                &&& delta.map_values(|e: Exchange| e.request) == run.sent
                &&& final(self).token() == run.token
                &&& (r matches Ok(resp) ==> run.outcome == Result::<ResponseView, ErrorView>::Ok(
                    resp@,
                ))
                &&& (r matches Err(e) ==> run.outcome == Result::<ResponseView, ErrorView>::Err(
                    e@,
                ))
            }),
    {
        let sent_req = with_token(req, &self.csrf_token);
        let first = self.exchange(&sent_req);
        proof {
            let delta = self.log().skip(old(self).log().len() as int);
            assert(delta =~= seq![
                Exchange { request: sent_req@, outcome: transport_outcome_view(&first) },
            ]);
            assert(delta.map_values(|e: Exchange| e.outcome) =~= seq![
                transport_outcome_view(&first),
            ]);
            assert(delta.map_values(|e: Exchange| e.request) =~= seq![sent_req@]);
        }
        let resp = match first {
            Ok(resp) => resp,
            Err(f) => {
                return Err(RouterError::Transport { message: f.message });
            },
        };
        if !is_error_status(resp.status) {
            self.store_token_from(&resp);
            return Ok(resp);
        }
        if !is_unauthorized(resp.status) {
            return Err(RouterError::UnexpectedStatus { status: resp.status });
        }
        // 401: log in once, then replay the identical request once.
        let ghost log_before_login = self.log();
        match self.login() {
            Ok(()) => {},
            Err(e) => {
                proof {
                    let delta = self.log().skip(old(self).log().len() as int);
                    let login_delta = self.log().skip(log_before_login.len() as int);
                    assert(delta =~= seq![
                        Exchange { request: sent_req@, outcome: transport_outcome_view(&first) },
                    ] + login_delta);
                    assert(delta.map_values(|e: Exchange| e.outcome) =~= seq![
                        transport_outcome_view(&first),
                    ] + login_delta.map_values(|e: Exchange| e.outcome));
                    assert(delta.map_values(|e: Exchange| e.outcome).skip(1) =~= login_delta.map_values(
                        |e: Exchange| e.outcome,
                    ));
                    assert(delta.map_values(|e: Exchange| e.request) =~= seq![sent_req@]
                        + login_delta.map_values(|e: Exchange| e.request));
                    let before = old(self).log();
                    assert forall|i: int| 0 <= i < before.len() implies self.log()[i]
                        == before[i] by {
                        assert(log_before_login[i] == before[i]);
                        assert(log_before_login.len() <= self.log().len());
                        assert(self.log().subrange(0, log_before_login.len() as int)[i]
                            == self.log()[i]);
                        assert(log_before_login[i] == self.log().subrange(
                            0,
                            log_before_login.len() as int,
                        )[i]);
                    }
                    assert(self.log() =~= old(self).log() + delta);
                    assert(old(self).log() =~= self.log().subrange(
                        0,
                        old(self).log().len() as int,
                    ));
                }
                return Err(e);
            },
        };
        let ghost log_after_login = self.log();
        let second = self.exchange(&sent_req);
        proof {
            let delta = self.log().skip(old(self).log().len() as int);
            let login_delta = log_after_login.skip(log_before_login.len() as int);
            assert(login_delta.len() == 1);
            assert(delta =~= seq![
                Exchange { request: sent_req@, outcome: transport_outcome_view(&first) },
            ] + login_delta + seq![
                Exchange { request: sent_req@, outcome: transport_outcome_view(&second) },
            ]);
            assert(delta.map_values(|e: Exchange| e.outcome) =~= seq![
                transport_outcome_view(&first),
            ] + login_delta.map_values(|e: Exchange| e.outcome) + seq![
                transport_outcome_view(&second),
            ]);
            assert(delta.map_values(|e: Exchange| e.outcome).skip(1) =~= login_delta.map_values(
                |e: Exchange| e.outcome,
            ) + seq![transport_outcome_view(&second)]);
            assert(delta.map_values(|e: Exchange| e.request) =~= seq![sent_req@]
                + login_delta.map_values(|e: Exchange| e.request) + seq![sent_req@]);
            assert(delta.map_values(|e: Exchange| e.outcome)[2] == transport_outcome_view(
                &second,
            ));
            let before = old(self).log();
            assert forall|i: int| 0 <= i < before.len() implies self.log()[i] == before[i] by {
                assert(log_before_login[i] == before[i]);
                assert(log_after_login.subrange(0, log_before_login.len() as int)[i]
                    == log_after_login[i]);
                assert(log_before_login[i] == log_after_login.subrange(
                    0,
                    log_before_login.len() as int,
                )[i]);
                assert(self.log()[i] == log_after_login[i]);
            }
            assert(self.log() =~= old(self).log() + delta);
            assert(old(self).log() =~= self.log().subrange(0, old(self).log().len() as int));
        }
        let resp2 = match second {
            Ok(resp) => resp,
            Err(f) => {
                return Err(RouterError::Transport { message: f.message });
            },
        };
        if !is_error_status(resp2.status) {
            self.store_token_from(&resp2);
            return Ok(resp2);
        }
        if is_unauthorized(resp2.status) {
            return Err(RouterError::Authentication { reason: AuthReason::RetryUnauthorized });
        }
        Err(RouterError::UnexpectedStatus { status: resp2.status })
    }

    /// Sends the station-manager command `cmd` for `mac` through the
    /// guarded-send protocol.
    fn send_command(&mut self, cmd: String, mac: String) -> (r: Result<(), RouterError>)
        ensures
            Self::same_config(*old(self), *final(self)),
            old(self).log().is_prefix_of(final(self).log()),
            final(self).log().len() > old(self).log().len(),
            final(self).log()[old(self).log().len() as int].request == attach_csrf(
                command_request(old(self).site_url(), cmd@, mac@),
                old(self).token(),
            ),
            ({
                let delta = final(self).log().skip(old(self).log().len() as int);
                let run = guarded_send_spec(
                    command_request(old(self).site_url(), cmd@, mac@),
                    old(self).token(),
                    old(self).cred(),
                    old(self).login_url(),
                    delta.map_values(|e: Exchange| e.outcome),
                );
                &&& delta.map_values(|e: Exchange| e.request) == run.sent
                &&& final(self).token() == run.token
                &&& (r matches Ok(u) ==> run.outcome is Ok)
                &&& (r matches Err(e) ==> run.outcome == Result::<ResponseView, ErrorView>::Err(
                    e@,
                ))
            }),
    {
        let mut url = self.site_url.clone();
        url.append("/cmd/stamgr");
        let request = HttpRequest {
            method: Method::Post,
            url,
            csrf_token: None,
            body: RequestBody::Command { cmd, mac },
        };
        match self.guarded_send(&request) {
            Ok(_) => Ok(()),
            Err(e) => Err(e),
        }
    }

    /// Blocks the client's MAC address: sends the `block-sta` command for it
    /// through the guarded-send protocol.
    pub fn block_client(&mut self, client: &Client) -> (r: Result<(), RouterError>)
        ensures
            Self::same_config(*old(self), *final(self)),
            old(self).log().is_prefix_of(final(self).log()),
            final(self).log().len() > old(self).log().len(),
            final(self).log()[old(self).log().len() as int].request == attach_csrf(
                command_request(old(self).site_url(), "block-sta"@, client.mac@),
                old(self).token(),
            ),
            ({
                let delta = final(self).log().skip(old(self).log().len() as int);
                let run = guarded_send_spec(
                    command_request(old(self).site_url(), "block-sta"@, client.mac@),
                    old(self).token(),
                    old(self).cred(),
                    old(self).login_url(),
                    delta.map_values(|e: Exchange| e.outcome),
                );
                &&& delta.map_values(|e: Exchange| e.request) == run.sent
                &&& final(self).token() == run.token
                &&& (r matches Ok(u) ==> run.outcome is Ok)
                &&& (r matches Err(e) ==> run.outcome == Result::<ResponseView, ErrorView>::Err(
                    e@,
                ))
            }),
    {
        let command = BlockCommand::new(client.mac.as_str());
        self.send_command(command.cmd, command.mac)
    }

    /// Unblocks the client's MAC address: sends the `unblock-sta` command
    /// for it through the guarded-send protocol.
    pub fn unblock_client(&mut self, client: &Client) -> (r: Result<(), RouterError>)
        ensures
            Self::same_config(*old(self), *final(self)),
            old(self).log().is_prefix_of(final(self).log()),
            final(self).log().len() > old(self).log().len(),
            final(self).log()[old(self).log().len() as int].request == attach_csrf(
                command_request(old(self).site_url(), "unblock-sta"@, client.mac@),
                old(self).token(),
            ),
            ({
                let delta = final(self).log().skip(old(self).log().len() as int);
                let run = guarded_send_spec(
                    command_request(old(self).site_url(), "unblock-sta"@, client.mac@),
                    old(self).token(),
                    old(self).cred(),
                    old(self).login_url(),
                    delta.map_values(|e: Exchange| e.outcome),
                );
                &&& delta.map_values(|e: Exchange| e.request) == run.sent
                &&& final(self).token() == run.token
                &&& (r matches Ok(u) ==> run.outcome is Ok)
                &&& (r matches Err(e) ==> run.outcome == Result::<ResponseView, ErrorView>::Err(
                    e@,
                ))
            }),
    {
        let command = UnblockCommand::new(client.mac.as_str());
        self.send_command(command.cmd, command.mac)
    }
}

// ---------------------------------------------------------------------------
// The protocol's laws.
// ---------------------------------------------------------------------------

/// Law: a call whose first answer is not a 401 sends exactly one request —
/// the caller's, with the stored token attached — and, on success, leaves
/// stored the response's token when the response carried one and the old
/// token otherwise.  Chained over consecutive calls this is the CSRF
/// discipline: the token sent on call `n + 1` is the token of response `n`,
/// or the token sent on call `n` when response `n` carried none.
pub proof fn lemma_token_chain_step(
    req: RequestView,
    token: Option<Seq<char>>,
    cred: Option<CredentialsView>,
    login_url: Seq<char>,
    r0: ResponseView,
)
    requires
        !spec_is_error_status(r0.status),
    ensures
        ({
            let run = guarded_send_spec(req, token, cred, login_url, seq![Ok(r0)]);
            &&& run.sent =~= seq![attach_csrf(req, token)]
            &&& run.sent[0].csrf_token == token
            &&& run.outcome == Result::<ResponseView, ErrorView>::Ok(r0)
            &&& run.token == token_after(token, r0.csrf_token)
        }),
{
}

/// The stored token after a run of single-exchange calls answered by
/// `resps`, starting from `initial`: the fold of the token rule over the
/// responses' CSRF headers.
pub open spec fn token_after_calls(
    initial: Option<Seq<char>>,
    resps: Seq<ResponseView>,
) -> Option<Seq<char>> {
    tokens_through(initial, resps.map_values(|r: ResponseView| r.csrf_token))
}

/// Law: over any run of calls each answered at once without a 401, the
/// token attached to call `n + 1` is the token of response `n` when that
/// response carried one, and otherwise the token attached to call `n` —
/// and it always equals what the first `n + 1` responses left behind.
pub proof fn lemma_csrf_chain_across_calls(
    req: RequestView,
    initial: Option<Seq<char>>,
    cred: Option<CredentialsView>,
    login_url: Seq<char>,
    resps: Seq<ResponseView>,
    n: int,
)
    requires
        0 <= n < resps.len(),
        !spec_is_error_status(resps[n].status),
    ensures
        ({
            let before = token_after_calls(initial, resps.take(n));
            let run = guarded_send_spec(req, before, cred, login_url, seq![Ok(resps[n])]);
            &&& run.sent =~= seq![attach_csrf(req, before)]
            &&& run.sent[0].csrf_token == before
            &&& run.token == token_after(before, resps[n].csrf_token)
            &&& run.token == token_after_calls(initial, resps.take(n + 1))
        }),
{
    let before = token_after_calls(initial, resps.take(n));
    lemma_token_chain_step(req, before, cred, login_url, resps[n]);
    let headers = |r: ResponseView| r.csrf_token;
    assert(resps.take(n + 1).map_values(headers).drop_last() =~= resps.take(n).map_values(
        headers,
    ));
    assert(resps.take(n + 1).map_values(headers).last() == resps[n].csrf_token);
}

/// Law: when the first answer is a 401 and the transport then grants the
/// login and the replay, the operation succeeds with the replay's response,
/// and exactly one login request was sent: the second of the three.
pub proof fn lemma_single_reauth_then_success(
    req: RequestView,
    token: Option<Seq<char>>,
    cred: CredentialsView,
    login_url: Seq<char>,
    r0: ResponseView,
    r1: ResponseView,
    r2: ResponseView,
)
    requires
        spec_is_unauthorized(r0.status),
        !spec_is_error_status(r1.status),
        !spec_is_error_status(r2.status),
        !(req.body is Login),
    ensures
        ({
            let run = guarded_send_spec(
                req,
                token,
                Some(cred),
                login_url,
                seq![Ok(r0), Ok(r1), Ok(r2)],
            );
            &&& run.outcome == Result::<ResponseView, ErrorView>::Ok(r2)
            &&& run.sent.len() == 3
            &&& is_login_request(run.sent[1], login_url)
            &&& !is_login_request(run.sent[0], login_url)
            &&& !is_login_request(run.sent[2], login_url)
            &&& run.token == token_after(token_after(token, r1.csrf_token), r2.csrf_token)
        }),
{
    let oracle = seq![
        Ok::<ResponseView, Seq<char>>(r0),
        Ok::<ResponseView, Seq<char>>(r1),
        Ok::<ResponseView, Seq<char>>(r2),
    ];
    assert(oracle.skip(1) =~= seq![
        Ok::<ResponseView, Seq<char>>(r1),
        Ok::<ResponseView, Seq<char>>(r2),
    ]);
}

/// Law: when the original request and its replay are both answered 401, the
/// operation fails with an authentication error and no third attempt is
/// made: exactly three requests leave — the original, one login, and the
/// one replay.
pub proof fn lemma_no_third_attempt(
    req: RequestView,
    token: Option<Seq<char>>,
    cred: CredentialsView,
    login_url: Seq<char>,
    r0: ResponseView,
    r1: ResponseView,
    r2: ResponseView,
)
    requires
        spec_is_unauthorized(r0.status),
        !spec_is_error_status(r1.status),
        spec_is_unauthorized(r2.status),
    ensures
        ({
            let run = guarded_send_spec(
                req,
                token,
                Some(cred),
                login_url,
                seq![Ok(r0), Ok(r1), Ok(r2)],
            );
            &&& run.outcome == Result::<ResponseView, ErrorView>::Err(
                ErrorView::Authentication { reason: AuthReason::RetryUnauthorized },
            )
            &&& run.sent.len() == 3
        }),
{
    let oracle = seq![
        Ok::<ResponseView, Seq<char>>(r0),
        Ok::<ResponseView, Seq<char>>(r1),
        Ok::<ResponseView, Seq<char>>(r2),
    ];
    assert(oracle.skip(1) =~= seq![
        Ok::<ResponseView, Seq<char>>(r1),
        Ok::<ResponseView, Seq<char>>(r2),
    ]);
}

/// Law: when no credentials are configured for the host, a 401 surfaces as
/// an authentication error before any login request is sent: the one
/// request that left is the caller's own, and no request of the run is a
/// login.
pub proof fn lemma_no_credentials_no_login(
    req: RequestView,
    token: Option<Seq<char>>,
    login_url: Seq<char>,
    r0: ResponseView,
)
    requires
        spec_is_unauthorized(r0.status),
        !(req.body is Login),
    ensures
        ({
            let run = guarded_send_spec(req, token, None, login_url, seq![Ok(r0)]);
            &&& run.outcome == Result::<ResponseView, ErrorView>::Err(
                ErrorView::Authentication { reason: AuthReason::CredentialsNotFound },
            )
            &&& run.sent =~= seq![attach_csrf(req, token)]
            &&& forall|i: int|
                0 <= i < run.sent.len() ==> !is_login_request(#[trigger] run.sent[i], login_url)
        }),
{
    let oracle = seq![Ok::<ResponseView, Seq<char>>(r0)];
    assert(oracle.skip(1) =~= Seq::<Result<ResponseView, Seq<char>>>::empty());
}

// ---------------------------------------------------------------------------
// Listings.
// ---------------------------------------------------------------------------

/// The clients a decoded listing stands for: each record's display name
/// (placeholder included) and MAC address, in order.
pub open spec fn spec_clients_of(records: Seq<UnifiClientView>) -> Seq<ClientView> {
    records.map_values(
        |rec: UnifiClientView| ClientView { name: spec_display_name(rec.name), mac: rec.mac },
    )
}

impl<T: Transport, C: CredentialProvider> UnifiDreamRouter<T, C> {
    /// Fetches one listing URL through the guarded-send protocol and
    /// decodes the response body.
    fn fetch_listing(&mut self, url: String) -> (r: Result<Vec<Client>, RouterError>)
        ensures
            Self::same_config(*old(self), *final(self)),
            old(self).log().is_prefix_of(final(self).log()),
            final(self).log().len() > old(self).log().len(),
            final(self).log()[old(self).log().len() as int].request == attach_csrf(
                listing_request(url@),
                old(self).token(),
            ),
            ({
                let delta = final(self).log().skip(old(self).log().len() as int);
                let run = guarded_send_spec(
                    listing_request(url@),
                    old(self).token(),
                    old(self).cred(),
                    old(self).login_url(),
                    delta.map_values(|e: Exchange| e.outcome),
                );
                &&& delta.map_values(|e: Exchange| e.request) == run.sent
                &&& final(self).token() == run.token
                &&& (r matches Ok(clients) ==> (run.outcome matches Ok(resp) && (
                spec_decode_listing(resp.body) matches Some(records) && clients.deep_view()
                    == spec_clients_of(records))))
                &&& (r matches Err(e) ==> ((run.outcome == Result::<ResponseView, ErrorView>::Err(
                    e@,
                )) || (run.outcome matches Ok(resp) && spec_decode_listing(resp.body) is None && e@
                    == ErrorView::Decoding)))
            }),
    {
        let request = HttpRequest {
            method: Method::Get,
            url,
            csrf_token: None,
            body: RequestBody::Empty,
        };
        let resp = match self.guarded_send(&request) {
            Ok(resp) => resp,
            Err(e) => {
                return Err(e);
            },
        };
        let records = match decode_listing(resp.body.as_str()) {
            Some(records) => records,
            None => {
                return Err(RouterError::Decoding);
            },
        };
        let mut clients: Vec<Client> = Vec::new();
        let mut idx: usize = 0;
        proof {
            assert(clients.deep_view() =~= spec_clients_of(records.deep_view().take(0)));
        }
        while idx < records.len()
            invariant
                idx <= records@.len(),
                records@.len() == records.deep_view().len(),
                clients.deep_view() =~= spec_clients_of(records.deep_view().take(idx as int)),
            decreases records@.len() - idx,
        {
            let ghost pre = clients.deep_view();
            let name = records[idx].name();
            let mac = records[idx].mac.clone();
            clients.push(Client { name, mac });
            proof {
                let rdv = records.deep_view();
                assert(clients.deep_view() =~= pre.push(ClientView { name: name@, mac: mac@ }));
                assert(rdv.take(idx + 1).drop_last() =~= rdv.take(idx as int));
                assert(rdv.take(idx + 1).last() == rdv[idx as int]);
                assert(rdv[idx as int] == records@[idx as int].deep_view());
                assert(spec_clients_of(rdv.take(idx + 1)) =~= spec_clients_of(
                    rdv.take(idx as int),
                ).push(
                    ClientView {
                        name: spec_display_name(rdv[idx as int].name),
                        mac: rdv[idx as int].mac,
                    },
                ));
                assert(clients.deep_view() =~= spec_clients_of(rdv.take(idx + 1)));
            }
            idx = idx + 1;
        }
        proof {
            assert(records.deep_view().take(records@.len() as int) =~= records.deep_view());
        }
        Ok(clients)
    }

    /// Every client the router has ever seen: fetches the known-devices
    /// listing through the guarded-send protocol and decodes it.
    pub fn known_clients(&mut self) -> (r: Result<Vec<Client>, RouterError>)
        ensures
            Self::same_config(*old(self), *final(self)),
            old(self).log().is_prefix_of(final(self).log()),
            final(self).log().len() > old(self).log().len(),
            final(self).log()[old(self).log().len() as int].request == attach_csrf(
                listing_request(old(self).known_devices_url()),
                old(self).token(),
            ),
            ({
                let delta = final(self).log().skip(old(self).log().len() as int);
                let run = guarded_send_spec(
                    listing_request(old(self).known_devices_url()),
                    old(self).token(),
                    old(self).cred(),
                    old(self).login_url(),
                    delta.map_values(|e: Exchange| e.outcome),
                );
                &&& delta.map_values(|e: Exchange| e.request) == run.sent
                &&& final(self).token() == run.token
                &&& (r matches Ok(clients) ==> (run.outcome matches Ok(resp) && (
                spec_decode_listing(resp.body) matches Some(records) && clients.deep_view()
                    == spec_clients_of(records))))
                &&& (r matches Err(e) ==> ((run.outcome == Result::<ResponseView, ErrorView>::Err(
                    e@,
                )) || (run.outcome matches Ok(resp) && spec_decode_listing(resp.body) is None && e@
                    == ErrorView::Decoding)))
            }),
    {
        let url = self.known_devices_url.clone();
        self.fetch_listing(url)
    }

    /// The clients connected right now: fetches the connected-devices
    /// listing through the guarded-send protocol and decodes it.
    pub fn online_clients(&mut self) -> (r: Result<Vec<Client>, RouterError>)
        ensures
            Self::same_config(*old(self), *final(self)),
            old(self).log().is_prefix_of(final(self).log()),
            final(self).log().len() > old(self).log().len(),
            final(self).log()[old(self).log().len() as int].request == attach_csrf(
                listing_request(old(self).connected_devices_url()),
                old(self).token(),
            ),
            ({
                let delta = final(self).log().skip(old(self).log().len() as int);
                let run = guarded_send_spec(
                    listing_request(old(self).connected_devices_url()),
                    old(self).token(),
                    old(self).cred(),
                    old(self).login_url(),
                    delta.map_values(|e: Exchange| e.outcome),
                );
                &&& delta.map_values(|e: Exchange| e.request) == run.sent
                &&& final(self).token() == run.token
                &&& (r matches Ok(clients) ==> (run.outcome matches Ok(resp) && (
                spec_decode_listing(resp.body) matches Some(records) && clients.deep_view()
                    == spec_clients_of(records))))
                &&& (r matches Err(e) ==> ((run.outcome == Result::<ResponseView, ErrorView>::Err(
                    e@,
                )) || (run.outcome matches Ok(resp) && spec_decode_listing(resp.body) is None && e@
                    == ErrorView::Decoding)))
            }),
    {
        let url = self.connected_devices_url.clone();
        self.fetch_listing(url)
    }
}

impl<T: Transport, C: CredentialProvider> Router for UnifiDreamRouter<T, C> {
    fn known_clients(&mut self) -> Result<Vec<Client>, RouterError> {
        UnifiDreamRouter::known_clients(self)
    }

    fn online_clients(&mut self) -> Result<Vec<Client>, RouterError> {
        UnifiDreamRouter::online_clients(self)
    }

    fn block_client(&mut self, client: &Client) -> Result<(), RouterError> {
        UnifiDreamRouter::block_client(self, client)
    }

    fn unblock_client(&mut self, client: &Client) -> Result<(), RouterError> {
        UnifiDreamRouter::unblock_client(self, client)
    }
}

} // verus!
