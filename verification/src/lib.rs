//! Client library for a router's private web-management API.
//!
//! The heart of the crate is the authenticated session manager in
//! [`unifi_dream_router`]: it keeps a CSRF token alongside the transport's
//! cookie jar, attaches the token to every request, and when a request is
//! rejected with HTTP 401 it logs in again and replays the request exactly
//! once.  Everything the protocol decides — which requests go out, in which
//! order, what the stored token becomes, and which error a caller sees — is
//! stated in the contracts and proved.
//!
//! Network I/O itself stays behind the [`http::Transport`] trait; a scripted
//! in-memory transport ships with the crate so the protocol can be exercised
//! without a router.

pub mod changes;
pub mod config;
pub mod credentials;
pub mod error;
pub mod http;
pub mod json;
pub mod presence;
pub mod router;
pub mod scripted;
pub mod session;
pub mod unifi_dream_router;

pub use changes::{changes, Change};
pub use config::{Config, Person};
pub use credentials::{
    get_password, CredentialError, CredentialProvider, Credentials, CredentialsView,
    MachineView, NetrcCredentials, NetrcMachine, StaticCredentials,
};
pub use error::{AuthReason, ErrorView, RouterError};
pub use http::{
    BodyView, HttpRequest, HttpResponse, Method, RequestBody, RequestView, ResponseView,
    Transport, TransportFault,
};
pub use json::{decode_listing, spec_decode_listing};
pub use presence::{find_by_name, who_is_home};
pub use router::{Client, ClientView, Router};
pub use scripted::ScriptedTransport;
pub use session::{token_after, tokens_through};
pub use unifi_dream_router::{
    attach_csrf, command_request, guarded_send_spec, is_login_request, listing_request,
    login_request, login_spec, spec_clients_of, spec_connected_devices_url, token_after_calls,
    spec_display_name, spec_known_devices_url, spec_login_url, spec_site_url, BlockCommand,
    ProtocolRun, UnblockCommand, UnifiClient, UnifiClientView, UnifiDreamRouter,
};
