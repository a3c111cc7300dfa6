//! The router facade: the four domain operations, and the `Client` value
//! they traffic in.

use vstd::prelude::*;

use crate::error::RouterError;

verus! {

/// One network client as the router reports it.  The MAC address is the
/// stable identity used for block/unblock; the name is a best-effort label.
#[derive(Debug, Clone)]
pub struct Client {
    pub name: String,
    pub mac: String,
}

/// The mathematical value of a [`Client`].
pub struct ClientView {
    pub name: Seq<char>,
    pub mac: Seq<char>,
}

impl View for Client {
    type V = ClientView;

    open spec fn view(&self) -> ClientView {
        ClientView { name: self.name@, mac: self.mac@ }
    }
}

impl DeepView for Client {
    type V = ClientView;

    open spec fn deep_view(&self) -> ClientView {
        self.view()
    }
}

/// A backend that can enumerate and block network clients.  The production
/// implementation is [`crate::unifi_dream_router::UnifiDreamRouter`], whose
/// inherent methods carry the precise contracts; the trait itself promises
/// nothing, so that alternative backends (test doubles among them) can
/// satisfy it.
pub trait Router {
    /// Every client the router has ever seen.
    fn known_clients(&mut self) -> Result<Vec<Client>, RouterError>;

    /// The clients connected right now.
    fn online_clients(&mut self) -> Result<Vec<Client>, RouterError>;

    /// Bars the client's MAC address from the network.
    fn block_client(&mut self, client: &Client) -> Result<(), RouterError>;

    /// Lifts the bar again.
    fn unblock_client(&mut self, client: &Client) -> Result<(), RouterError>;
}

} // verus!
