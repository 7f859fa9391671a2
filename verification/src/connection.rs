//! The decisions of the network set-up: which network to join or to host,
//! under which key credentials are kept, and when a ping counts as failed.
//! The radio, the store and the HTTP server are driven elsewhere.

use vstd::prelude::*;
use self::wifi::Creds;

pub mod api;
pub mod server;
pub mod wifi;

verus! {

/// What a collaborator asks of the connection.
pub enum ConnectionEvent {
    ConnectToWifi(Creds),
    HostAs(Creds),
}

/// What the wireless interface is to do, and with which credentials.
pub enum WifiOrder {
    /// Join the network as a client.
    Connect(Creds),
    /// Open an access point.
    Host(Creds),
}

#[derive(Clone, Copy, Debug, PartialEq, Eq, Structural)]
pub enum PingError {
    /// Fewer answers came back than requests went out.
    Timeouts,
}

/// The order that an event asks for.
pub open spec fn order_of(event: ConnectionEvent) -> WifiOrder {
    match event {
        ConnectionEvent::ConnectToWifi(creds) => WifiOrder::Connect(creds),
        ConnectionEvent::HostAs(creds) => WifiOrder::Host(creds),
    }
}

/// The order at start-up: join the network whose credentials are kept; if
/// none are, host with the kept access point credentials, and if there are
/// none either, with the built-in ones.
pub open spec fn first_order(client: Option<Creds>, ap: Option<Creds>, fallback: Creds)
    -> WifiOrder {
    match client {
        Some(creds) => WifiOrder::Connect(creds),
        None => match ap {
            Some(creds) => WifiOrder::Host(creds),
            None => WifiOrder::Host(fallback),
        },
    }
}

/// Decides what the wireless interface does at start-up from what the
/// store holds.
pub fn startup_order(client: Option<Creds>, ap: Option<Creds>, fallback: Creds) -> (order:
    WifiOrder)
    ensures
        order == first_order(client, ap, fallback),
{
    match client {
        Some(creds) => WifiOrder::Connect(creds),
        None => match ap {
            Some(creds) => WifiOrder::Host(creds),
            None => WifiOrder::Host(fallback),
        },
    }
}

/// Turns an event into the order that it asks for.
pub fn order_for(event: ConnectionEvent) -> (order: WifiOrder)
    ensures
        order == order_of(event),
{
    match event {
        ConnectionEvent::ConnectToWifi(creds) => WifiOrder::Connect(creds),
        ConnectionEvent::HostAs(creds) => WifiOrder::Host(creds),
    }
}

impl WifiOrder {
    /// The key under which the credentials of this order are kept in the
    /// store before the order is carried out.
    pub fn storage_key(&self) -> (key: &'static str)
        ensures
            self is Connect ==> key@ == "client_creds"@,
            self is Host ==> key@ == "ap_creds"@,
    {
        match self {
            WifiOrder::Connect(_) => "client_creds",
            WifiOrder::Host(_) => "ap_creds",
        }
    }
}

/// Judges a ping by its counts: it has failed as soon as one request was
/// left without an answer.
pub fn ping(transmitted: u32, received: u32) -> (res: Result<(), PingError>)
    ensures
        res is Ok <==> transmitted == received,
        res is Err ==> res == Err::<(), PingError>(PingError::Timeouts),
{
    if transmitted != received {
        Err(PingError::Timeouts)
    } else {
        Ok(())
    }
}

} // verus!
