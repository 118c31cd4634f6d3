use vstd::prelude::*;

use crate::address::NetworkAddress;

verus! {

/// What the address-identification handler reports about one connection.
#[derive(Clone, Debug)]
pub enum IdentifyEvent {
    /// This node sent the peer its listen addresses and the address from
    /// which it observed the peer: the peer now knows how it is seen.
    Sent,
    /// The peer reported the address from which it observed this node:
    /// this node now knows one of its externally visible addresses.
    Received { observed: NetworkAddress },
    /// Any other identification event (a push, an exchange error).
    Other,
}

/// What the relay-client handler reports.
#[derive(Clone, Debug)]
pub enum RelayEvent {
    /// The relay accepted this node's reservation request and will
    /// forward inbound circuits to it.
    ReservationAccepted,
    /// The relay denied the reservation, or the request failed.
    ReservationFailed,
    /// An outbound circuit through the relay reached the remote peer.
    OutboundCircuitEstablished,
    /// An outbound circuit request failed.
    OutboundCircuitFailed,
    /// A dialer reached this node through its reservation.
    InboundCircuitEstablished,
    /// An inbound circuit request was denied (or denying it failed).
    InboundCircuitDenied,
}

/// What the hole-punch coordinator reports.
#[derive(Clone, Copy, Debug, PartialEq, Eq, Structural)]
pub enum HolePunchEvent {
    /// This side started a direct-connection upgrade.
    Initiated,
    /// The remote side started a direct-connection upgrade.
    RemoteInitiated,
    /// The relayed connection was upgraded to a direct one.
    Succeeded,
    /// The upgrade failed; the relayed connection stays as it is.
    Failed,
}

/// An event of one of the four protocol handlers the engine drives.
#[derive(Clone, Debug)]
pub enum BehaviourEvent {
    /// A liveness probe completed (in either direction, with any result).
    Ping,
    Identify(IdentifyEvent),
    Relay(RelayEvent),
    HolePunch(HolePunchEvent),
}

/// A connection lifecycle fact, as the engine's reactor delivers them:
/// strictly one at a time, in transport order, none dropped.
#[derive(Clone, Debug)]
pub enum ConnectionEvent {
    /// A local listener bound to the given address.
    NewListenAddr { address: NetworkAddress },
    /// An outbound dial started.
    Dialing,
    /// A connection (in either direction) completed its handshakes.
    ConnectionEstablished,
    /// A connection was closed.
    ConnectionClosed,
    /// An outbound dial failed: the peer or relay is unreachable.
    OutgoingConnectionError,
    /// One of the protocol handlers reported.
    Behaviour(BehaviourEvent),
    /// Any other lifecycle fact: classified as ignorable, never a crash.
    Other,
}

} // verus!
