use vstd::prelude::*;
use vstd::string::StrSliceExecFns;

use crate::address::{NetworkAddress, SegView};
use crate::events::{BehaviourEvent, ConnectionEvent, HolePunchEvent, IdentifyEvent, RelayEvent};
use crate::identity::NodeIdentity;

verus! {

broadcast use vstd::string::group_string_axioms;

/// What a client does once its addresses are learned: dial a specific
/// remote peer through the relay, or listen for inbound circuits.
#[derive(Clone, Copy, Debug, PartialEq, Eq, Structural)]
pub enum Mode {
    Dial,
    Listen,
}

fn str_eq(a: &str, b: &str) -> (r: bool)
    ensures
        r == (a@ == b@),
{
    let alen = a.unicode_len();
    let blen = b.unicode_len();
    if alen != blen {
        return false;
    }
    let mut i: usize = 0;
    while i < alen
        invariant
            i <= alen,
            alen == a@.len(),
            blen == b@.len(),
            alen == blen,
            forall|j: int| 0 <= j < i ==> a@[j] == b@[j],
        decreases alen - i,
    {
        if a.get_char(i) != b.get_char(i) {
            return false;
        }
        i += 1;
    }
    proof {
        assert(a@ =~= b@);
    }
    true
}

impl Mode {
    /// Read a mode from its textual selector: exactly "dial" or "listen";
    /// anything else is rejected with an explanation.
    pub fn from_str(mode: &str) -> (r: Result<Mode, String>)
        ensures
            r == Ok::<Mode, String>(Mode::Dial) <==> mode@ == "dial"@,
            r == Ok::<Mode, String>(Mode::Listen) <==> mode@ == "listen"@,
            r is Err <==> (mode@ != "dial"@ && mode@ != "listen"@),
            r matches Err(e) ==> e@ == "Expected either 'dial' or 'listen'"@,
    {
        proof {
            reveal_strlit("dial");
            reveal_strlit("listen");
            assert("dial"@.len() == 4);
            assert("listen"@.len() == 6);
            assert("dial"@ != "listen"@);
        }
        if str_eq(mode, "dial") {
            Ok(Mode::Dial)
        } else if str_eq(mode, "listen") {
            Ok(Mode::Listen)
        } else {
            Err(("Expected either 'dial' or 'listen'").to_owned())
        }
    }
}

/// The one request the circuit controller makes of the transport after the
/// address-learning handshake completes.
#[derive(Debug, PartialEq, Eq)]
pub enum CircuitRequest {
    /// Dial this address: a relayed stream to the remote peer.
    DialThrough(NetworkAddress),
    /// Request to listen on this address: a reservation with the relay.
    ReserveOn(NetworkAddress),
}

/// What the controller asks of the transport, given the mode: in Dial
/// mode, the relay's address extended with the circuit marker and the
/// remote identity; in Listen mode, the relay's address extended with the
/// circuit marker alone.
pub fn circuit_request(mode: Mode, relay: NetworkAddress, remote: &NodeIdentity) -> (r:
    CircuitRequest)
    ensures
        mode is Dial ==> (r matches CircuitRequest::DialThrough(a) && a@ =~= relay@.push(
            SegView::P2pCircuit,
        ).push(SegView::P2p(remote.peer_id@))),
        mode is Listen ==> (r matches CircuitRequest::ReserveOn(a) && a@ =~= relay@.push(
            SegView::P2pCircuit,
        )),
{
    match mode {
        Mode::Dial => CircuitRequest::DialThrough(
            crate::address::circuit_dial_address(relay, remote),
        ),
        Mode::Listen => CircuitRequest::ReserveOn(crate::address::circuit_listen_address(relay)),
    }
}

/// Whether this node currently reaches its peer over a relayed circuit, a
/// direct (hole-punched) connection, or not at all.
#[derive(Clone, Copy, Debug, PartialEq, Eq, Structural)]
pub enum CircuitStatus {
    Inactive,
    Relayed,
    Direct,
}

/// The steady-state engine after the circuit request was made.
pub struct SteadyState {
    pub mode: Mode,
    pub circuit: CircuitStatus,
}

/// What the engine does with one steady-state event. Every event maps to
/// an action: none is dropped, and none aborts the engine.
#[derive(Clone, Copy, Debug, PartialEq, Eq, Structural)]
pub enum SteadyAction {
    /// Report the newly bound listener address.
    LogListener,
    /// The relay accepted this node's reservation: inbound circuits will
    /// be forwarded from now on.
    NoteReservationAccepted,
    /// The relay denied the reservation or the request failed: fatal to
    /// Listen mode, so it must be surfaced, not logged away.
    ReportReservationDenied,
    /// Report a relay-client event.
    LogRelayEvent,
    /// Report a hole-punch coordination event.
    LogHolePunch,
    /// Report an identification exchange.
    LogIdentify,
    /// Report an established connection.
    LogConnectionEstablished,
    /// An outbound dial failed: the peer or the relay is unreachable.
    /// Reported via an event, not fatal; the engine keeps running.
    ReportDialFailure,
    /// Classified as ignorable.
    Ignore,
    /// An event that contradicts the mode (a reservation acceptance while
    /// dialing): reported, never a crash.
    ProtocolViolation,
}

/// How one steady-state event moves the circuit status: an established
/// circuit through the relay makes it relayed; a successful hole-punch
/// upgrades it to direct; nothing else moves it — in particular a failed
/// hole-punch leaves the relayed circuit exactly as it was.
pub open spec fn next_circuit(c: CircuitStatus, e: ConnectionEvent) -> CircuitStatus {
    match e {
        ConnectionEvent::Behaviour(BehaviourEvent::Relay(RelayEvent::OutboundCircuitEstablished))
            => CircuitStatus::Relayed,
        ConnectionEvent::Behaviour(BehaviourEvent::Relay(RelayEvent::InboundCircuitEstablished))
            => CircuitStatus::Relayed,
        ConnectionEvent::Behaviour(BehaviourEvent::HolePunch(HolePunchEvent::Succeeded))
            => CircuitStatus::Direct,
        _ => c,
    }
}

/// The action the engine takes on one steady-state event, given the mode.
pub open spec fn steady_action(mode: Mode, e: ConnectionEvent) -> SteadyAction {
    match e {
        ConnectionEvent::NewListenAddr { .. } => SteadyAction::LogListener,
        ConnectionEvent::Dialing => SteadyAction::Ignore,
        ConnectionEvent::ConnectionEstablished => SteadyAction::LogConnectionEstablished,
        ConnectionEvent::ConnectionClosed => SteadyAction::Ignore,
        ConnectionEvent::OutgoingConnectionError => SteadyAction::ReportDialFailure,
        ConnectionEvent::Behaviour(b) => match b {
            BehaviourEvent::Ping => SteadyAction::Ignore,
            BehaviourEvent::Identify(_) => SteadyAction::LogIdentify,
            BehaviourEvent::Relay(RelayEvent::ReservationAccepted) => if mode is Listen {
                SteadyAction::NoteReservationAccepted
            } else {
                SteadyAction::ProtocolViolation
            },
            BehaviourEvent::Relay(RelayEvent::ReservationFailed) => if mode is Listen {
                SteadyAction::ReportReservationDenied
            } else {
                SteadyAction::LogRelayEvent
            },
            BehaviourEvent::Relay(_) => SteadyAction::LogRelayEvent,
            BehaviourEvent::HolePunch(_) => SteadyAction::LogHolePunch,
        },
        ConnectionEvent::Other => SteadyAction::Ignore,
    }
}

/// Feed the steady-state engine one event: the mode never changes, the
/// circuit status moves as `next_circuit` says, and the event is answered
/// with exactly the action `steady_action` says.
pub fn steady_step(st: &mut SteadyState, event: &ConnectionEvent) -> (a: SteadyAction)
    ensures
        final(st).mode == old(st).mode,
        final(st).circuit == next_circuit(old(st).circuit, *event),
        a == steady_action(old(st).mode, *event),
{
    match event {
        ConnectionEvent::NewListenAddr { .. } => SteadyAction::LogListener,
        ConnectionEvent::Dialing => SteadyAction::Ignore,
        ConnectionEvent::ConnectionEstablished => SteadyAction::LogConnectionEstablished,
        ConnectionEvent::ConnectionClosed => SteadyAction::Ignore,
        ConnectionEvent::OutgoingConnectionError => SteadyAction::ReportDialFailure,
        ConnectionEvent::Behaviour(b) => match b {
            BehaviourEvent::Ping => SteadyAction::Ignore,
            BehaviourEvent::Identify(_) => SteadyAction::LogIdentify,
            BehaviourEvent::Relay(RelayEvent::ReservationAccepted) => {
                match st.mode {
                    Mode::Listen => SteadyAction::NoteReservationAccepted,
                    Mode::Dial => SteadyAction::ProtocolViolation,
                }
            },
            BehaviourEvent::Relay(RelayEvent::ReservationFailed) => {
                match st.mode {
                    Mode::Listen => SteadyAction::ReportReservationDenied,
                    Mode::Dial => SteadyAction::LogRelayEvent,
                }
            },
            BehaviourEvent::Relay(RelayEvent::OutboundCircuitEstablished) => {
                st.circuit = CircuitStatus::Relayed;
                SteadyAction::LogRelayEvent
            },
            BehaviourEvent::Relay(RelayEvent::InboundCircuitEstablished) => {
                st.circuit = CircuitStatus::Relayed;
                SteadyAction::LogRelayEvent
            },
            BehaviourEvent::Relay(_) => SteadyAction::LogRelayEvent,
            BehaviourEvent::HolePunch(HolePunchEvent::Succeeded) => {
                st.circuit = CircuitStatus::Direct;
                SteadyAction::LogHolePunch
            },
            BehaviourEvent::HolePunch(_) => SteadyAction::LogHolePunch,
        },
        ConnectionEvent::Other => SteadyAction::Ignore,
    }
}

/// A failed hole-punch attempt is a missed optimization, not an error: the
/// circuit stays exactly as it was (a relayed circuit remains usable), and
/// the engine only reports the outcome — there is no disconnecting action.
pub proof fn lemma_hole_punch_failure_keeps_circuit(mode: Mode, c: CircuitStatus)
    ensures
        next_circuit(
            c,
            ConnectionEvent::Behaviour(BehaviourEvent::HolePunch(HolePunchEvent::Failed)),
        ) == c,
        steady_action(
            mode,
            ConnectionEvent::Behaviour(BehaviourEvent::HolePunch(HolePunchEvent::Failed)),
        ) == SteadyAction::LogHolePunch,
{
}

} // verus!
