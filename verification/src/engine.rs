use vstd::prelude::*;

use crate::address::{NetworkAddress, SegView};
use crate::client::{
    circuit_request, next_circuit, steady_action, steady_step, CircuitRequest, CircuitStatus,
    Mode, SteadyAction, SteadyState,
};
use crate::events::ConnectionEvent;
use crate::handshake::{
    bind_init, bind_step, learn_completed, learn_event_ok, learn_init, learn_init_model,
    learn_model_step, learn_step, BindOutcome, BindPhase, LearnOutcome, LearnState,
};
use crate::identity::NodeIdentity;

verus! {

/// The strictly ordered phases of the connection engine: bind local
/// listeners, learn addresses through the relay's round trip, then drive
/// the circuit in steady state. The engine never moves backwards.
#[derive(Clone, Copy, Debug, PartialEq, Eq, Structural)]
pub enum EnginePhase {
    Binding,
    Learning,
    Steady,
}

/// What the engine's caller feeds it: one transport event, or the word
/// that the bind phase's bounded grace period has elapsed. The caller owns
/// the clock; the engine owns the protocol state.
pub enum EngineInput {
    Transport(ConnectionEvent),
    GraceElapsed,
}

/// What the engine asks of its caller in answer to one input. Every input
/// gets an answer: the engine drops no event and aborts on none.
#[derive(Debug, PartialEq, Eq)]
pub enum EngineAction {
    /// A listener bound and its address was recorded.
    ListenerRecorded,
    /// An event out of place while binding: reported, not a crash.
    UnexpectedWhileBinding,
    /// The grace period elapsed: dial this address (the relay's) to start
    /// the address-learning round trip.
    DialRelay(NetworkAddress),
    /// The address-learning phase took the event; a condition is missing.
    HandshakePending,
    /// A protocol violation during address learning: recoverable, the
    /// caller may dial the relay again and retry.
    HandshakeFailed,
    /// The handshake completed: make this request of the transport.
    RequestCircuit(CircuitRequest),
    /// The steady-state engine's answer to the event.
    Act(SteadyAction),
    /// The input means nothing in the current phase.
    Idle,
}

/// The event-driven connection engine. It holds the protocol state of one
/// node — who it is, which relay it learns through, whom it means to reach
/// — and decides on each event; its caller owns the transport and performs
/// the actions.
pub struct ConnectionEngine {
    pub mode: Mode,
    pub relay: NetworkAddress,
    pub remote: NodeIdentity,
    pub phase: EnginePhase,
    pub bind: BindPhase,
    pub learn: LearnState,
    pub circuit: CircuitStatus,
}

impl ConnectionEngine {
    /// An engine at the start of the bind phase, with nothing bound,
    /// nothing learned and no circuit.
    pub fn new(mode: Mode, relay: NetworkAddress, remote: NodeIdentity) -> (e: ConnectionEngine)
        ensures
            e.mode == mode,
            e.relay == relay,
            e.remote == remote,
            e.phase is Binding,
            e.bind@ =~= Seq::<Seq<SegView>>::empty(),
            e.learn@ =~= learn_init_model(),
            e.circuit is Inactive,
    {
        ConnectionEngine {
            mode,
            relay,
            remote,
            phase: EnginePhase::Binding,
            bind: bind_init(),
            learn: learn_init(),
            circuit: CircuitStatus::Inactive,
        }
    }

    /// Feed the engine one input. The phases run strictly in order — bind,
    /// learn, steady — and a circuit is requested exactly once, at the
    /// moment the address-learning handshake completes.
    pub fn step(&mut self, input: EngineInput) -> (a: EngineAction)
        ensures
            final(self).mode == old(self).mode,
            final(self).relay == old(self).relay,
            final(self).remote == old(self).remote,
            // The phases never move backwards.
            old(self).phase is Binding ==> !(final(self).phase is Steady),
            old(self).phase is Learning ==> !(final(self).phase is Binding),
            old(self).phase is Steady ==> final(self).phase is Steady,
            // Binding: record listeners; the grace period ends the phase.
            old(self).phase is Binding ==> (input matches EngineInput::Transport(e) ==> {
                &&& final(self).phase is Binding
                &&& final(self).learn == old(self).learn
                &&& final(self).circuit == old(self).circuit
                &&& (e matches ConnectionEvent::NewListenAddr { address } ==> (a
                    is ListenerRecorded && final(self).bind@ =~= old(self).bind@.push(address@)))
                &&& (!(e is NewListenAddr) ==> (a is UnexpectedWhileBinding && final(self).bind@
                    =~= old(self).bind@))
            }),
            (old(self).phase is Binding && input is GraceElapsed) ==> ({
                &&& final(self).phase is Learning
                &&& final(self).bind == old(self).bind
                &&& final(self).learn == old(self).learn
                &&& final(self).circuit == old(self).circuit
                &&& (a matches EngineAction::DialRelay(addr) && addr@ =~= old(self).relay@)
            }),
            // Learning: the relay round trip, completed only by both
            // conditions; a violation is reported and the phase stays.
            old(self).phase is Learning ==> (input matches EngineInput::Transport(e) ==> {
                &&& final(self).bind == old(self).bind
                &&& final(self).circuit == old(self).circuit
                &&& (learn_event_ok(e) ==> final(self).learn@ =~= learn_model_step(
                    old(self).learn@,
                    e,
                ))
                &&& (!learn_event_ok(e) ==> (final(self).learn@ =~= old(self).learn@ && final(self).phase is Learning && a is HandshakeFailed))
                &&& ((learn_event_ok(e) && learn_completed(
                    learn_model_step(old(self).learn@, e),
                )) ==> ({
                    &&& final(self).phase is Steady
                    &&& (a matches EngineAction::RequestCircuit(req) && (old(self).mode
                        is Dial ==> (req matches CircuitRequest::DialThrough(ad) && ad@ =~= old(self).relay@.push(SegView::P2pCircuit).push(
                        SegView::P2p(old(self).remote.peer_id@),
                    ))) && (old(self).mode is Listen ==> (req
                        matches CircuitRequest::ReserveOn(ad) && ad@ =~= old(self).relay@.push(
                        SegView::P2pCircuit,
                    ))))
                }))
                &&& ((learn_event_ok(e) && !learn_completed(
                    learn_model_step(old(self).learn@, e),
                )) ==> (final(self).phase is Learning && a is HandshakePending))
            }),
            (old(self).phase is Learning && input is GraceElapsed) ==> ({
                &&& final(self).phase is Learning
                &&& final(self).bind == old(self).bind
                &&& final(self).learn == old(self).learn
                &&& final(self).circuit == old(self).circuit
                &&& a is Idle
            }),
            // Steady: every event is answered with exactly the action the
            // steady-state model gives, and the circuit moves as it says.
            old(self).phase is Steady ==> (input matches EngineInput::Transport(e) ==> {
                &&& final(self).phase is Steady
                &&& final(self).bind == old(self).bind
                &&& final(self).learn == old(self).learn
                &&& final(self).circuit == next_circuit(old(self).circuit, e)
                &&& a == EngineAction::Act(steady_action(old(self).mode, e))
            }),
            (old(self).phase is Steady && input is GraceElapsed) ==> ({
                &&& final(self).bind == old(self).bind
                &&& final(self).learn == old(self).learn
                &&& final(self).circuit == old(self).circuit
                &&& a is Idle
            }),
            // A circuit is never requested before the handshake completes.
            a matches EngineAction::RequestCircuit(_) ==> (old(self).phase is Learning && final(self).phase is Steady && learn_completed(final(self).learn@)),
    {
        match self.phase {
            EnginePhase::Binding => match input {
                EngineInput::Transport(e) => match bind_step(&mut self.bind, e) {
                    BindOutcome::ListenerBound => EngineAction::ListenerRecorded,
                    BindOutcome::UnexpectedEvent => EngineAction::UnexpectedWhileBinding,
                },
                EngineInput::GraceElapsed => {
                    self.phase = EnginePhase::Learning;
                    EngineAction::DialRelay(self.relay.clone())
                },
            },
            EnginePhase::Learning => match input {
                EngineInput::Transport(e) => match learn_step(&mut self.learn, e) {
                    LearnOutcome::Pending => EngineAction::HandshakePending,
                    LearnOutcome::Complete => {
                        self.phase = EnginePhase::Steady;
                        EngineAction::RequestCircuit(
                            circuit_request(self.mode, self.relay.clone(), &self.remote),
                        )
                    },
                    LearnOutcome::RelayHandshakeFailed => EngineAction::HandshakeFailed,
                },
                EngineInput::GraceElapsed => EngineAction::Idle,
            },
            EnginePhase::Steady => match input {
                EngineInput::Transport(e) => {
                    let mut st = SteadyState { mode: self.mode, circuit: self.circuit };
                    let act = steady_step(&mut st, &e);
                    self.circuit = st.circuit;
                    EngineAction::Act(act)
                },
                EngineInput::GraceElapsed => EngineAction::Idle,
            },
        }
    }
}

} // verus!
