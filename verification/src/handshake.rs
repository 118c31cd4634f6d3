use vstd::prelude::*;

use crate::address::{NetworkAddress, SegView};
use crate::events::{BehaviourEvent, ConnectionEvent, IdentifyEvent};

verus! {

// ---------------------------------------------------------------------
// Local bind phase: collect "listener bound" events until the bounded
// grace period elapses. The period is the caller's clock; this machine
// owns only the listener set and the classification of events.
// ---------------------------------------------------------------------

/// The listeners bound so far during the local bind phase.
pub struct BindPhase {
    pub listeners: Vec<NetworkAddress>,
}

/// How the bind phase classified one event.
#[derive(Clone, Copy, Debug, PartialEq, Eq, Structural)]
pub enum BindOutcome {
    /// A listener bound; its address was recorded.
    ListenerBound,
    /// Any other event: a protocol violation during this phase, reported
    /// rather than aborting.
    UnexpectedEvent,
}

impl View for BindPhase {
    type V = Seq<Seq<SegView>>;

    open spec fn view(&self) -> Seq<Seq<SegView>> {
        self.listeners@.map(|i: int, a: NetworkAddress| a@)
    }
}

/// Start the bind phase with no listeners.
pub fn bind_init() -> (ph: BindPhase)
    ensures
        ph@ =~= Seq::<Seq<SegView>>::empty(),
{
    BindPhase { listeners: Vec::new() }
}

/// Feed the bind phase one event. A bound listener is recorded; any other
/// event leaves the phase unchanged and is reported as unexpected.
pub fn bind_step(ph: &mut BindPhase, event: ConnectionEvent) -> (r: BindOutcome)
    ensures
        event matches ConnectionEvent::NewListenAddr { address } ==> r is ListenerBound
            && final(ph)@ =~= old(ph)@.push(address@),
        !(event is NewListenAddr) ==> r is UnexpectedEvent && final(ph)@ =~= old(ph)@,
{
    match event {
        ConnectionEvent::NewListenAddr { address } => {
            ph.listeners.push(address);
            BindOutcome::ListenerBound
        },
        _ => BindOutcome::UnexpectedEvent,
    }
}

// ---------------------------------------------------------------------
// Relay round-trip phase: dial the relay once, then wait until this node
// has both told the relay its observed address and learned its own from
// the relay. Only both conditions together complete the handshake.
// ---------------------------------------------------------------------

/// The mathematical state of the address-learning phase.
#[verifier::ext_equal]
pub struct LearnModel {
    /// This node told the relay the address from which it observed the
    /// relay's connection (outbound identification succeeded).
    pub told_relay: bool,
    /// The relay told this node the address from which it observed it.
    pub learned_observed: bool,
    /// Every externally observed address confirmed so far, in the order
    /// confirmed. The set only grows within a run.
    pub externals: Seq<Seq<SegView>>,
}

/// The state before any event: nothing told, nothing learned.
pub open spec fn learn_init_model() -> LearnModel {
    LearnModel { told_relay: false, learned_observed: false, externals: Seq::empty() }
}

/// The handshake is complete exactly when both conditions have occurred.
pub open spec fn learn_completed(m: LearnModel) -> bool {
    m.told_relay && m.learned_observed
}

/// The events the address-learning phase tolerates. Anything else is a
/// protocol violation during this phase.
pub open spec fn learn_event_ok(e: ConnectionEvent) -> bool {
    match e {
        ConnectionEvent::NewListenAddr { .. } => true,
        ConnectionEvent::Dialing => true,
        ConnectionEvent::ConnectionEstablished => true,
        ConnectionEvent::Behaviour(b) => match b {
            BehaviourEvent::Ping => true,
            BehaviourEvent::Identify(IdentifyEvent::Sent) => true,
            BehaviourEvent::Identify(IdentifyEvent::Received { .. }) => true,
            _ => false,
        },
        _ => false,
    }
}

/// This event is this node telling the relay its observed address.
pub open spec fn tells_relay(e: ConnectionEvent) -> bool {
    e matches ConnectionEvent::Behaviour(BehaviourEvent::Identify(IdentifyEvent::Sent))
}

/// This event is the relay telling this node its observed address.
pub open spec fn learns_observed(e: ConnectionEvent) -> bool {
    e matches ConnectionEvent::Behaviour(
        BehaviourEvent::Identify(IdentifyEvent::Received { .. }),
    )
}

/// How one tolerated event advances the address-learning state.
pub open spec fn learn_model_step(m: LearnModel, e: ConnectionEvent) -> LearnModel {
    match e {
        ConnectionEvent::Behaviour(BehaviourEvent::Identify(IdentifyEvent::Sent)) => LearnModel {
            told_relay: true,
            ..m
        },
        ConnectionEvent::Behaviour(
            BehaviourEvent::Identify(IdentifyEvent::Received { observed }),
        ) => LearnModel {
            learned_observed: true,
            externals: m.externals.push(observed@),
            ..m
        },
        _ => m,
    }
}

/// The executable state of the address-learning phase.
pub struct LearnState {
    pub told_relay: bool,
    pub learned_observed: bool,
    /// The addresses this node believes reach it from outside its NAT.
    pub externals: Vec<NetworkAddress>,
}

impl View for LearnState {
    type V = LearnModel;

    open spec fn view(&self) -> LearnModel {
        LearnModel {
            told_relay: self.told_relay,
            learned_observed: self.learned_observed,
            externals: self.externals@.map(|i: int, a: NetworkAddress| a@),
        }
    }
}

/// How the address-learning phase answered one event.
#[derive(Clone, Copy, Debug, PartialEq, Eq, Structural)]
pub enum LearnOutcome {
    /// Tolerated, but at least one condition is still missing.
    Pending,
    /// Both conditions have now occurred: the handshake is complete.
    Complete,
    /// A protocol violation during the phase (an unexpected disconnect,
    /// an unknown event): recoverable, reported to the caller.
    RelayHandshakeFailed,
}

/// Start the address-learning phase.
pub fn learn_init() -> (st: LearnState)
    ensures
        st@ =~= learn_init_model(),
{
    LearnState { told_relay: false, learned_observed: false, externals: Vec::new() }
}

/// Feed the address-learning phase one event. Tolerated events advance
/// the state as the model says and report completion exactly when both
/// conditions hold; anything else leaves the state unchanged and reports
/// a recoverable handshake failure.
pub fn learn_step(st: &mut LearnState, event: ConnectionEvent) -> (r: LearnOutcome)
    ensures
        learn_event_ok(event) ==> final(st)@ =~= learn_model_step(old(st)@, event),
        learn_event_ok(event) ==> (r is Complete <==> learn_completed(final(st)@)),
        learn_event_ok(event) ==> (r is Pending <==> !learn_completed(final(st)@)),
        !learn_event_ok(event) ==> r is RelayHandshakeFailed && final(st)@ =~= old(st)@,
{
    let tolerated: bool = match &event {
        ConnectionEvent::NewListenAddr { .. } => true,
        ConnectionEvent::Dialing => true,
        ConnectionEvent::ConnectionEstablished => true,
        ConnectionEvent::Behaviour(b) => match b {
            BehaviourEvent::Ping => true,
            BehaviourEvent::Identify(IdentifyEvent::Sent) => true,
            BehaviourEvent::Identify(IdentifyEvent::Received { .. }) => true,
            _ => false,
        },
        _ => false,
    };
    if !tolerated {
        return LearnOutcome::RelayHandshakeFailed;
    }
    match event {
        ConnectionEvent::Behaviour(BehaviourEvent::Identify(IdentifyEvent::Sent)) => {
            st.told_relay = true;
        },
        ConnectionEvent::Behaviour(
            BehaviourEvent::Identify(IdentifyEvent::Received { observed }),
        ) => {
            st.learned_observed = true;
            st.externals.push(observed);
        },
        _ => {},
    }
    if st.told_relay && st.learned_observed {
        LearnOutcome::Complete
    } else {
        LearnOutcome::Pending
    }
}

// ---------------------------------------------------------------------
// Laws of the address-learning phase.
// ---------------------------------------------------------------------

/// The state after a whole run of tolerated events.
pub open spec fn learn_run(m: LearnModel, events: Seq<ConnectionEvent>) -> LearnModel
    decreases events.len(),
{
    if events.len() == 0 {
        m
    } else {
        learn_model_step(learn_run(m, events.drop_last()), events.last())
    }
}

/// One step never clears a condition and never removes a confirmed
/// external address: the state grows monotonically.
pub proof fn lemma_learn_step_monotone(m: LearnModel, e: ConnectionEvent)
    ensures
        m.told_relay ==> learn_model_step(m, e).told_relay,
        m.learned_observed ==> learn_model_step(m, e).learned_observed,
        m.externals.is_prefix_of(learn_model_step(m, e).externals),
{
    let stepped = learn_model_step(m, e);
    assert(stepped.externals == m.externals || stepped.externals == m.externals.push(
        stepped.externals.last(),
    ));
    assert(m.externals.is_prefix_of(stepped.externals));
}

/// Over a whole run, the set of confirmed external addresses only grows:
/// once confirmed, an address is never removed within a run.
pub proof fn lemma_externals_monotone(m: LearnModel, events: Seq<ConnectionEvent>)
    ensures
        m.externals.is_prefix_of(learn_run(m, events).externals),
    decreases events.len(),
{
    if events.len() == 0 {
    } else {
        lemma_externals_monotone(m, events.drop_last());
        lemma_learn_step_monotone(learn_run(m, events.drop_last()), events.last());
    }
}

proof fn lemma_told_requires_sent(m: LearnModel, events: Seq<ConnectionEvent>)
    requires
        !m.told_relay,
        forall|i: int| 0 <= i < events.len() ==> !tells_relay(#[trigger] events[i]),
    ensures
        !learn_run(m, events).told_relay,
    decreases events.len(),
{
    if events.len() == 0 {
    } else {
        lemma_told_requires_sent(m, events.drop_last());
    }
}

proof fn lemma_learned_requires_received(m: LearnModel, events: Seq<ConnectionEvent>)
    requires
        !m.learned_observed,
        forall|i: int| 0 <= i < events.len() ==> !learns_observed(#[trigger] events[i]),
    ensures
        !learn_run(m, events).learned_observed,
    decreases events.len(),
{
    if events.len() == 0 {
    } else {
        lemma_learned_requires_received(m, events.drop_last());
    }
}

/// Handshake completion requires both conditions. A run of events in which
/// this node never told the relay its observed address, or never learned
/// its own from the relay, never reaches the completed state — whatever
/// else happened.
pub proof fn lemma_completion_requires_both_conditions(events: Seq<ConnectionEvent>)
    requires
        (forall|i: int| 0 <= i < events.len() ==> !tells_relay(#[trigger] events[i])) || (forall|
            i: int,
        | 0 <= i < events.len() ==> !learns_observed(#[trigger] events[i])),
    ensures
        !learn_completed(learn_run(learn_init_model(), events)),
{
    if forall|i: int| 0 <= i < events.len() ==> !tells_relay(#[trigger] events[i]) {
        lemma_told_requires_sent(learn_init_model(), events);
    } else {
        lemma_learned_requires_received(learn_init_model(), events);
    }
}

} // verus!
