use p2pmidi::address::{relay_endpoint, NetworkAddress, Segment};
use p2pmidi::client::{CircuitRequest, CircuitStatus, Mode, SteadyAction};
use p2pmidi::engine::{ConnectionEngine, EngineAction, EngineInput, EnginePhase};
use p2pmidi::events::{BehaviourEvent, ConnectionEvent, HolePunchEvent, IdentifyEvent, RelayEvent};
use p2pmidi::identity::derive_identity;

fn listener(port: u16) -> NetworkAddress {
    NetworkAddress::empty()
        .with_segment(Segment::Ip4("0.0.0.0".to_string()))
        .with_segment(Segment::Tcp(port))
}

fn told() -> ConnectionEvent {
    ConnectionEvent::Behaviour(BehaviourEvent::Identify(IdentifyEvent::Sent))
}

fn learned(port: u16) -> ConnectionEvent {
    ConnectionEvent::Behaviour(BehaviourEvent::Identify(IdentifyEvent::Received {
        observed: listener(port),
    }))
}

#[test]
fn engine_runs_the_phases_in_order() {
    // Seed 42 dials through example.relay:8040 to reach seed 44.
    let remote = derive_identity(44);
    let relay = relay_endpoint("example.relay", 8040, false);
    let mut engine = ConnectionEngine::new(Mode::Dial, relay, remote.clone());
    assert_eq!(engine.phase, EnginePhase::Binding);

    // Bind phase: listeners are recorded; other events are reported.
    let a = engine.step(EngineInput::Transport(ConnectionEvent::NewListenAddr {
        address: listener(49152),
    }));
    assert_eq!(a, EngineAction::ListenerRecorded);
    let a = engine.step(EngineInput::Transport(ConnectionEvent::ConnectionClosed));
    assert_eq!(a, EngineAction::UnexpectedWhileBinding);
    assert_eq!(engine.bind.listeners.len(), 1);

    // The grace period elapses: the engine asks for the relay dial.
    let a = engine.step(EngineInput::GraceElapsed);
    assert_eq!(
        a,
        EngineAction::DialRelay(relay_endpoint("example.relay", 8040, false))
    );
    assert_eq!(engine.phase, EnginePhase::Learning);

    // The relay round trip: pending until both conditions, then the
    // circuit request, with the exact composed address.
    assert_eq!(
        engine.step(EngineInput::Transport(ConnectionEvent::ConnectionEstablished)),
        EngineAction::HandshakePending
    );
    assert_eq!(
        engine.step(EngineInput::Transport(told())),
        EngineAction::HandshakePending
    );
    let a = engine.step(EngineInput::Transport(learned(50000)));
    let requested = match a {
        EngineAction::RequestCircuit(CircuitRequest::DialThrough(addr)) => addr,
        other => panic!("expected a circuit dial, got {other:?}"),
    };
    assert_eq!(
        requested.render(),
        format!("/ip4/example.relay/tcp/8040/p2p-circuit/p2p/{}", remote.peer_id)
    );
    assert_eq!(engine.phase, EnginePhase::Steady);

    // Steady state: the relayed circuit comes up, a failed hole punch
    // leaves it standing.
    engine.step(EngineInput::Transport(ConnectionEvent::Behaviour(BehaviourEvent::Relay(
        RelayEvent::OutboundCircuitEstablished,
    ))));
    assert_eq!(engine.circuit, CircuitStatus::Relayed);
    let a = engine.step(EngineInput::Transport(ConnectionEvent::Behaviour(
        BehaviourEvent::HolePunch(HolePunchEvent::Failed),
    )));
    assert_eq!(a, EngineAction::Act(SteadyAction::LogHolePunch));
    assert_eq!(engine.circuit, CircuitStatus::Relayed);
}

#[test]
fn engine_reserves_in_listen_mode() {
    let remote = derive_identity(44);
    let relay = relay_endpoint("example.relay", 8040, false);
    let mut engine = ConnectionEngine::new(Mode::Listen, relay, remote);
    engine.step(EngineInput::GraceElapsed);
    engine.step(EngineInput::Transport(told()));
    let a = engine.step(EngineInput::Transport(learned(50000)));
    let requested = match a {
        EngineAction::RequestCircuit(CircuitRequest::ReserveOn(addr)) => addr,
        other => panic!("expected a reservation request, got {other:?}"),
    };
    assert_eq!(requested.render(), "/ip4/example.relay/tcp/8040/p2p-circuit");
}

#[test]
fn engine_reports_handshake_failure_and_stays_retryable() {
    let remote = derive_identity(44);
    let relay = relay_endpoint("example.relay", 8040, false);
    let mut engine = ConnectionEngine::new(Mode::Listen, relay, remote);
    engine.step(EngineInput::GraceElapsed);
    // The relay is unreachable: the dial fails, which the learning phase
    // reports as an explicit, recoverable failure — no hang, no abort.
    let a = engine.step(EngineInput::Transport(ConnectionEvent::OutgoingConnectionError));
    assert_eq!(a, EngineAction::HandshakeFailed);
    assert_eq!(engine.phase, EnginePhase::Learning);
    // The round trip can be retried and still completes.
    engine.step(EngineInput::Transport(told()));
    let a = engine.step(EngineInput::Transport(learned(50000)));
    assert!(matches!(a, EngineAction::RequestCircuit(_)));
}

#[test]
fn engine_never_requests_a_circuit_while_binding() {
    let remote = derive_identity(44);
    let relay = relay_endpoint("example.relay", 8040, false);
    let mut engine = ConnectionEngine::new(Mode::Dial, relay, remote);
    // Identification events before the grace period do not move the engine
    // out of the bind phase, let alone request a circuit.
    let a = engine.step(EngineInput::Transport(told()));
    assert_eq!(a, EngineAction::UnexpectedWhileBinding);
    let a = engine.step(EngineInput::Transport(learned(50000)));
    assert_eq!(a, EngineAction::UnexpectedWhileBinding);
    assert_eq!(engine.phase, EnginePhase::Binding);
}

#[test]
fn grace_period_means_nothing_after_binding() {
    let remote = derive_identity(44);
    let relay = relay_endpoint("example.relay", 8040, false);
    let mut engine = ConnectionEngine::new(Mode::Dial, relay, remote);
    engine.step(EngineInput::GraceElapsed);
    assert_eq!(engine.step(EngineInput::GraceElapsed), EngineAction::Idle);
    assert_eq!(engine.phase, EnginePhase::Learning);
}
