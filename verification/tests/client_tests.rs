use p2pmidi::address::relay_endpoint;
use p2pmidi::client::{
    circuit_request, steady_step, CircuitRequest, CircuitStatus, Mode, SteadyAction, SteadyState,
};
use p2pmidi::events::{
    BehaviourEvent, ConnectionEvent, HolePunchEvent, IdentifyEvent, RelayEvent,
};
use p2pmidi::handshake::{learn_init, learn_step, LearnOutcome};
use p2pmidi::identity::derive_identity;

#[test]
fn mode_from_str_reads_the_two_selectors() {
    assert_eq!(Mode::from_str("dial"), Ok(Mode::Dial));
    assert_eq!(Mode::from_str("listen"), Ok(Mode::Listen));
}

#[test]
fn mode_from_str_rejects_anything_else() {
    assert_eq!(
        Mode::from_str("serve"),
        Err("Expected either 'dial' or 'listen'".to_string())
    );
    assert_eq!(
        Mode::from_str(""),
        Err("Expected either 'dial' or 'listen'".to_string())
    );
    assert_eq!(
        Mode::from_str("Dial"),
        Err("Expected either 'dial' or 'listen'".to_string())
    );
}

#[test]
fn dial_mode_scenario_reaches_an_explicit_outcome() {
    // Seed 42 dials the relay at example.relay:8040 over IPv4 to reach
    // the remote node of seed 44.
    let local = derive_identity(42);
    let remote = derive_identity(44);
    assert_ne!(local.peer_id, remote.peer_id);
    let relay = relay_endpoint("example.relay", 8040, false);

    // The relay round trip: both identification events fire, and only
    // then is the handshake complete.
    let mut learn = learn_init();
    assert_eq!(
        learn_step(&mut learn, ConnectionEvent::Dialing),
        LearnOutcome::Pending
    );
    assert_eq!(
        learn_step(&mut learn, ConnectionEvent::ConnectionEstablished),
        LearnOutcome::Pending
    );
    assert_eq!(
        learn_step(
            &mut learn,
            ConnectionEvent::Behaviour(BehaviourEvent::Identify(IdentifyEvent::Sent))
        ),
        LearnOutcome::Pending
    );
    assert_eq!(
        learn_step(
            &mut learn,
            ConnectionEvent::Behaviour(BehaviourEvent::Identify(IdentifyEvent::Received {
                observed: relay_endpoint("203.0.113.9", 50000, false),
            }))
        ),
        LearnOutcome::Complete
    );

    // The circuit dial goes to the relay's address extended with the
    // circuit marker and the remote identity.
    let request = circuit_request(Mode::Dial, relay, &remote);
    let dial_addr = match request {
        CircuitRequest::DialThrough(a) => a,
        CircuitRequest::ReserveOn(_) => panic!("Dial mode must dial"),
    };
    assert_eq!(
        dial_addr.render(),
        format!("/ip4/example.relay/tcp/8040/p2p-circuit/p2p/{}", remote.peer_id)
    );

    // Whatever the dial's fate, the engine answers with an explicit
    // action: success is logged, failure is reported — never silence.
    let mut ok_side = SteadyState { mode: Mode::Dial, circuit: CircuitStatus::Inactive };
    let a = steady_step(
        &mut ok_side,
        &ConnectionEvent::Behaviour(BehaviourEvent::Relay(RelayEvent::OutboundCircuitEstablished)),
    );
    assert_eq!(a, SteadyAction::LogRelayEvent);
    assert_eq!(ok_side.circuit, CircuitStatus::Relayed);

    let mut failed_side = SteadyState { mode: Mode::Dial, circuit: CircuitStatus::Inactive };
    let a = steady_step(&mut failed_side, &ConnectionEvent::OutgoingConnectionError);
    assert_eq!(a, SteadyAction::ReportDialFailure);
    assert_eq!(failed_side.circuit, CircuitStatus::Inactive);
}

#[test]
fn listen_mode_reserves_on_the_circuit_address() {
    let remote = derive_identity(44);
    let relay = relay_endpoint("example.relay", 8040, false);
    let request = circuit_request(Mode::Listen, relay, &remote);
    let listen_addr = match request {
        CircuitRequest::ReserveOn(a) => a,
        CircuitRequest::DialThrough(_) => panic!("Listen mode must reserve"),
    };
    assert_eq!(listen_addr.render(), "/ip4/example.relay/tcp/8040/p2p-circuit");
}

#[test]
fn failed_hole_punch_keeps_the_relayed_circuit() {
    let mut st = SteadyState { mode: Mode::Dial, circuit: CircuitStatus::Inactive };
    steady_step(
        &mut st,
        &ConnectionEvent::Behaviour(BehaviourEvent::Relay(RelayEvent::OutboundCircuitEstablished)),
    );
    assert_eq!(st.circuit, CircuitStatus::Relayed);
    let a = steady_step(
        &mut st,
        &ConnectionEvent::Behaviour(BehaviourEvent::HolePunch(HolePunchEvent::Failed)),
    );
    assert_eq!(a, SteadyAction::LogHolePunch);
    // The relayed circuit remains usable: no forced disconnect occurred.
    assert_eq!(st.circuit, CircuitStatus::Relayed);
}

#[test]
fn successful_hole_punch_upgrades_the_circuit() {
    let mut st = SteadyState { mode: Mode::Listen, circuit: CircuitStatus::Relayed };
    let a = steady_step(
        &mut st,
        &ConnectionEvent::Behaviour(BehaviourEvent::HolePunch(HolePunchEvent::Succeeded)),
    );
    assert_eq!(a, SteadyAction::LogHolePunch);
    assert_eq!(st.circuit, CircuitStatus::Direct);
}

#[test]
fn reservation_acceptance_belongs_to_listen_mode() {
    let event = ConnectionEvent::Behaviour(BehaviourEvent::Relay(RelayEvent::ReservationAccepted));
    let mut listener = SteadyState { mode: Mode::Listen, circuit: CircuitStatus::Inactive };
    assert_eq!(steady_step(&mut listener, &event), SteadyAction::NoteReservationAccepted);
    let mut dialer = SteadyState { mode: Mode::Dial, circuit: CircuitStatus::Inactive };
    assert_eq!(steady_step(&mut dialer, &event), SteadyAction::ProtocolViolation);
}

#[test]
fn reservation_denial_is_fatal_to_listen_mode() {
    let event = ConnectionEvent::Behaviour(BehaviourEvent::Relay(RelayEvent::ReservationFailed));
    let mut listener = SteadyState { mode: Mode::Listen, circuit: CircuitStatus::Inactive };
    assert_eq!(steady_step(&mut listener, &event), SteadyAction::ReportReservationDenied);
}

#[test]
fn unrecognized_events_are_ignorable_not_a_crash() {
    let mut st = SteadyState { mode: Mode::Dial, circuit: CircuitStatus::Relayed };
    assert_eq!(steady_step(&mut st, &ConnectionEvent::Other), SteadyAction::Ignore);
    assert_eq!(steady_step(&mut st, &ConnectionEvent::ConnectionClosed), SteadyAction::Ignore);
    assert_eq!(st.circuit, CircuitStatus::Relayed);
}
