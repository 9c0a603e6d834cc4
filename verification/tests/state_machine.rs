use flowcontrol::edge_detection::EdgeCrossedEvent;
use flowcontrol::protocol::Message;
use flowcontrol::screen_layout::Edge;
use flowcontrol::state_machine::{Command, Event, State, StateMachine, StateMachineImpl};

fn make_crossed(y: f32) -> EdgeCrossedEvent<f32> {
    EdgeCrossedEvent {
        edge: Edge::Right,
        x_norm: 1.0,
        y_norm: y,
    }
}

#[test]
fn test_forward_sequence() {
    let mut sm = StateMachineImpl::new();
    assert_eq!(sm.state(), State::Local);

    let cmds = sm.handle(Event::EdgeCrossed(make_crossed(0.5)));
    assert_eq!(sm.state(), State::Remote);
    assert_eq!(cmds.len(), 2);
    assert!(matches!(cmds[0], Command::StartForwarding));
    assert!(matches!(cmds[1], Command::Send(_)));

    // TransitionAcknowledged is now a no-op in Remote
    let cmds = sm.handle(Event::<f32>::TransitionAcknowledged);
    assert_eq!(sm.state(), State::Remote);
    assert!(cmds.is_empty());
}

#[test]
fn test_return_sequence() {
    let mut sm = StateMachineImpl::new();
    sm.state = State::Remote;

    let cmds = sm.handle(Event::CursorReturnedToLocal { y_norm: 0.4f32 });
    assert_eq!(sm.state(), State::ReturnTransitioning);
    assert_eq!(cmds.len(), 2);
    assert!(matches!(cmds[0], Command::Send(_)));
    assert!(
        matches!(cmds[1], Command::ReturnCursorToLocal { y_norm } if (y_norm - 0.4).abs() < f32::EPSILON)
    );

    let cmds = sm.handle(Event::<f32>::TransitionAcknowledged);
    assert_eq!(sm.state(), State::Local);
    assert!(cmds.is_empty());
}

#[test]
fn test_client_transition_in() {
    let mut sm = StateMachineImpl::new_as_client();
    assert_eq!(sm.state(), State::Remote);

    let cmds = sm.handle(Event::TransitionInReceived { y_norm: 0.6f32 });
    assert_eq!(sm.state(), State::Local);
    assert_eq!(cmds.len(), 3);
    assert!(matches!(cmds[0], Command::StopForwarding));
    assert!(matches!(cmds[1], Command::AcceptCursor { .. }));
    assert!(matches!(cmds[2], Command::Send(_)));
}

#[test]
fn test_connection_lost_from_all_states() {
    for start in [
        State::Pairing,
        State::Local,
        State::Transitioning,
        State::Remote,
        State::ReturnTransitioning,
    ] {
        let mut sm = StateMachineImpl {
            state: start,
            home: State::Local,
        };
        sm.handle(Event::<f32>::ConnectionLost);
        assert_eq!(
            sm.state(),
            State::Local,
            "ConnectionLost from {start:?} should → home (Local)"
        );
    }
}

#[test]
fn test_connection_established_enters_pairing() {
    let mut server = StateMachineImpl::new();
    server.handle(Event::<f32>::ConnectionEstablished);
    assert_eq!(server.state(), State::Pairing);

    let mut client = StateMachineImpl::new_as_client();
    client.handle(Event::<f32>::ConnectionEstablished);
    assert_eq!(client.state(), State::Pairing);
}

#[test]
fn test_pair_accept_returns_to_home() {
    let mut server = StateMachineImpl::new();
    server.handle(Event::<f32>::ConnectionEstablished);
    server.handle(Event::<f32>::PairAccepted);
    assert_eq!(server.state(), State::Local);

    let mut client = StateMachineImpl::new_as_client();
    client.handle(Event::<f32>::ConnectionEstablished);
    client.handle(Event::<f32>::PairAccepted);
    assert_eq!(client.state(), State::Remote);
}

#[test]
fn test_pair_decline_returns_to_home() {
    let mut client = StateMachineImpl::new_as_client();
    client.handle(Event::<f32>::ConnectionEstablished);
    client.handle(Event::<f32>::PairDeclined);
    assert_eq!(client.state(), State::Remote);
}

#[test]
fn test_client_return_transition() {
    // Client had cursor (Local), server recalls it via TransitionIn.
    let mut sm = StateMachineImpl::new();
    sm.state = State::Local;
    let cmds = sm.handle(Event::TransitionInReceived { y_norm: 0.5f32 });
    assert_eq!(sm.state(), State::Remote);
    assert_eq!(cmds.len(), 1);
    assert!(matches!(cmds[0], Command::Send(Message::Ack)));
}

#[test]
fn test_full_round_trip_twice() {
    // Simulates two server + client state machines going through 2 full cycles.
    let mut server = StateMachineImpl::new(); // starts Local
    let mut client = StateMachineImpl::new_as_client(); // starts Remote

    for _ in 0..2 {
        // Forward: server detects edge
        let cmds = server.handle(Event::EdgeCrossed(make_crossed(0.5)));
        assert_eq!(server.state(), State::Remote);
        assert_eq!(cmds.len(), 2);
        assert!(matches!(cmds[0], Command::StartForwarding));
        assert!(matches!(
            cmds[1],
            Command::Send(Message::TransitionIn { .. })
        ));

        // Client receives TransitionIn (Remote → Local)
        let cmds = client.handle(Event::TransitionInReceived { y_norm: 0.5f32 });
        assert_eq!(client.state(), State::Local);
        assert!(matches!(cmds[2], Command::Send(Message::Ack)));

        // Server receives Ack — now a no-op (already in Remote)
        let cmds = server.handle(Event::<f32>::TransitionAcknowledged);
        assert_eq!(server.state(), State::Remote);
        assert!(cmds.is_empty());

        // Return: server detects cursor back
        let cmds = server.handle(Event::CursorReturnedToLocal { y_norm: 0.5f32 });
        assert_eq!(server.state(), State::ReturnTransitioning);
        assert!(matches!(
            cmds[0],
            Command::Send(Message::TransitionIn { .. })
        ));

        // Client receives TransitionIn (Local → Remote)
        let cmds = client.handle(Event::TransitionInReceived { y_norm: 0.5f32 });
        assert_eq!(client.state(), State::Remote);
        assert!(matches!(cmds[0], Command::Send(Message::Ack)));

        // Server receives Ack (ReturnTransitioning → Local)
        server.handle(Event::<f32>::TransitionAcknowledged);
        assert_eq!(server.state(), State::Local);
    }
}

#[test]
fn test_stray_events_ignored() {
    let mut sm = StateMachineImpl::new();
    sm.state = State::Remote;
    let cmds = sm.handle(Event::EdgeCrossed(make_crossed(0.5)));
    assert!(cmds.is_empty());
    assert_eq!(sm.state(), State::Remote);
}

#[test]
fn reset_returns_to_home() {
    let mut sm = StateMachineImpl::new_as_client();
    sm.handle(Event::<f32>::ConnectionEstablished);
    assert_eq!(sm.state(), State::Pairing);
    sm.reset();
    assert_eq!(sm.state(), State::Remote);
}

#[test]
fn pairing_ignores_coordinate_events() {
    let mut sm = StateMachineImpl::new();
    sm.handle(Event::<f32>::ConnectionEstablished);
    assert!(sm.handle(Event::EdgeCrossed(make_crossed(0.3))).is_empty());
    assert!(sm.handle(Event::TransitionInReceived { y_norm: 0.3f32 }).is_empty());
    assert!(sm.handle(Event::CursorReturnedToLocal { y_norm: 0.3f32 }).is_empty());
    assert!(sm.handle(Event::<f32>::TransitionAcknowledged).is_empty());
    assert_eq!(sm.state(), State::Pairing);
}

#[test]
fn server_losing_peer_while_forwarding_stops_forwarding() {
    let mut sm = StateMachineImpl::new();
    sm.state = State::Remote;
    let cmds = sm.handle(Event::<f32>::ConnectionLost);
    assert_eq!(sm.state(), State::Local);
    assert_eq!(cmds.len(), 1);
    assert!(matches!(cmds[0], Command::StopForwarding));
}

#[test]
fn crossing_height_is_carried_to_the_peer() {
    let mut server = StateMachineImpl::new();
    let cmds = server.handle(Event::EdgeCrossed(make_crossed(0.25)));
    match &cmds[1] {
        Command::Send(Message::TransitionIn { y_norm }) => assert_eq!(*y_norm, 0.25),
        _ => panic!("expected TransitionIn"),
    }
    let mut client = StateMachineImpl::new_as_client();
    let cmds = client.handle(Event::TransitionInReceived { y_norm: 0.25f32 });
    assert!(matches!(cmds[1], Command::AcceptCursor { y_norm } if y_norm == 0.25));
}

#[test]
fn pair_decline_behaves_like_connection_lost() {
    let mut sm = StateMachineImpl::new();
    sm.handle(Event::EdgeCrossed(make_crossed(0.5)));
    assert_eq!(sm.state(), State::Remote);
    let cmds = sm.handle(Event::<f32>::PairDeclined);
    assert_eq!(sm.state(), State::Local);
    assert_eq!(cmds.len(), 1);
    assert!(matches!(cmds[0], Command::StopForwarding));

    let mut client = StateMachineImpl::new_as_client();
    client.state = State::Local;
    assert!(client.handle(Event::<f32>::PairDeclined).is_empty());
    assert_eq!(client.state(), State::Remote);
}
