use flowcontrol::coordinator::{Action, CoordinatorCore, CrossDirection, InputKind, InputRoute, Role, Status};
use flowcontrol::edge_detection::EdgeCrossedEvent;
use flowcontrol::fingerprint::render;
use flowcontrol::network::{ConnectionState, NetworkEvent, Peer};
use flowcontrol::protocol::Message;
use flowcontrol::screen_layout::{Edge, NeighborSide, ScreenDimensions};
use flowcontrol::state_machine::State;

const DIMS: ScreenDimensions = ScreenDimensions { width: 1920, height: 1080 };

fn make_core(role: Role, nonce: [u8; 16]) -> CoordinatorCore<f32> {
    CoordinatorCore::from_nonce(role, "Desk".to_string(), "mac".to_string(), DIMS, NeighborSide::Right, nonce)
}

fn paired(role: Role) -> CoordinatorCore<f32> {
    let mut c = make_core(role, [3; 16]);
    c.on_network(NetworkEvent::StateChanged(ConnectionState::Connected));
    c.on_pair_response(true);
    c
}

#[test]
fn fresh_coordinators_rest_at_home() {
    let s = make_core(Role::Server, [1; 16]);
    assert_eq!(s.state_machine.state, State::Local);
    let c = make_core(Role::Client, [1; 16]);
    assert_eq!(c.state_machine.state, State::Remote);
    assert_eq!(s.current_status(ConnectionState::Disconnected), Status::Stopped);
    assert_eq!(s.current_status(ConnectionState::Browsing), Status::Searching);
    assert_eq!(s.current_status_str(ConnectionState::Advertising), "Searching");
}

#[test]
fn random_constructors_start_unpaired() {
    let s = CoordinatorCore::<f32>::new_server("A".to_string(), "mac".to_string(), DIMS, NeighborSide::Left).unwrap();
    assert_eq!(s.role, Role::Server);
    assert_eq!(s.state_machine.state, State::Local);
    let c = CoordinatorCore::<f32>::new_client("B".to_string(), "win".to_string(), DIMS, NeighborSide::Left).unwrap();
    assert_eq!(c.role, Role::Client);
    assert_eq!(c.state_machine.state, State::Remote);
}

#[test]
fn connecting_sends_pair_request_and_arms_timer() {
    let mut c = make_core(Role::Server, [5; 16]);
    let acts = c.on_network(NetworkEvent::StateChanged(ConnectionState::Connected));
    assert!(c.had_connection);
    assert_eq!(c.state_machine.state, State::Pairing);
    assert_eq!(acts.len(), 3);
    match &acts[0] {
        Action::Send(Message::PairRequest { nonce, device_name, os }) => {
            assert_eq!(*nonce, [5; 16]);
            assert_eq!(device_name, "Desk");
            assert_eq!(os, "mac");
        },
        _ => panic!("expected PairRequest"),
    }
    assert!(matches!(acts[1], Action::ArmPairTimer));
    assert!(matches!(acts[2], Action::EmitStatus));
    assert_eq!(c.current_status(ConnectionState::Connected), Status::Searching);
}

#[test]
fn coordinates_are_dropped_while_pairing() {
    let mut c = make_core(Role::Client, [5; 16]);
    c.on_network(NetworkEvent::StateChanged(ConnectionState::Connected));
    assert!(c.on_message(Message::MouseMove { x_norm: 0.5, y_norm: 0.5, button: None }).is_empty());
    assert!(c.on_message(Message::TransitionIn { y_norm: 0.5 }).is_empty());
    assert!(matches!(c.route_input(InputKind::Move, ConnectionState::Connected), InputRoute::Ignore));
    assert_eq!(c.state_machine.state, State::Pairing);
}

#[test]
fn pair_request_shows_shared_fingerprint() {
    let server_nonce = [1u8; 16];
    let client_nonce = [2u8; 16];
    let mut server = make_core(Role::Server, server_nonce);
    let mut client = make_core(Role::Client, client_nonce);
    let from_client = server.on_message(Message::PairRequest {
        nonce: client_nonce,
        device_name: "Laptop".to_string(),
        os: "win".to_string(),
    });
    let from_server = client.on_message(Message::PairRequest {
        nonce: server_nonce,
        device_name: "Desk".to_string(),
        os: "mac".to_string(),
    });
    let fp = flowcontrol::fingerprint::derive(&client_nonce, &server_nonce);
    let text = |acts: &Vec<Action<f32>>| match &acts[0] {
        Action::EmitPairIncoming { fingerprint, .. } => Some(fingerprint.clone()),
        Action::Halt => None,
        _ => panic!("unexpected action"),
    };
    assert_eq!(text(&from_client), text(&from_server));
    assert_eq!(server.derive_fingerprint_string(), client.derive_fingerprint_string());
    if flowcontrol::fingerprint::is_renderable(&fp) {
        assert_eq!(text(&from_client), Some(render(&fp)));
    }
    match &from_client[0] {
        Action::EmitPairIncoming { peer_name, os, .. } => {
            assert_eq!(peer_name, "Laptop");
            assert_eq!(os, "win");
        },
        Action::Halt => {},
        _ => panic!("unexpected action"),
    }
    assert_eq!(server.peer_name.as_deref(), Some("Laptop"));
}

#[test]
fn fingerprint_is_empty_before_pair_request() {
    let c = make_core(Role::Server, [1; 16]);
    assert_eq!(c.derive_fingerprint_string(), Some(String::new()));
}

#[test]
fn accepting_publishes_screen_and_returns_home() {
    let mut c = make_core(Role::Server, [1; 16]);
    c.on_network(NetworkEvent::StateChanged(ConnectionState::Connected));
    let acts = c.on_pair_response(true);
    assert_eq!(c.state_machine.state, State::Local);
    assert_eq!(acts.len(), 5);
    assert!(matches!(acts[0], Action::CancelPairTimer));
    assert!(matches!(acts[1], Action::Send(Message::PairAccept)));
    assert!(matches!(acts[2], Action::Send(Message::ScreenInfo(d)) if d == DIMS));
    assert!(matches!(acts[3], Action::EmitPairResolved));
    assert!(matches!(acts[4], Action::EmitStatus));
    assert_eq!(c.current_status(ConnectionState::Connected), Status::Connected);
    // A second answer has no effect once pairing is over.
    assert!(c.on_pair_response(false).is_empty());
}

#[test]
fn declining_closes_the_connection() {
    let mut c = make_core(Role::Client, [1; 16]);
    c.on_network(NetworkEvent::StateChanged(ConnectionState::Connected));
    let acts = c.on_pair_response(false);
    assert_eq!(c.state_machine.state, State::Remote);
    assert!(matches!(acts[1], Action::Send(Message::PairDecline)));
    assert!(matches!(acts[2], Action::StopNetwork));
}

#[test]
fn timeout_declines_and_reports() {
    let mut c = make_core(Role::Client, [1; 16]);
    c.on_network(NetworkEvent::StateChanged(ConnectionState::Connected));
    let acts = c.on_pair_timeout();
    assert_eq!(acts.len(), 5);
    assert!(matches!(acts[0], Action::Send(Message::PairDecline)));
    assert!(matches!(acts[1], Action::EmitPairTimeout));
    assert!(matches!(acts[2], Action::EmitPairResolved));
    assert!(matches!(acts[3], Action::StopNetwork));
    assert!(c.on_pair_timeout().is_empty());
}

#[test]
fn peer_accept_message_completes_pairing() {
    let mut c = make_core(Role::Server, [1; 16]);
    c.on_network(NetworkEvent::StateChanged(ConnectionState::Connected));
    let acts = c.on_message(Message::PairAccept);
    assert_eq!(c.state_machine.state, State::Local);
    assert!(matches!(acts[0], Action::CancelPairTimer));
    assert!(matches!(acts[1], Action::Send(Message::ScreenInfo(_))));
}

#[test]
fn peer_decline_message_tears_down() {
    let mut c = make_core(Role::Server, [1; 16]);
    c.on_network(NetworkEvent::StateChanged(ConnectionState::Connected));
    let acts = c.on_message(Message::PairDecline);
    assert_eq!(c.state_machine.state, State::Local);
    assert!(acts.iter().any(|a| matches!(a, Action::StopNetwork)));
}

#[test]
fn edge_crossing_hands_cursor_over_once() {
    let mut c = paired(Role::Server);
    assert!(matches!(c.route_input(InputKind::Move, ConnectionState::Connected), InputRoute::DetectEdge));
    assert!(matches!(c.route_input(InputKind::Move, ConnectionState::Disconnected), InputRoute::Ignore));
    let acts = c.on_edge_crossed(EdgeCrossedEvent { edge: Edge::Right, y_norm: 0.25, x_norm: 1.0 });
    assert_eq!(c.state_machine.state, State::Remote);
    assert_eq!(acts.len(), 4);
    assert!(matches!(acts[0], Action::BeginForwarding { y_norm: Some(y), return_edge: Edge::Left } if y == 0.25));
    assert!(matches!(acts[1], Action::EmitCursorCrossed(CrossDirection::ToRemote)));
    assert!(matches!(acts[2], Action::Send(Message::TransitionIn { y_norm }) if y_norm == 0.25));
    assert!(matches!(acts[3], Action::EmitStatus));
    assert!(c.pending_transition_y_norm.is_none());
    assert_eq!(c.current_status(ConnectionState::Connected), Status::Remote);
}

#[test]
fn remote_state_forwards_clicks_and_tracks_deltas() {
    let mut c = paired(Role::Server);
    c.on_edge_crossed(EdgeCrossedEvent { edge: Edge::Right, y_norm: 0.5, x_norm: 1.0 });
    assert!(matches!(c.route_input(InputKind::Delta, ConnectionState::Connected), InputRoute::TrackDelta));
    assert!(matches!(c.route_input(InputKind::Move, ConnectionState::Connected), InputRoute::Ignore));
    assert!(matches!(
        c.route_input(InputKind::Button { button: 1, pressed: true }, ConnectionState::Connected),
        InputRoute::Forward(Message::MouseButton { button: 1, pressed: true })
    ));
    assert!(matches!(
        c.route_input(InputKind::Scroll { dx: 0.0, dy: 2.0 }, ConnectionState::Connected),
        InputRoute::Forward(Message::Scroll { dy, .. }) if dy == 2.0
    ));
}

#[test]
fn cursor_return_recalls_and_notifies_once() {
    let mut c = paired(Role::Server);
    c.on_edge_crossed(EdgeCrossedEvent { edge: Edge::Right, y_norm: 0.5, x_norm: 1.0 });
    let acts = c.on_cursor_returned(0.75);
    assert_eq!(c.state_machine.state, State::ReturnTransitioning);
    assert_eq!(acts.len(), 5);
    assert!(matches!(acts[0], Action::Send(Message::TransitionIn { y_norm }) if y_norm == 0.75));
    assert!(matches!(acts[1], Action::RestoreCursor { side: NeighborSide::Right, y_norm } if y_norm == 0.75));
    assert!(matches!(acts[2], Action::ResetEdgeDetection));
    assert!(matches!(acts[3], Action::EmitCursorCrossed(CrossDirection::ToLocal)));
    let acts = c.on_message(Message::Ack);
    assert_eq!(c.state_machine.state, State::Local);
    assert!(acts.is_empty());
}

#[test]
fn client_receives_cursor_and_injects() {
    let mut c = paired(Role::Client);
    let acts = c.on_message(Message::ScreenInfo(ScreenDimensions { width: 2560, height: 1440 }));
    assert!(matches!(acts[0], Action::ConfigureEdgeDetection { edge: Edge::Right, bounds } if bounds == DIMS));
    assert_eq!(c.screen_layout.watched_edge(), Some(Edge::Right));
    let acts = c.on_message(Message::TransitionIn { y_norm: 0.4 });
    assert_eq!(c.state_machine.state, State::Local);
    assert!(matches!(acts[0], Action::EndForwarding));
    assert!(matches!(acts[1], Action::PlaceCursor { entry: Some(Edge::Right), y_norm } if y_norm == 0.4));
    assert!(matches!(acts[2], Action::ResetEdgeDetection));
    assert!(matches!(acts[3], Action::Send(Message::Ack)));
    assert!(matches!(acts[4], Action::EmitStatus));
    let acts = c.on_message(Message::MouseMove { x_norm: 0.1, y_norm: 0.2, button: Some(0) });
    assert!(matches!(acts[0], Action::InjectMove { button: Some(0), .. }));
    let acts = c.on_message(Message::MouseButton { button: 0, pressed: true });
    assert!(matches!(acts[0], Action::InjectButton { button: 0, pressed: true }));
    let acts = c.on_message(Message::Scroll { dx: 1.0, dy: -1.0 });
    assert!(matches!(acts[0], Action::InjectScroll { .. }));
    assert!(c.on_message(Message::TransitionOut).is_empty());
}

#[test]
fn losing_the_connection_reports_disconnected() {
    let mut c = paired(Role::Server);
    c.on_edge_crossed(EdgeCrossedEvent { edge: Edge::Right, y_norm: 0.5, x_norm: 1.0 });
    let acts = c.on_network(NetworkEvent::StateChanged(ConnectionState::Disconnected));
    assert_eq!(c.state_machine.state, State::Local);
    assert!(matches!(acts[0], Action::CancelPairTimer));
    assert!(matches!(acts[1], Action::EndForwarding));
    assert!(c.peer_nonce.is_none());
    assert_eq!(c.current_status(ConnectionState::Disconnected), Status::Disconnected);
}

#[test]
fn pausing_blocks_input_and_resuming_restores() {
    let mut c = paired(Role::Server);
    c.on_edge_crossed(EdgeCrossedEvent { edge: Edge::Right, y_norm: 0.5, x_norm: 1.0 });
    let acts = c.set_paused(true);
    assert!(matches!(acts[0], Action::ReleaseSuppression));
    assert_eq!(c.current_status(ConnectionState::Connected), Status::Paused);
    assert!(matches!(c.route_input(InputKind::Delta, ConnectionState::Connected), InputRoute::Ignore));
    assert!(c.set_paused(true).is_empty());
    let acts = c.set_paused(false);
    assert!(matches!(acts[0], Action::RestoreSuppression));
    assert_eq!(c.current_status(ConnectionState::Connected), Status::Remote);
}

#[test]
fn peers_updates_are_passed_through() {
    let mut c = make_core(Role::Client, [1; 16]);
    let acts = c.on_network(NetworkEvent::PeersUpdated(vec![Peer { id: "a".to_string(), name: "A".to_string() }]));
    assert!(matches!(&acts[0], Action::EmitPeersUpdated(p) if p.len() == 1));
    let acts = c.on_network(NetworkEvent::StateChanged(ConnectionState::Browsing));
    assert!(matches!(acts[0], Action::EmitStatus));
}

#[test]
fn status_strings() {
    assert_eq!(Status::Paused.as_str(), "Paused");
    assert_eq!(Status::Disconnected.as_str(), "Disconnected");
    assert_eq!(Status::Stopped.as_str(), "Stopped");
    assert_eq!(Status::Connected.as_str(), "Connected");
    assert_eq!(Status::Remote.as_str(), "Remote");
}

#[test]
fn peer_decline_while_forwarding_ends_forwarding() {
    let mut c = paired(Role::Server);
    c.on_edge_crossed(EdgeCrossedEvent { edge: Edge::Right, y_norm: 0.5, x_norm: 1.0 });
    assert_eq!(c.state_machine.state, State::Remote);
    let acts = c.on_message(Message::PairDecline);
    assert_eq!(c.state_machine.state, State::Local);
    assert_eq!(acts.len(), 6);
    assert!(matches!(acts[0], Action::CancelPairTimer));
    assert!(matches!(acts[1], Action::EndForwarding));
    assert!(matches!(acts[2], Action::EmitStatus));
    assert!(matches!(acts[3], Action::EmitPairResolved));
    assert!(matches!(acts[4], Action::StopNetwork));
    assert!(matches!(acts[5], Action::EmitStatus));
}

#[test]
fn paused_drops_inbound_injection_only() {
    let mut c = paired(Role::Client);
    c.set_paused(true);
    assert!(c.on_message(Message::MouseMove { x_norm: 0.5f32, y_norm: 0.5, button: None }).is_empty());
    assert!(c.on_message(Message::MouseButton { button: 0, pressed: true }).is_empty());
    assert!(c.on_message(Message::Scroll { dx: 1.0f32, dy: -1.0 }).is_empty());
    let acts = c.on_message(Message::TransitionIn { y_norm: 0.25f32 });
    assert_eq!(c.state_machine.state, State::Local);
    assert!(acts.iter().any(|a| matches!(a, Action::Send(Message::Ack))));
    c.set_paused(false);
    let acts = c.on_message(Message::MouseButton { button: 1, pressed: false });
    assert_eq!(acts.len(), 1);
    assert!(matches!(acts[0], Action::InjectButton { button: 1, pressed: false }));
}
