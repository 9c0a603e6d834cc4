//! The coordinator's decisions. The coordinator runs on each machine,
//! between the input layer, the network layer and the user interface. This
//! module holds its state and decides, for every event, what changes and
//! which actions the runtime must carry out (send a message, move the
//! cursor, notify the interface, arm a timer). Performing those actions —
//! and all coordinate arithmetic — is left to the runtime.
use vstd::prelude::*;
use crate::edge_detection::EdgeCrossedEvent;
use crate::fingerprint::{is_renderable, render, spec_derive, spec_render, spec_renderable};
use crate::network::{ConnectionState, NetworkEvent, Peer};
use crate::protocol::{is_coordinate_message, spec_is_coordinate_message, Message};
use crate::screen_layout::{
    opposite_edge, spec_neighbor_side_to_edge, spec_opposite_edge, Edge, NeighborSide, ScreenDimensions,
    ScreenLayoutImpl,
};
use crate::state_machine::{spec_handle, Command, Event, State, StateMachine, StateMachineImpl};

verus! {

/// Whether this peer owns the physical mouse (server) or only displays the
/// remote cursor (client).
#[derive(Debug, Clone, Copy, PartialEq, Eq, Structural)]
pub enum Role {
    Server,
    Client,
}

/// Which way the cursor just crossed.
#[derive(Debug, Clone, Copy, PartialEq, Eq, Structural)]
pub enum CrossDirection {
    ToRemote,
    ToLocal,
}

/// The status shown to the user.
#[derive(Debug, Clone, Copy, PartialEq, Eq, Structural)]
pub enum Status {
    Paused,
    Searching,
    Remote,
    Connected,
    Disconnected,
    Stopped,
}

pub open spec fn spec_status_text(s: Status) -> Seq<char> {
    match s {
        Status::Paused => "Paused"@,
        Status::Searching => "Searching"@,
        Status::Remote => "Remote"@,
        Status::Connected => "Connected"@,
        Status::Disconnected => "Disconnected"@,
        Status::Stopped => "Stopped"@,
    }
}

impl Status {
    /// The status string the interface listens for.
    pub fn as_str(&self) -> (s: &'static str)
        ensures
            s@ == spec_status_text(*self),
    {
        match self {
            Status::Paused => "Paused",
            Status::Searching => "Searching",
            Status::Remote => "Remote",
            Status::Connected => "Connected",
            Status::Disconnected => "Disconnected",
            Status::Stopped => "Stopped",
        }
    }
}

/// What the runtime must do, in order.
#[allow(inconsistent_fields)]
pub enum Action<F> {
    /// Hand a message to the network layer.
    Send(Message<F>),
    /// Publish the current status to the interface and the tray.
    EmitStatus,
    /// Show the pair prompt with the peer's name, the fingerprint and its OS.
    EmitPairIncoming { peer_name: String, fingerprint: String, os: String },
    EmitPairResolved,
    EmitPairTimeout,
    /// One edge crossing, in the given direction, to notify the user about.
    EmitCursorCrossed(CrossDirection),
    /// Publish the discovered peers to the interface and the tray.
    EmitPeersUpdated(Vec<Peer>),
    ArmPairTimer,
    CancelPairTimer,
    StopNetwork,
    /// Start forwarding: seed the virtual cursor at the crossing height
    /// (`None`: mid-height), watch `return_edge` for the cursor coming back,
    /// suppress local input and hide the cursor.
    BeginForwarding { y_norm: Option<F>, return_edge: Edge },
    /// Stop suppressing local input.
    EndForwarding,
    /// Show the cursor and place it where it enters through `entry` (the
    /// watched edge, if configured) at height `y_norm`.
    PlaceCursor { entry: Option<Edge>, y_norm: F },
    /// Stop suppressing local input, show the cursor and place it where it
    /// re-enters from the neighbor on `side`, at height `y_norm`.
    RestoreCursor { side: NeighborSide, y_norm: F },
    /// Clear the edge detector's "already at the edge" latch.
    ResetEdgeDetection,
    /// Watch `edge` of a screen of dimensions `bounds` for crossings.
    ConfigureEdgeDetection { edge: Edge, bounds: ScreenDimensions },
    InjectMove { x_norm: F, y_norm: F, button: Option<u8> },
    InjectButton { button: u8, pressed: bool },
    InjectScroll { dx: F, dy: F },
    /// Pausing: let local input through again and show the cursor.
    ReleaseSuppression,
    /// Resuming while forwarding: suppress local input and hide the cursor.
    RestoreSuppression,
    /// The pair fingerprint falls outside the display alphabet; the
    /// coordinator stops.
    Halt,
}

/// One input event, reduced to what routing depends on.
pub enum InputKind<F> {
    /// An absolute cursor position.
    Move,
    /// A raw hardware delta (local input suppressed).
    Delta,
    Button { button: u8, pressed: bool },
    Scroll { dx: F, dy: F },
}

/// Where an input event goes.
pub enum InputRoute<F> {
    Ignore,
    /// Feed the position to the edge detector.
    DetectEdge,
    /// Accumulate the delta into the virtual cursor and forward it.
    TrackDelta,
    /// Send this message to the peer.
    Forward(Message<F>),
}

pub struct CoordinatorCore<F> {
    pub state_machine: StateMachineImpl,
    pub screen_layout: ScreenLayoutImpl,
    /// Local screen dimensions — sent as `ScreenInfo` once paired.
    pub local_dims: ScreenDimensions,
    /// Physical side of the screen where the remote machine sits.
    pub neighbor_side: NeighborSide,
    /// Height of the last edge crossing, consumed when forwarding starts.
    pub pending_transition_y_norm: Option<F>,
    /// Whether a connection was ever established.
    pub had_connection: bool,
    pub role: Role,
    /// Human-readable device name sent in `PairRequest`.
    pub device_name: String,
    /// Operating system name sent in `PairRequest`.
    pub local_os: String,
    /// 16-byte nonce generated per coordinator; sent in our `PairRequest`.
    pub local_nonce: [u8; 16],
    pub peer_nonce: Option<[u8; 16]>,
    pub peer_name: Option<String>,
    pub peer_os: Option<String>,
    /// Pause/Resume: when true, keep TCP up but drop every outbound
    /// MouseMove/Button/Scroll and every inbound injected event. Pair
    /// messages and TransitionIn/Ack still flow, so the state machine stays
    /// consistent.
    pub suppressed: bool,
}

/// The status for a state machine state, a network state, the pause flag and
/// whether a connection ever existed.
pub open spec fn spec_status(suppressed: bool, state: State, net: ConnectionState, had_connection: bool) -> Status {
    if suppressed && net == ConnectionState::Connected {
        Status::Paused
    } else if state == State::Pairing {
        Status::Searching
    } else if net == ConnectionState::Connected {
        if state == State::Remote || state == State::ReturnTransitioning {
            Status::Remote
        } else {
            Status::Connected
        }
    } else if net == ConnectionState::Browsing || net == ConnectionState::Advertising
        || net == ConnectionState::Connecting {
        Status::Searching
    } else if had_connection {
        Status::Disconnected
    } else {
        Status::Stopped
    }
}

/// The fingerprint both peers display: derived from the client's nonce
/// first and the server's second, whatever our own role.
pub open spec fn spec_pair_fingerprint(role: Role, local: Seq<u8>, peer: Seq<u8>) -> Seq<u8> {
    match role {
        Role::Server => spec_derive(peer, local),
        Role::Client => spec_derive(local, peer),
    }
}

/// The actions for one state machine command, and the pending crossing
/// height afterwards.
pub open spec fn spec_command_actions<F>(
    pending: Option<F>,
    side: NeighborSide,
    watched: Option<Edge>,
    cmd: Command<F>,
) -> (Option<F>, Seq<Action<F>>) {
    match cmd {
        Command::StartForwarding => (
            None,
            seq![
                Action::BeginForwarding { y_norm: pending, return_edge: spec_opposite_edge(side) },
                Action::EmitCursorCrossed(CrossDirection::ToRemote),
            ],
        ),
        Command::StopForwarding => (pending, seq![Action::EndForwarding]),
        Command::AcceptCursor { y_norm } => (
            pending,
            seq![Action::PlaceCursor { entry: watched, y_norm }, Action::ResetEdgeDetection],
        ),
        Command::ReturnCursorToLocal { y_norm } => (
            pending,
            seq![
                Action::RestoreCursor { side, y_norm },
                Action::ResetEdgeDetection,
                Action::EmitCursorCrossed(CrossDirection::ToLocal),
            ],
        ),
        Command::Send(m) => (pending, seq![Action::Send(m)]),
    }
}

/// The actions for a list of commands, in order.
pub open spec fn spec_commands_actions<F>(
    pending: Option<F>,
    side: NeighborSide,
    watched: Option<Edge>,
    cmds: Seq<Command<F>>,
) -> (Option<F>, Seq<Action<F>>)
    decreases cmds.len(),
{
    if cmds.len() == 0 {
        (pending, seq![])
    } else {
        let (p, a) = spec_commands_actions(pending, side, watched, cmds.drop_last());
        let (p2, b) = spec_command_actions(p, side, watched, cmds.last());
        (p2, a + b)
    }
}

/// Running the commands, followed by a status update if there were any.
pub open spec fn spec_execute<F>(core: CoordinatorCore<F>, cmds: Seq<Command<F>>) -> (CoordinatorCore<F>, Seq<Action<F>>) {
    let watched = match core.screen_layout.side {
        Some(s) => Some(spec_neighbor_side_to_edge(s)),
        None => None,
    };
    let (p, acts) = spec_commands_actions(core.pending_transition_y_norm, core.neighbor_side, watched, cmds);
    (
        CoordinatorCore { pending_transition_y_norm: p, ..core },
        if cmds.len() > 0 { acts.push(Action::EmitStatus) } else { acts },
    )
}

/// Feeding `event` to the state machine, then running its commands.
pub open spec fn spec_step<F>(core: CoordinatorCore<F>, event: Event<F>) -> (CoordinatorCore<F>, Seq<Action<F>>) {
    let (next, cmds) = spec_handle(core.state_machine.state, core.state_machine.home, event);
    spec_execute(
        CoordinatorCore { state_machine: StateMachineImpl { state: next, ..core.state_machine }, ..core },
        cmds,
    )
}

/// The fingerprint text shown for the pair: empty before the peer's nonce is
/// known; `None` when the fingerprint falls outside the display alphabet.
pub open spec fn spec_fingerprint_text<F>(core: CoordinatorCore<F>) -> Option<Seq<char>> {
    match core.peer_nonce {
        None => Some(Seq::<char>::empty()),
        Some(peer) => {
            let fp = spec_pair_fingerprint(core.role, core.local_nonce@, peer@);
            if spec_renderable(fp) {
                Some(spec_render(fp))
            } else {
                None
            }
        },
    }
}

/// The messages whose only effect is to inject input locally.
pub open spec fn spec_is_injected_message<F>(msg: Message<F>) -> bool {
    msg is MouseMove || msg is MouseButton || msg is Scroll
}

/// A message from the peer, other than `PairRequest`. Coordinate messages
/// are dropped while pairing, and injected input while paused.
pub open spec fn spec_on_message<F>(core: CoordinatorCore<F>, msg: Message<F>) -> (CoordinatorCore<F>, Seq<Action<F>>) {
    if spec_is_coordinate_message(msg) && core.state_machine.state == State::Pairing {
        (core, seq![])
    } else if spec_is_injected_message(msg) && core.suppressed {
        (core, seq![])
    } else {
        match msg {
            Message::MouseMove { x_norm, y_norm, button } => (core, seq![Action::InjectMove { x_norm, y_norm, button }]),
            Message::MouseButton { button, pressed } => (core, seq![Action::InjectButton { button, pressed }]),
            Message::Scroll { dx, dy } => (core, seq![Action::InjectScroll { dx, dy }]),
            Message::TransitionIn { y_norm } => spec_step(core, Event::TransitionInReceived { y_norm }),
            Message::Ack => spec_step(core, Event::TransitionAcknowledged),
            Message::ScreenInfo(dims) => (
                CoordinatorCore {
                    screen_layout: ScreenLayoutImpl { side: Some(core.neighbor_side), local: core.local_dims, remote: dims },
                    ..core
                },
                seq![Action::ConfigureEdgeDetection {
                    edge: spec_neighbor_side_to_edge(core.neighbor_side),
                    bounds: core.local_dims,
                }],
            ),
            Message::TransitionOut => (core, seq![]),
            Message::PairRequest { .. } => (core, seq![]),
            Message::PairAccept => {
                let (c, acts) = spec_step(core, Event::PairAccepted);
                (
                    c,
                    seq![Action::CancelPairTimer] + acts + seq![
                        Action::Send(Message::ScreenInfo(core.local_dims)),
                        Action::EmitPairResolved,
                        Action::EmitStatus,
                    ],
                )
            },
            Message::PairDecline => {
                let (c, acts) = spec_step(core, Event::PairDeclined);
                (
                    c,
                    seq![Action::CancelPairTimer] + acts + seq![
                        Action::EmitPairResolved,
                        Action::StopNetwork,
                        Action::EmitStatus,
                    ],
                )
            },
        }
    }
}

/// What handling a message from the peer does. A `PairRequest` records the
/// peer's nonce, name and OS and shows the pair prompt with the fingerprint
/// (or stops, if the fingerprint cannot be displayed); every other message
/// is as `spec_on_message` says.
pub open spec fn spec_on_message_post<F>(
    old_core: CoordinatorCore<F>,
    msg: Message<F>,
    new_core: CoordinatorCore<F>,
    acts: Seq<Action<F>>,
) -> bool {
    match msg {
        Message::PairRequest { nonce, device_name, os } => {
            &&& new_core == (CoordinatorCore {
                peer_nonce: Some(nonce),
                peer_name: Some(device_name),
                peer_os: Some(os),
                ..old_core
            })
            &&& match spec_fingerprint_text(new_core) {
                Some(text) => acts.len() == 1 && match acts[0] {
                    Action::EmitPairIncoming { peer_name, fingerprint, os: shown_os } => peer_name == device_name
                        && fingerprint@ == text && shown_os == os,
                    _ => false,
                },
                None => acts.len() == 1 && acts[0] is Halt,
            }
        },
        _ => (new_core, acts) == spec_on_message(old_core, msg),
    }
}

/// A change of the network's connection state.
pub open spec fn spec_on_state_changed<F>(core: CoordinatorCore<F>, net: ConnectionState) -> (CoordinatorCore<F>, Seq<Action<F>>) {
    if net == ConnectionState::Connected {
        let (c, acts) = spec_step(CoordinatorCore { had_connection: true, ..core }, Event::ConnectionEstablished);
        (
            c,
            acts + seq![
                Action::Send(Message::PairRequest {
                    nonce: core.local_nonce,
                    device_name: core.device_name,
                    os: core.local_os,
                }),
                Action::ArmPairTimer,
                Action::EmitStatus,
            ],
        )
    } else if net == ConnectionState::Disconnected {
        let (c, acts) = spec_step(
            CoordinatorCore { peer_nonce: None, peer_name: None, peer_os: None, ..core },
            Event::ConnectionLost,
        );
        (c, seq![Action::CancelPairTimer] + acts + seq![Action::EmitStatus])
    } else {
        (core, seq![Action::EmitStatus])
    }
}

/// What handling a network event does.
pub open spec fn spec_on_network_post<F>(
    old_core: CoordinatorCore<F>,
    event: NetworkEvent<F>,
    new_core: CoordinatorCore<F>,
    acts: Seq<Action<F>>,
) -> bool {
    match event {
        NetworkEvent::MessageReceived(msg) => spec_on_message_post(old_core, msg, new_core, acts),
        NetworkEvent::StateChanged(net) => (new_core, acts) == spec_on_state_changed(old_core, net),
        NetworkEvent::PeersUpdated(peers) => new_core == old_core && acts.len() == 1 && acts[0] == Action::<F>::EmitPeersUpdated(peers),
    }
}

/// The user (or the tray) accepted or declined the pending pair.
pub open spec fn spec_on_pair_response<F>(core: CoordinatorCore<F>, accept: bool) -> (CoordinatorCore<F>, Seq<Action<F>>) {
    if core.state_machine.state != State::Pairing {
        (core, seq![])
    } else if accept {
        let (c, acts) = spec_step(core, Event::PairAccepted);
        (
            c,
            seq![Action::CancelPairTimer, Action::Send(Message::PairAccept)] + acts + seq![
                Action::Send(Message::ScreenInfo(core.local_dims)),
                Action::EmitPairResolved,
                Action::EmitStatus,
            ],
        )
    } else {
        let (c, acts) = spec_step(core, Event::PairDeclined);
        (
            c,
            seq![Action::CancelPairTimer, Action::Send(Message::PairDecline)] + acts + seq![
                Action::StopNetwork,
                Action::EmitPairResolved,
                Action::EmitStatus,
            ],
        )
    }
}

/// The pair timer fired: decline automatically if still pairing.
pub open spec fn spec_on_pair_timeout<F>(core: CoordinatorCore<F>) -> (CoordinatorCore<F>, Seq<Action<F>>) {
    if core.state_machine.state != State::Pairing {
        (core, seq![])
    } else {
        let (c, acts) = spec_step(core, Event::PairDeclined);
        (
            c,
            seq![Action::Send(Message::PairDecline)] + acts + seq![
                Action::EmitPairTimeout,
                Action::EmitPairResolved,
                Action::StopNetwork,
                Action::EmitStatus,
            ],
        )
    }
}

/// Pausing or resuming sharing.
pub open spec fn spec_set_paused<F>(core: CoordinatorCore<F>, paused: bool) -> (CoordinatorCore<F>, Seq<Action<F>>) {
    if core.suppressed == paused {
        (core, seq![])
    } else if paused {
        (CoordinatorCore { suppressed: true, ..core }, seq![Action::ReleaseSuppression, Action::EmitStatus])
    } else if core.state_machine.state == State::Remote {
        (CoordinatorCore { suppressed: false, ..core }, seq![Action::RestoreSuppression, Action::EmitStatus])
    } else {
        (CoordinatorCore { suppressed: false, ..core }, seq![Action::EmitStatus])
    }
}

/// Where an input event goes. Nothing moves while paused, nor before a
/// paired connection is up; the mouse-owning side watches the edge in
/// `Local` and forwards everything but absolute moves in `Remote`.
pub open spec fn spec_route_input<F>(core: CoordinatorCore<F>, input: InputKind<F>, net: ConnectionState) -> InputRoute<F> {
    let state = core.state_machine.state;
    let post_pair = net == ConnectionState::Connected && state != State::Pairing;
    if core.suppressed {
        InputRoute::Ignore
    } else if !post_pair && (state == State::Local || state == State::Remote) {
        InputRoute::Ignore
    } else if state == State::Local {
        match input {
            InputKind::Move => InputRoute::DetectEdge,
            _ => InputRoute::Ignore,
        }
    } else if state == State::Remote {
        match input {
            InputKind::Delta => InputRoute::TrackDelta,
            InputKind::Move => InputRoute::Ignore,
            InputKind::Button { button, pressed } => InputRoute::Forward(Message::MouseButton { button, pressed }),
            InputKind::Scroll { dx, dy } => InputRoute::Forward(Message::Scroll { dx, dy }),
        }
    } else {
        InputRoute::Ignore
    }
}

/// Both peers show the same fingerprint: a server whose nonce is `s` and
/// whose peer's is `c` derives the same bytes as a client whose nonce is `c`
/// and whose peer's is `s`; so either both can display it, with the same
/// text, or neither can.
pub proof fn lemma_fingerprints_agree<F>(server: CoordinatorCore<F>, client: CoordinatorCore<F>)
    requires
        server.role == Role::Server,
        client.role == Role::Client,
        server.peer_nonce == Some(client.local_nonce),
        client.peer_nonce == Some(server.local_nonce),
    ensures
        spec_pair_fingerprint(Role::Server, server.local_nonce@, client.local_nonce@)
            == spec_pair_fingerprint(Role::Client, client.local_nonce@, server.local_nonce@),
        spec_fingerprint_text(server) == spec_fingerprint_text(client),
{
}

/// While the pair awaits approval, no coordinate message from the peer has
/// any effect, and no local input goes anywhere.
pub proof fn lemma_pairing_gates_coordinates<F>(core: CoordinatorCore<F>, msg: Message<F>, input: InputKind<F>, net: ConnectionState)
    requires
        core.state_machine.state == State::Pairing,
    ensures
        spec_is_coordinate_message(msg) ==> spec_on_message(core, msg) == (core, Seq::<Action<F>>::empty()),
        spec_route_input(core, input, net) is Ignore,
{
    assert(seq![] =~= Seq::<Action<F>>::empty());
}

/// While paused, no local input goes anywhere; pausing and then resuming
/// restores the coordinator exactly, and neither step sends anything or
/// closes the connection. While connected and paused the status is `Paused`.
pub proof fn lemma_pause_resume<F>(core: CoordinatorCore<F>, input: InputKind<F>, net: ConnectionState)
    requires
        !core.suppressed,
    ensures
        ({
            let (paused, acts1) = spec_set_paused(core, true);
            let (resumed, acts2) = spec_set_paused(paused, false);
            &&& spec_route_input(paused, input, net) is Ignore
            &&& spec_status(paused.suppressed, paused.state_machine.state, ConnectionState::Connected, paused.had_connection) == Status::Paused
            &&& resumed == core
            &&& acts1 == seq![Action::<F>::ReleaseSuppression, Action::EmitStatus]
            &&& acts2 == (if core.state_machine.state == State::Remote {
                seq![Action::<F>::RestoreSuppression, Action::EmitStatus]
            } else {
                seq![Action::<F>::EmitStatus]
            })
        }),
{
}

/// Status from launch to loss: a coordinator that never connected reads
/// `Searching` while advertising, browsing or connecting and `Stopped` when
/// disconnected; once a connection came up and then went away, it reads
/// `Disconnected`, not `Stopped`.
pub proof fn lemma_status_lifecycle<F>(core: CoordinatorCore<F>)
    requires
        !core.had_connection,
        core.state_machine.state == core.state_machine.home,
        core.state_machine.home == State::Local || core.state_machine.home == State::Remote,
    ensures
        spec_status(core.suppressed, core.state_machine.state, ConnectionState::Browsing, false) == Status::Searching,
        spec_status(core.suppressed, core.state_machine.state, ConnectionState::Advertising, false) == Status::Searching,
        spec_status(core.suppressed, core.state_machine.state, ConnectionState::Disconnected, false) == Status::Stopped,
        ({
            let up = spec_on_state_changed(core, ConnectionState::Connected).0;
            let down = spec_on_state_changed(up, ConnectionState::Disconnected).0;
            &&& up.state_machine.state == State::Pairing
            &&& spec_status(up.suppressed, up.state_machine.state, ConnectionState::Connected, up.had_connection)
                == (if core.suppressed { Status::Paused } else { Status::Searching })
            &&& spec_status(down.suppressed, down.state_machine.state, ConnectionState::Disconnected, down.had_connection) == Status::Disconnected
        }),
{
    let up = spec_on_state_changed(core, ConnectionState::Connected).0;
    let down = spec_on_state_changed(up, ConnectionState::Disconnected).0;
    assert(up.state_machine.state == State::Pairing);
    assert(up.had_connection);
    assert(down.had_connection);
    assert(down.state_machine.state == core.state_machine.home);
}

/// Handing the cursor over: a server at rest in `Local` that sees its edge
/// crossed starts forwarding from the crossing height (watching the edge on
/// the far side for the way back), raises exactly one `to_remote`
/// notification and tells the peer where the cursor enters.
pub proof fn lemma_edge_crossing_actions<F>(core: CoordinatorCore<F>, crossed: EdgeCrossedEvent<F>)
    requires
        core.state_machine.state == State::Local,
    ensures
        ({
            let (c, acts) = spec_step(
                CoordinatorCore { pending_transition_y_norm: Some(crossed.y_norm), ..core },
                Event::EdgeCrossed(crossed),
            );
            &&& c.state_machine.state == State::Remote
            &&& c.pending_transition_y_norm is None
            &&& acts == seq![
                Action::BeginForwarding { y_norm: Some(crossed.y_norm), return_edge: spec_opposite_edge(core.neighbor_side) },
                Action::EmitCursorCrossed(CrossDirection::ToRemote),
                Action::Send(Message::TransitionIn { y_norm: crossed.y_norm }),
                Action::EmitStatus,
            ]
        }),
{
    reveal_with_fuel(spec_commands_actions, 3);
    let cmds = spec_handle(State::Local, core.state_machine.home, Event::EdgeCrossed(crossed)).1;
    assert(cmds.drop_last().drop_last() =~= Seq::<Command<F>>::empty());
}

/// Taking the cursor back: a forwarding server whose virtual cursor crosses
/// the return edge recalls the cursor at that height, places it on its own
/// screen, re-arms edge detection and raises exactly one `to_local`
/// notification.
pub proof fn lemma_return_actions<F>(core: CoordinatorCore<F>, y_norm: F)
    requires
        core.state_machine.state == State::Remote,
    ensures
        ({
            let (c, acts) = spec_step(core, Event::CursorReturnedToLocal { y_norm });
            &&& c.state_machine.state == State::ReturnTransitioning
            &&& acts == seq![
                Action::Send(Message::TransitionIn { y_norm }),
                Action::RestoreCursor { side: core.neighbor_side, y_norm },
                Action::ResetEdgeDetection,
                Action::EmitCursorCrossed(CrossDirection::ToLocal),
                Action::EmitStatus,
            ]
        }),
{
    reveal_with_fuel(spec_commands_actions, 3);
    let cmds = spec_handle(State::Remote, core.state_machine.home, Event::CursorReturnedToLocal { y_norm }).1;
    assert(cmds.drop_last().drop_last() =~= Seq::<Command<F>>::empty());
}

/// Answering the pair prompt: accepting tells the peer and publishes our
/// screen dimensions; declining tells the peer and closes the connection;
/// letting the timer run out declines on the user's behalf and reports the
/// timeout. Each lands in the resting state, and all three tell the
/// interface the prompt is resolved.
pub proof fn lemma_pair_outcomes<F>(core: CoordinatorCore<F>)
    requires
        core.state_machine.state == State::Pairing,
    ensures
        spec_on_pair_response(core, true).0.state_machine.state == core.state_machine.home,
        spec_on_pair_response(core, true).1 == seq![
            Action::<F>::CancelPairTimer,
            Action::Send(Message::PairAccept),
            Action::Send(Message::ScreenInfo(core.local_dims)),
            Action::EmitPairResolved,
            Action::EmitStatus,
        ],
        spec_on_pair_response(core, false).0.state_machine.state == core.state_machine.home,
        spec_on_pair_response(core, false).1 == seq![
            Action::<F>::CancelPairTimer,
            Action::Send(Message::PairDecline),
            Action::StopNetwork,
            Action::EmitPairResolved,
            Action::EmitStatus,
        ],
        spec_on_pair_timeout(core).0.state_machine.state == core.state_machine.home,
        spec_on_pair_timeout(core).1 == seq![
            Action::<F>::Send(Message::PairDecline),
            Action::EmitPairTimeout,
            Action::EmitPairResolved,
            Action::StopNetwork,
            Action::EmitStatus,
        ],
{
    assert(spec_on_pair_response(core, true).1 =~= seq![
        Action::<F>::CancelPairTimer,
        Action::Send(Message::PairAccept),
        Action::Send(Message::ScreenInfo(core.local_dims)),
        Action::EmitPairResolved,
        Action::EmitStatus,
    ]);
    assert(spec_on_pair_response(core, false).1 =~= seq![
        Action::<F>::CancelPairTimer,
        Action::Send(Message::PairDecline),
        Action::StopNetwork,
        Action::EmitPairResolved,
        Action::EmitStatus,
    ]);
    assert(spec_on_pair_timeout(core).1 =~= seq![
        Action::<F>::Send(Message::PairDecline),
        Action::EmitPairTimeout,
        Action::EmitPairResolved,
        Action::StopNetwork,
        Action::EmitStatus,
    ]);
}

/// The peer declining closes the connection on our side too, and behaves
/// like losing it: whatever state we were in, we return to rest (a server
/// that was forwarding stops), the timer is cancelled, the prompt resolved
/// and the network stopped.
pub proof fn lemma_peer_decline_tears_down<F>(core: CoordinatorCore<F>)
    ensures
        spec_on_message(core, Message::<F>::PairDecline).0.state_machine.state == core.state_machine.home,
        spec_on_message(core, Message::<F>::PairDecline).1 == (if core.state_machine.state == State::Remote
            && core.state_machine.home == State::Local {
            seq![
                Action::<F>::CancelPairTimer,
                Action::EndForwarding,
                Action::EmitStatus,
                Action::EmitPairResolved,
                Action::StopNetwork,
                Action::EmitStatus,
            ]
        } else {
            seq![
                Action::<F>::CancelPairTimer,
                Action::EmitPairResolved,
                Action::StopNetwork,
                Action::EmitStatus,
            ]
        }),
{
    reveal_with_fuel(spec_commands_actions, 2);
    if core.state_machine.state == State::Remote && core.state_machine.home == State::Local {
        let cmds = spec_handle(core.state_machine.state, core.state_machine.home, Event::<F>::PairDeclined).1;
        assert(cmds.drop_last() =~= Seq::<Command<F>>::empty());
        assert(spec_on_message(core, Message::<F>::PairDecline).1 =~= seq![
            Action::<F>::CancelPairTimer,
            Action::EndForwarding,
            Action::EmitStatus,
            Action::EmitPairResolved,
            Action::StopNetwork,
            Action::EmitStatus,
        ]);
    } else {
        assert(spec_on_message(core, Message::<F>::PairDecline).1 =~= seq![
            Action::<F>::CancelPairTimer,
            Action::EmitPairResolved,
            Action::StopNetwork,
            Action::EmitStatus,
        ]);
    }
}

/// Pausing keeps the connection but drops every inbound injected event:
/// while paused, a `MouseMove`, `MouseButton` or `Scroll` from the peer
/// changes nothing and yields no action. Every other message is handled
/// exactly as it would be if sharing were not paused.
pub proof fn lemma_pause_drops_inbound_injection<F>(core: CoordinatorCore<F>, msg: Message<F>)
    requires
        core.suppressed,
    ensures
        spec_is_injected_message(msg) ==> spec_on_message(core, msg) == (core, Seq::<Action<F>>::empty()),
        !spec_is_injected_message(msg) ==> ({
            let (running, acts) = spec_on_message(CoordinatorCore { suppressed: false, ..core }, msg);
            spec_on_message(core, msg) == (CoordinatorCore { suppressed: true, ..running }, acts)
        }),
{
    assert(seq![] =~= Seq::<Action<F>>::empty());
}

/// Outside pairing and pause, input from the peer is injected as it came:
/// a move at the message's own coordinates with its own drag button, a
/// click of its button in its direction, a scroll by its deltas; nothing
/// else happens and the coordinator is unchanged.
pub proof fn lemma_inbound_input_injected_as_sent<F>(
    core: CoordinatorCore<F>,
    x_norm: F,
    y_norm: F,
    drag: Option<u8>,
    button: u8,
    pressed: bool,
    dx: F,
    dy: F,
)
    requires
        core.state_machine.state != State::Pairing,
        !core.suppressed,
    ensures
        spec_on_message(core, Message::MouseMove { x_norm, y_norm, button: drag })
            == (core, seq![Action::InjectMove { x_norm, y_norm, button: drag }]),
        spec_on_message(core, Message::<F>::MouseButton { button, pressed })
            == (core, seq![Action::<F>::InjectButton { button, pressed }]),
        spec_on_message(core, Message::Scroll { dx, dy }) == (core, seq![Action::InjectScroll { dx, dy }]),
{
}

/// Local input follows the hand-off state. While the cursor is local, only
/// absolute moves are looked at (for the edge) and clicks and scrolls stay
/// on this machine; only while the cursor is remote is anything forwarded,
/// and then a click or scroll goes to the peer exactly as it happened.
/// Nothing is routed while paused or before a paired connection is up.
pub proof fn lemma_route_input_follows_state<F>(core: CoordinatorCore<F>, input: InputKind<F>, net: ConnectionState)
    ensures
        core.state_machine.state == State::Local && !(input is Move) ==> spec_route_input(core, input, net) is Ignore,
        spec_route_input(core, input, net) is DetectEdge ==> core.state_machine.state == State::Local && input is Move,
        spec_route_input(core, input, net) is TrackDelta ==> core.state_machine.state == State::Remote && input is Delta,
        spec_route_input(core, input, net) is Forward ==> core.state_machine.state == State::Remote,
        !(spec_route_input(core, input, net) is Ignore) ==> !core.suppressed && net == ConnectionState::Connected,
        core.state_machine.state == State::Remote && !core.suppressed && net == ConnectionState::Connected ==> ({
            match input {
                InputKind::Button { button, pressed } => spec_route_input(core, input, net)
                    == InputRoute::<F>::Forward(Message::MouseButton { button, pressed }),
                InputKind::Scroll { dx, dy } => spec_route_input(core, input, net)
                    == InputRoute::Forward(Message::Scroll { dx, dy }),
                InputKind::Delta => spec_route_input(core, input, net) is TrackDelta,
                InputKind::Move => spec_route_input(core, input, net) is Ignore,
            }
        }),
        core.state_machine.state == State::Local && !core.suppressed && net == ConnectionState::Connected
            && input is Move ==> spec_route_input(core, input, net) is DetectEdge,
{
}

/// Receiving the cursor: a paired machine waiting in `Remote` that gets a
/// `TransitionIn` at height `y_norm` takes the cursor. It stops forwarding,
/// places the cursor at that height where it enters through the watched
/// edge, re-arms edge detection, acknowledges, and publishes its status;
/// the machine is then `Local`.
pub proof fn lemma_receiving_cursor_actions<F>(core: CoordinatorCore<F>, y_norm: F)
    requires
        core.state_machine.state == State::Remote,
    ensures
        ({
            let watched = match core.screen_layout.side {
                Some(s) => Some(spec_neighbor_side_to_edge(s)),
                None => None,
            };
            let (c, acts) = spec_on_message(core, Message::TransitionIn { y_norm });
            &&& c == (CoordinatorCore {
                state_machine: StateMachineImpl { state: State::Local, ..core.state_machine },
                ..core
            })
            &&& acts == seq![
                Action::EndForwarding,
                Action::PlaceCursor { entry: watched, y_norm },
                Action::ResetEdgeDetection,
                Action::Send(Message::Ack),
                Action::EmitStatus,
            ]
        }),
{
    reveal_with_fuel(spec_commands_actions, 4);
    let cmds = spec_handle(State::Remote, core.state_machine.home, Event::TransitionInReceived { y_norm }).1;
    assert(cmds.drop_last().drop_last().drop_last() =~= Seq::<Command<F>>::empty());
    let watched = match core.screen_layout.side {
        Some(s) => Some(spec_neighbor_side_to_edge(s)),
        None => None,
    };
    assert(spec_on_message(core, Message::TransitionIn { y_norm }).1 =~= seq![
        Action::EndForwarding,
        Action::PlaceCursor { entry: watched, y_norm },
        Action::ResetEdgeDetection,
        Action::Send(Message::Ack),
        Action::EmitStatus,
    ]);
}

/// A connection coming up always enters pairing: the coordinator records
/// that a connection existed, sends its own pair request (its nonce, device
/// name and OS), arms the pair timer and publishes its status. A connection
/// going down forgets the peer, cancels the timer, returns to rest (a
/// server that was forwarding stops first) and publishes its status.
pub proof fn lemma_connection_up_and_down<F>(core: CoordinatorCore<F>)
    ensures
        spec_on_state_changed(core, ConnectionState::Connected) == (
            CoordinatorCore {
                state_machine: StateMachineImpl { state: State::Pairing, ..core.state_machine },
                had_connection: true,
                ..core
            },
            seq![
                Action::<F>::Send(Message::PairRequest {
                    nonce: core.local_nonce,
                    device_name: core.device_name,
                    os: core.local_os,
                }),
                Action::ArmPairTimer,
                Action::EmitStatus,
            ],
        ),
        ({
            let (c, acts) = spec_on_state_changed(core, ConnectionState::Disconnected);
            &&& c == (CoordinatorCore {
                state_machine: StateMachineImpl { state: core.state_machine.home, ..core.state_machine },
                peer_nonce: None,
                peer_name: None,
                peer_os: None,
                ..core
            })
            &&& acts == (if core.state_machine.state == State::Remote && core.state_machine.home == State::Local {
                seq![Action::<F>::CancelPairTimer, Action::EndForwarding, Action::EmitStatus, Action::EmitStatus]
            } else {
                seq![Action::<F>::CancelPairTimer, Action::EmitStatus]
            })
        }),
{
    reveal_with_fuel(spec_commands_actions, 2);
    assert(spec_on_state_changed(core, ConnectionState::Connected).1 =~= seq![
        Action::<F>::Send(Message::PairRequest {
            nonce: core.local_nonce,
            device_name: core.device_name,
            os: core.local_os,
        }),
        Action::ArmPairTimer,
        Action::EmitStatus,
    ]);
    if core.state_machine.state == State::Remote && core.state_machine.home == State::Local {
        let cmds = spec_handle(State::Remote, State::Local, Event::<F>::ConnectionLost).1;
        assert(cmds.drop_last() =~= Seq::<Command<F>>::empty());
        assert(spec_on_state_changed(core, ConnectionState::Disconnected).1 =~= seq![
            Action::<F>::CancelPairTimer,
            Action::EndForwarding,
            Action::EmitStatus,
            Action::EmitStatus,
        ]);
    } else {
        assert(spec_on_state_changed(core, ConnectionState::Disconnected).1 =~= seq![
            Action::<F>::CancelPairTimer,
            Action::EmitStatus,
        ]);
    }
}

/// Calls `rand::rngs::OsRng`'s `try_fill_bytes` for 16 bytes of OS
/// randomness. Nothing is claimed of the bytes; `None` when the OS source
/// fails.
#[verifier::external_body]
fn os_random_nonce() -> (nonce: Option<[u8; 16]>)
{
    let mut n = [0u8; 16];
    match rand::RngCore::try_fill_bytes(&mut rand::rngs::OsRng, &mut n) {
        Ok(()) => Some(n),
        Err(_) => None,
    }
}

/// A freshly made coordinator for `role` with the given nonce: the state
/// machine at rest in the role's home state, the layout unconfigured, no
/// pending crossing, never connected, no peer known, input not suppressed.
pub open spec fn spec_fresh_core<F>(
    role: Role,
    device_name: String,
    local_os: String,
    local_dims: ScreenDimensions,
    side: NeighborSide,
    nonce: [u8; 16],
) -> CoordinatorCore<F> {
    let home = if role == Role::Server { State::Local } else { State::Remote };
    CoordinatorCore {
        state_machine: StateMachineImpl { state: home, home },
        screen_layout: ScreenLayoutImpl::spec_new(),
        local_dims,
        neighbor_side: side,
        pending_transition_y_norm: None,
        had_connection: false,
        role,
        device_name,
        local_os,
        local_nonce: nonce,
        peer_nonce: None,
        peer_name: None,
        peer_os: None,
        suppressed: false,
    }
}

impl<F: Copy> CoordinatorCore<F> {
    /// A coordinator for `role` with the given per-connection nonce:
    /// unpaired, unconfigured, not paused, the state machine at rest.
    pub fn from_nonce(
        role: Role,
        device_name: String,
        local_os: String,
        local_dims: ScreenDimensions,
        side: NeighborSide,
        nonce: [u8; 16],
    ) -> (core: Self)
        ensures
            core.state_machine.state == core.state_machine.home,
            core.state_machine.home == (if role == Role::Server { State::Local } else { State::Remote }),
            core.screen_layout == ScreenLayoutImpl::spec_new(),
            core.local_dims == local_dims,
            core.neighbor_side == side,
            core.pending_transition_y_norm is None,
            !core.had_connection,
            core.role == role,
            core.device_name == device_name,
            core.local_os == local_os,
            core.local_nonce == nonce,
            core.peer_nonce is None,
            core.peer_name is None,
            core.peer_os is None,
            !core.suppressed,
            core == spec_fresh_core::<F>(role, device_name, local_os, local_dims, side, nonce),
    {
        let state_machine = match role {
            Role::Server => StateMachineImpl::new(),
            Role::Client => StateMachineImpl::new_as_client(),
        };
        CoordinatorCore {
            state_machine,
            screen_layout: ScreenLayoutImpl::new(),
            local_dims,
            neighbor_side: side,
            pending_transition_y_norm: None,
            had_connection: false,
            role,
            device_name,
            local_os,
            local_nonce: nonce,
            peer_nonce: None,
            peer_name: None,
            peer_os: None,
            suppressed: false,
        }
    }

    /// Coordinator seeded as the server (physical mouse machine), with a
    /// fresh random nonce. State machine starts in `Local`. `None` when the
    /// OS cannot supply randomness.
    pub fn new_server(device_name: String, local_os: String, local_dims: ScreenDimensions, side: NeighborSide) -> (core: Option<Self>)
        ensures
            core matches Some(c) ==> c.role == Role::Server && c.state_machine.state == State::Local
                && c.state_machine.home == State::Local && c.device_name == device_name
                && c.local_os == local_os && c.local_dims == local_dims && c.neighbor_side == side
                && c.peer_nonce is None && !c.had_connection && !c.suppressed,
            core matches Some(c) ==> c == spec_fresh_core::<F>(Role::Server, device_name, local_os, local_dims, side, c.local_nonce),
    {
        match os_random_nonce() {
            Some(nonce) => Some(Self::from_nonce(Role::Server, device_name, local_os, local_dims, side, nonce)),
            None => None,
        }
    }

    /// Coordinator seeded as the client (display-only machine), with a
    /// fresh random nonce. State machine starts in `Remote`. `None` when the
    /// OS cannot supply randomness.
    pub fn new_client(device_name: String, local_os: String, local_dims: ScreenDimensions, side: NeighborSide) -> (core: Option<Self>)
        ensures
            core matches Some(c) ==> c.role == Role::Client && c.state_machine.state == State::Remote
                && c.state_machine.home == State::Remote && c.device_name == device_name
                && c.local_os == local_os && c.local_dims == local_dims && c.neighbor_side == side
                && c.peer_nonce is None && !c.had_connection && !c.suppressed,
            core matches Some(c) ==> c == spec_fresh_core::<F>(Role::Client, device_name, local_os, local_dims, side, c.local_nonce),
    {
        match os_random_nonce() {
            Some(nonce) => Some(Self::from_nonce(Role::Client, device_name, local_os, local_dims, side, nonce)),
            None => None,
        }
    }

    /// The status for the given network state.
    pub fn current_status(&self, net: ConnectionState) -> (s: Status)
        ensures
            s == spec_status(self.suppressed, self.state_machine.state, net, self.had_connection),
    {
        let state = self.state_machine.state;
        if self.suppressed && net == ConnectionState::Connected {
            return Status::Paused;
        }
        match (state, net) {
            (State::Pairing, _) => Status::Searching,
            (State::Remote, ConnectionState::Connected) | (State::ReturnTransitioning, ConnectionState::Connected) => Status::Remote,
            (State::Local, ConnectionState::Connected) | (State::Transitioning, ConnectionState::Connected) => Status::Connected,
            (_, ConnectionState::Browsing) | (_, ConnectionState::Advertising) | (_, ConnectionState::Connecting) => Status::Searching,
            (_, ConnectionState::Disconnected) if self.had_connection => Status::Disconnected,
            _ => Status::Stopped,
        }
    }

    /// The status string for the given network state.
    pub fn current_status_str(&self, net: ConnectionState) -> (s: &'static str)
        ensures
            s@ == spec_status_text(spec_status(self.suppressed, self.state_machine.state, net, self.had_connection)),
    {
        self.current_status(net).as_str()
    }

    /// Derives the display fingerprint from our nonce and the peer's.
    /// Ordering is canonical: client nonce first, server nonce second, so
    /// both peers produce the same string regardless of role.
    pub fn derive_fingerprint_string(&self) -> (text: Option<String>)
        ensures
            match text {
                Some(t) => spec_fingerprint_text(*self) == Some(t@),
                None => spec_fingerprint_text(*self) is None,
            },
    {
        match self.peer_nonce {
            None => Some(String::new()),
            Some(peer) => {
                let fp = match self.role {
                    Role::Server => crate::fingerprint::derive(&peer, &self.local_nonce),
                    Role::Client => crate::fingerprint::derive(&self.local_nonce, &peer),
                };
                if is_renderable(&fp) {
                    Some(render(&fp))
                } else {
                    None
                }
            },
        }
    }

    /// Turns the state machine's commands into runtime actions, followed by
    /// a status update when there were any.
    pub fn execute_commands(&mut self, cmds: Vec<Command<F>>) -> (acts: Vec<Action<F>>)
        ensures
            (*final(self), acts@) == spec_execute(*old(self), cmds@),
    {
        let ghost all = cmds@;
        let ghost start = *self;
        let watched = self.screen_layout.watched_edge();
        let side = self.neighbor_side;
        let had_commands = cmds.len() > 0;
        let mut cmds = cmds;
        let mut acts: Vec<Action<F>> = Vec::new();
        let ghost mut k: int = 0;
        proof {
            assert(all.skip(0) =~= all);
            assert(all.take(0) =~= Seq::<Command<F>>::empty());
        }
        while cmds.len() > 0
            invariant
                0 <= k <= all.len(),
                cmds@ == all.skip(k),
                side == start.neighbor_side,
                watched == (match start.screen_layout.side {
                    Some(s) => Some(spec_neighbor_side_to_edge(s)),
                    None => None,
                }),
                *self == (CoordinatorCore { pending_transition_y_norm: self.pending_transition_y_norm, ..start }),
                (self.pending_transition_y_norm, acts@) == spec_commands_actions(
                    start.pending_transition_y_norm,
                    side,
                    watched,
                    all.take(k),
                ),
            decreases cmds@.len(),
        {
            let cmd = cmds.remove(0);
            proof {
                assert(all.take(k + 1).drop_last() =~= all.take(k));
                assert(all.take(k + 1).last() == all[k]);
                assert(cmds@ =~= all.skip(k + 1));
            }
            match cmd {
                Command::StartForwarding => {
                    let y = self.pending_transition_y_norm;
                    self.pending_transition_y_norm = None;
                    acts.push(Action::BeginForwarding { y_norm: y, return_edge: opposite_edge(side) });
                    acts.push(Action::EmitCursorCrossed(CrossDirection::ToRemote));
                },
                Command::StopForwarding => {
                    acts.push(Action::EndForwarding);
                },
                Command::AcceptCursor { y_norm } => {
                    acts.push(Action::PlaceCursor { entry: watched, y_norm });
                    acts.push(Action::ResetEdgeDetection);
                },
                Command::ReturnCursorToLocal { y_norm } => {
                    acts.push(Action::RestoreCursor { side, y_norm });
                    acts.push(Action::ResetEdgeDetection);
                    acts.push(Action::EmitCursorCrossed(CrossDirection::ToLocal));
                },
                Command::Send(msg) => {
                    acts.push(Action::Send(msg));
                },
            }
            proof {
                k = k + 1;
            }
        }
        proof {
            assert(all.take(k) =~= all);
        }
        if had_commands {
            acts.push(Action::EmitStatus);
        }
        acts
    }

    fn step(&mut self, event: Event<F>) -> (acts: Vec<Action<F>>)
        ensures
            (*final(self), acts@) == spec_step(*old(self), event),
    {
        let cmds = self.state_machine.handle(event);
        self.execute_commands(cmds)
    }

    /// Handles a message from the peer. Coordinate messages are dropped
    /// while the pair still awaits approval.
    pub fn on_message(&mut self, msg: Message<F>) -> (acts: Vec<Action<F>>)
        ensures
            spec_on_message_post(*old(self), msg, *final(self), acts@),
    {
        let ghost old_core = *self;
        let ghost m = msg;
        if is_coordinate_message(&msg) && self.state_machine.state == State::Pairing {
            let acts: Vec<Action<F>> = Vec::new();
            assert(acts@ =~= spec_on_message(old_core, m).1);
            return acts;
        }
        let acts = match msg {
            Message::MouseMove { x_norm, y_norm, button } => if self.suppressed {
                Vec::new()
            } else {
                vec![Action::InjectMove { x_norm, y_norm, button }]
            },
            Message::MouseButton { button, pressed } => if self.suppressed {
                Vec::new()
            } else {
                vec![Action::InjectButton { button, pressed }]
            },
            Message::Scroll { dx, dy } => if self.suppressed {
                Vec::new()
            } else {
                vec![Action::InjectScroll { dx, dy }]
            },
            Message::TransitionIn { y_norm } => self.step(Event::TransitionInReceived { y_norm }),
            Message::Ack => self.step(Event::TransitionAcknowledged),
            Message::ScreenInfo(dims) => {
                let side = self.neighbor_side;
                let local = self.local_dims;
                self.screen_layout.configure(side, local, dims);
                let edge = crate::screen_layout::neighbor_side_to_edge(side);
                vec![Action::ConfigureEdgeDetection { edge, bounds: local }]
            },
            Message::TransitionOut => Vec::new(),
            Message::PairRequest { nonce, device_name, os } => {
                self.peer_nonce = Some(nonce);
                self.peer_name = Some(device_name.clone());
                self.peer_os = Some(os.clone());
                match self.derive_fingerprint_string() {
                    Some(fingerprint) => vec![Action::EmitPairIncoming { peer_name: device_name, fingerprint, os }],
                    None => vec![Action::Halt],
                }
            },
            Message::PairAccept => {
                let mut acts: Vec<Action<F>> = vec![Action::CancelPairTimer];
                let mut stepped = self.step(Event::PairAccepted);
                acts.append(&mut stepped);
                acts.push(Action::Send(Message::ScreenInfo(self.local_dims)));
                acts.push(Action::EmitPairResolved);
                acts.push(Action::EmitStatus);
                acts
            },
            Message::PairDecline => {
                let mut acts: Vec<Action<F>> = vec![Action::CancelPairTimer];
                let mut stepped = self.step(Event::PairDeclined);
                acts.append(&mut stepped);
                acts.push(Action::EmitPairResolved);
                acts.push(Action::StopNetwork);
                acts.push(Action::EmitStatus);
                acts
            },
        };
        proof {
            if !(m is PairRequest) {
                assert(acts@ =~= spec_on_message(old_core, m).1);
            }
        }
        acts
    }

    /// Handles an event from the network layer.
    pub fn on_network(&mut self, event: NetworkEvent<F>) -> (acts: Vec<Action<F>>)
        ensures
            spec_on_network_post(*old(self), event, *final(self), acts@),
    {
        let ghost old_core = *self;
        match event {
            NetworkEvent::StateChanged(net) => {
                if net == ConnectionState::Connected {
                    self.had_connection = true;
                    let mut acts = self.step(Event::ConnectionEstablished);
                    acts.push(Action::Send(Message::PairRequest {
                        nonce: self.local_nonce,
                        device_name: self.device_name.clone(),
                        os: self.local_os.clone(),
                    }));
                    acts.push(Action::ArmPairTimer);
                    acts.push(Action::EmitStatus);
                    assert(acts@ =~= spec_on_state_changed(old_core, net).1);
                    acts
                } else if net == ConnectionState::Disconnected {
                    self.peer_nonce = None;
                    self.peer_name = None;
                    self.peer_os = None;
                    let mut acts: Vec<Action<F>> = vec![Action::CancelPairTimer];
                    let mut stepped = self.step(Event::ConnectionLost);
                    acts.append(&mut stepped);
                    acts.push(Action::EmitStatus);
                    assert(acts@ =~= spec_on_state_changed(old_core, net).1);
                    acts
                } else {
                    let acts: Vec<Action<F>> = vec![Action::EmitStatus];
                    assert(acts@ =~= spec_on_state_changed(old_core, net).1);
                    acts
                }
            },
            NetworkEvent::MessageReceived(msg) => self.on_message(msg),
            NetworkEvent::PeersUpdated(peers) => vec![Action::EmitPeersUpdated(peers)],
        }
    }

    /// The user answered the pair prompt: `true` accepts, `false` declines.
    pub fn on_pair_response(&mut self, accept: bool) -> (acts: Vec<Action<F>>)
        ensures
            (*final(self), acts@) == spec_on_pair_response(*old(self), accept),
    {
        if self.state_machine.state != State::Pairing {
            return Vec::new();
        }
        let mut acts: Vec<Action<F>> = vec![Action::CancelPairTimer];
        if accept {
            acts.push(Action::Send(Message::PairAccept));
            let mut stepped = self.step(Event::PairAccepted);
            acts.append(&mut stepped);
            acts.push(Action::Send(Message::ScreenInfo(self.local_dims)));
        } else {
            acts.push(Action::Send(Message::PairDecline));
            let mut stepped = self.step(Event::PairDeclined);
            acts.append(&mut stepped);
            acts.push(Action::StopNetwork);
        }
        acts.push(Action::EmitPairResolved);
        acts.push(Action::EmitStatus);
        acts
    }

    /// The pair timer fired with no answer: decline automatically.
    pub fn on_pair_timeout(&mut self) -> (acts: Vec<Action<F>>)
        ensures
            (*final(self), acts@) == spec_on_pair_timeout(*old(self)),
    {
        if self.state_machine.state != State::Pairing {
            return Vec::new();
        }
        let mut acts: Vec<Action<F>> = vec![Action::Send(Message::PairDecline)];
        let mut stepped = self.step(Event::PairDeclined);
        acts.append(&mut stepped);
        acts.push(Action::EmitPairTimeout);
        acts.push(Action::EmitPairResolved);
        acts.push(Action::StopNetwork);
        acts.push(Action::EmitStatus);
        acts
    }

    /// Pauses (`true`) or resumes (`false`) sharing; the connection stays up.
    pub fn set_paused(&mut self, paused: bool) -> (acts: Vec<Action<F>>)
        ensures
            (*final(self), acts@) == spec_set_paused(*old(self), paused),
    {
        if self.suppressed == paused {
            return Vec::new();
        }
        self.suppressed = paused;
        if paused {
            vec![Action::ReleaseSuppression, Action::EmitStatus]
        } else if self.state_machine.state == State::Remote {
            vec![Action::RestoreSuppression, Action::EmitStatus]
        } else {
            vec![Action::EmitStatus]
        }
    }

    /// Decides where an input event goes, given the network's state.
    pub fn route_input(&self, input: InputKind<F>, net: ConnectionState) -> (route: InputRoute<F>)
        ensures
            route == spec_route_input(*self, input, net),
    {
        let state = self.state_machine.state;
        if self.suppressed {
            return InputRoute::Ignore;
        }
        let post_pair = net == ConnectionState::Connected && state != State::Pairing;
        if !post_pair && (state == State::Local || state == State::Remote) {
            return InputRoute::Ignore;
        }
        match state {
            State::Local => match input {
                InputKind::Move => InputRoute::DetectEdge,
                _ => InputRoute::Ignore,
            },
            State::Remote => match input {
                InputKind::Delta => InputRoute::TrackDelta,
                InputKind::Move => InputRoute::Ignore,
                InputKind::Button { button, pressed } => InputRoute::Forward(Message::MouseButton { button, pressed }),
                InputKind::Scroll { dx, dy } => InputRoute::Forward(Message::Scroll { dx, dy }),
            },
            _ => InputRoute::Ignore,
        }
    }

    /// The edge detector fired: remember the crossing height and hand the
    /// cursor over.
    pub fn on_edge_crossed(&mut self, crossed: EdgeCrossedEvent<F>) -> (acts: Vec<Action<F>>)
        ensures
            (*final(self), acts@) == spec_step(
                CoordinatorCore { pending_transition_y_norm: Some(crossed.y_norm), ..*old(self) },
                Event::EdgeCrossed(crossed),
            ),
    {
        self.pending_transition_y_norm = Some(crossed.y_norm);
        self.step(Event::EdgeCrossed(crossed))
    }

    /// The virtual cursor came back across the return edge at `y_norm`.
    pub fn on_cursor_returned(&mut self, y_norm: F) -> (acts: Vec<Action<F>>)
        ensures
            (*final(self), acts@) == spec_step(*old(self), Event::CursorReturnedToLocal { y_norm }),
    {
        self.step(Event::CursorReturnedToLocal { y_norm })
    }
}

} // verus!
