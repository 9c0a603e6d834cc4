//! The hand-off state machine. It decides, for every event, the next state
//! and the commands the coordinator must carry out; it performs no I/O.
use vstd::prelude::*;
use crate::edge_detection::EdgeCrossedEvent;
use crate::protocol::Message;

verus! {

#[derive(Debug, Clone, Copy, PartialEq, Eq, Structural)]
pub enum State {
    /// TCP is up but the user has not approved the pair yet. Coordinate I/O
    /// is gated off while in this state.
    Pairing,
    Local,
    Transitioning,
    Remote,
    /// Server has detected cursor returned to local screen and sent TransitionIn to client.
    /// Waiting for client's Ack before re-enabling edge detection.
    ReturnTransitioning,
}

#[derive(Debug)]
pub enum Event<F> {
    EdgeCrossed(EdgeCrossedEvent<F>),
    TransitionAcknowledged,
    TransitionInReceived { y_norm: F },
    /// Server detected virtual_pos crossed back to local screen while in Remote state.
    CursorReturnedToLocal { y_norm: F },
    ConnectionEstablished,
    ConnectionLost,
    /// User tapped Accept (local or remote side delivered a PairAccept message).
    PairAccepted,
    /// User tapped Decline, remote declined, or the 30s timer fired.
    /// Behaves like ConnectionLost for the state machine.
    PairDeclined,
}

#[derive(Debug)]
pub enum Command<F> {
    StartForwarding,
    StopForwarding,
    AcceptCursor { y_norm: F },
    /// Stop suppression and warp cursor to the return entry point on the local screen.
    ReturnCursorToLocal { y_norm: F },
    Send(Message<F>),
}

/// The transition table: from `state`, for a machine whose resting state is
/// `home`, the event `event` leads to the returned state and commands.
pub open spec fn spec_handle<F>(state: State, home: State, event: Event<F>) -> (State, Seq<Command<F>>) {
    match event {
        // TCP came up. Gate I/O behind user approval on both sides.
        Event::ConnectionEstablished => (State::Pairing, seq![]),
        // Approved: back to the resting state.
        Event::PairAccepted => if state == State::Pairing {
            (home, seq![])
        } else {
            (state, seq![])
        },
        Event::EdgeCrossed(e) => if state == State::Local {
            (
                State::Remote,
                seq![
                    Command::StartForwarding,
                    Command::Send(Message::TransitionIn { y_norm: e.y_norm }),
                ],
            )
        } else {
            (state, seq![])
        },
        Event::TransitionInReceived { y_norm } => if state == State::Remote {
            (
                State::Local,
                seq![
                    Command::StopForwarding,
                    Command::AcceptCursor { y_norm },
                    Command::Send(Message::Ack),
                ],
            )
        } else if state == State::Local {
            (State::Remote, seq![Command::Send(Message::Ack)])
        } else {
            (state, seq![])
        },
        Event::CursorReturnedToLocal { y_norm } => if state == State::Remote {
            (
                State::ReturnTransitioning,
                seq![
                    Command::Send(Message::TransitionIn { y_norm }),
                    Command::ReturnCursorToLocal { y_norm },
                ],
            )
        } else {
            (state, seq![])
        },
        Event::TransitionAcknowledged => if state == State::ReturnTransitioning {
            (State::Local, seq![])
        } else {
            (state, seq![])
        },
        // Declined or timed out: as if the connection were lost.
        Event::ConnectionLost | Event::PairDeclined => if state == State::Remote && home == State::Local {
            (State::Local, seq![Command::StopForwarding])
        } else {
            (home, seq![])
        },
    }
}

/// Coordinate traffic: events that move or hand over the cursor.
pub open spec fn spec_is_coordinate_event<F>(event: Event<F>) -> bool {
    match event {
        Event::EdgeCrossed(_) | Event::TransitionAcknowledged | Event::TransitionInReceived { .. }
        | Event::CursorReturnedToLocal { .. } => true,
        _ => false,
    }
}

/// A fresh connection always enters `Pairing` and issues no command,
/// whatever state the machine was in.
pub proof fn lemma_connection_established_enters_pairing<F>(state: State, home: State)
    ensures
        spec_handle(state, home, Event::<F>::ConnectionEstablished) == (State::Pairing, Seq::<Command<F>>::empty()),
{
    assert(seq![] =~= Seq::<Command<F>>::empty());
}

/// Losing the connection always lands in the resting state. The only command
/// is `StopForwarding`, issued exactly when a server was forwarding.
pub proof fn lemma_connection_lost_returns_home<F>(state: State, home: State)
    requires
        home == State::Local || home == State::Remote,
    ensures
        spec_handle(state, home, Event::<F>::ConnectionLost).0 == home,
        spec_handle(state, home, Event::<F>::ConnectionLost).1 =~= (if state == State::Remote && home == State::Local {
            seq![Command::<F>::StopForwarding]
        } else {
            Seq::<Command<F>>::empty()
        }),
{
}

/// While a pair awaits approval, coordinate events change nothing and
/// produce no command: no cursor position flows before the user accepts.
pub proof fn lemma_pairing_blocks_coordinates<F>(home: State, event: Event<F>)
    requires
        spec_is_coordinate_event(event),
    ensures
        spec_handle(State::Pairing, home, event).0 == State::Pairing,
        spec_handle(State::Pairing, home, event).1 =~= Seq::<Command<F>>::empty(),
{
}

/// Accepting a pending pair returns to the resting state without any
/// command; outside `Pairing` accepting has no effect.
pub proof fn lemma_pair_accepted<F>(state: State, home: State)
    ensures
        spec_handle(state, home, Event::<F>::PairAccepted).0 == (if state == State::Pairing { home } else { state }),
        spec_handle(state, home, Event::<F>::PairAccepted).1 =~= Seq::<Command<F>>::empty(),
{
}

/// Declining a pair (by the user, by the peer or by the timer) behaves like
/// losing the connection, in every state: same next state, same commands.
pub proof fn lemma_pair_declined_is_connection_lost<F>(state: State, home: State)
    ensures
        spec_handle(state, home, Event::<F>::PairDeclined) == spec_handle(state, home, Event::<F>::ConnectionLost),
{
}

/// A complete hand-off and return between a server resting in `Local` and a
/// client resting in `Remote`. The server crosses its edge and tells the client
/// where the cursor enters; the client takes the cursor at that height and
/// acknowledges; later the server recalls it, the client acknowledges again,
/// and both machines are back in their resting states, ready to repeat.
pub proof fn lemma_handoff_round_trip<F>(crossed: EdgeCrossedEvent<F>, y_back: F)
    ensures
        ({
            let (s1, out1) = spec_handle(State::Local, State::Local, Event::EdgeCrossed(crossed));
            let (c1, in1) = spec_handle(State::Remote, State::Remote, Event::TransitionInReceived { y_norm: crossed.y_norm });
            let (s2, out2) = spec_handle(s1, State::Local, Event::<F>::TransitionAcknowledged);
            let (s3, out3) = spec_handle(s2, State::Local, Event::CursorReturnedToLocal { y_norm: y_back });
            let (c2, in2) = spec_handle(c1, State::Remote, Event::TransitionInReceived { y_norm: y_back });
            let (s4, out4) = spec_handle(s3, State::Local, Event::<F>::TransitionAcknowledged);
            &&& s1 == State::Remote && c1 == State::Local
            &&& out1 =~= seq![Command::StartForwarding, Command::Send(Message::TransitionIn { y_norm: crossed.y_norm })]
            &&& in1 =~= seq![Command::StopForwarding, Command::AcceptCursor { y_norm: crossed.y_norm }, Command::Send(Message::Ack)]
            &&& s2 == State::Remote && out2 =~= Seq::<Command<F>>::empty()
            &&& s3 == State::ReturnTransitioning
            &&& out3 =~= seq![Command::Send(Message::TransitionIn { y_norm: y_back }), Command::ReturnCursorToLocal { y_norm: y_back }]
            &&& c2 == State::Remote && in2 =~= seq![Command::Send(Message::Ack)]
            &&& s4 == State::Local && out4 =~= Seq::<Command<F>>::empty()
        }),
{
}

/// Every `TransitionIn` a machine receives while it holds or awaits the
/// cursor (`Local` or `Remote`) is answered with an `Ack`, as the last command.
pub proof fn lemma_transition_in_is_acknowledged<F>(state: State, home: State, y_norm: F)
    requires
        state == State::Local || state == State::Remote,
    ensures
        ({
            let cmds = spec_handle(state, home, Event::TransitionInReceived { y_norm }).1;
            cmds.len() > 0 && cmds.last() == Command::<F>::Send(Message::Ack)
        }),
{
}

pub trait StateMachine: Send {
    fn handle<F: Copy>(&mut self, event: Event<F>) -> Vec<Command<F>>;

    fn state(&self) -> State;

    fn reset(&mut self);
}

pub struct StateMachineImpl {
    pub state: State,
    /// The state we return to after a successful PairAccepted — `Local` for
    /// the server (mouse-owning side), `Remote` for the client.
    pub home: State,
}

impl StateMachineImpl {
    /// A server-side machine: owns the mouse, rests in `Local`.
    pub fn new() -> (sm: Self)
        ensures
            sm.state == State::Local,
            sm.home == State::Local,
    {
        Self { state: State::Local, home: State::Local }
    }

    /// A client-side machine: displays the remote cursor, rests in `Remote`.
    pub fn new_as_client() -> (sm: Self)
        ensures
            sm.state == State::Remote,
            sm.home == State::Remote,
    {
        Self { state: State::Remote, home: State::Remote }
    }
}

impl StateMachine for StateMachineImpl {
    fn handle<F: Copy>(&mut self, event: Event<F>) -> (cmds: Vec<Command<F>>)
        ensures
            final(self).home == old(self).home,
            (final(self).state, cmds@) == spec_handle(old(self).state, old(self).home, event),
    {
        let state = self.state;
        match event {
            Event::ConnectionEstablished => {
                self.state = State::Pairing;
                vec![]
            },
            Event::PairAccepted => {
                if state == State::Pairing {
                    self.state = self.home;
                }
                vec![]
            },
            Event::EdgeCrossed(e) => {
                if state == State::Local {
                    self.state = State::Remote;
                    vec![
                        Command::StartForwarding,
                        Command::Send(Message::TransitionIn { y_norm: e.y_norm }),
                    ]
                } else {
                    vec![]
                }
            },
            Event::TransitionInReceived { y_norm } => {
                if state == State::Remote {
                    self.state = State::Local;
                    vec![
                        Command::StopForwarding,
                        Command::AcceptCursor { y_norm },
                        Command::Send(Message::Ack),
                    ]
                } else if state == State::Local {
                    // The peer had the cursor and is recalling it.
                    self.state = State::Remote;
                    vec![Command::Send(Message::Ack)]
                } else {
                    vec![]
                }
            },
            Event::CursorReturnedToLocal { y_norm } => {
                if state == State::Remote {
                    self.state = State::ReturnTransitioning;
                    vec![
                        Command::Send(Message::TransitionIn { y_norm }),
                        Command::ReturnCursorToLocal { y_norm },
                    ]
                } else {
                    vec![]
                }
            },
            Event::TransitionAcknowledged => {
                if state == State::ReturnTransitioning {
                    self.state = State::Local;
                }
                vec![]
            },
            Event::ConnectionLost | Event::PairDeclined => {
                if state == State::Remote && self.home == State::Local {
                    // Server lost (or was declined by) the peer while
                    // forwarding — stop suppression.
                    self.state = State::Local;
                    vec![Command::StopForwarding]
                } else {
                    self.state = self.home;
                    vec![]
                }
            },
        }
    }

    fn state(&self) -> (s: State)
        ensures
            s == self.state,
    {
        self.state
    }

    fn reset(&mut self)
        ensures
            final(self).state == old(self).home,
            final(self).home == old(self).home,
    {
        self.state = self.home;
    }
}

} // verus!
