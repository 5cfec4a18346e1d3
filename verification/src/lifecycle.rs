//! Shared connection phases for Harrow's HTTP/1 lifecycle.
//!
//! `Machine::apply` is the single place where a backend asks "what next?":
//! it takes the current phase, the socket operation still in flight and an
//! event, and answers with the new phase and the action to perform.
use vstd::prelude::*;

verus! {

/// Shared connection phases for Harrow's HTTP/1 lifecycle.
#[derive(Copy, Clone, Debug, PartialEq, Eq, Structural)]
pub enum ConnectionState {
    Free,
    Headers,
    Body,
    Dispatching,
    Writing,
    Closed,
}

/// Pending socket operation for the current connection state.
#[derive(Copy, Clone, Debug, PartialEq, Eq, Structural)]
pub enum PendingIo {
    /// No socket operation is in flight.
    Idle,
    Recv,
    Write,
}

/// Abstract lifecycle events that are backend-agnostic.
#[derive(Copy, Clone, Debug, PartialEq, Eq, Structural)]
pub enum Event {
    Accept,
    HeadersNeedMore,
    HeadersParsed { has_body: bool },
    BodyNeedMore,
    BodyDone,
    EarlyResponse,
    DispatchDone,
    WriteProgress,
    WriteDone { keep_alive: bool, buffered_next_request: bool },
    ProtocolError,
    BodyLimitExceeded,
    Timeout,
    IoError,
    Shutdown,
    ClosedCqe,
}

/// What the backend should do next after a lifecycle transition.
#[derive(Copy, Clone, Debug, PartialEq, Eq, Structural)]
pub enum Action {
    /// Nothing to do.
    Noop,
    Dispatch,
    ArmRecv,
    ArmWrite,
    ReuseConnection { buffered_next_request: bool },
    Close,
    AwaitClosedCqe,
}

/// The lifecycle state of one connection.
#[derive(Copy, Clone, Debug, PartialEq, Eq, Structural)]
pub struct Machine {
    pub state: ConnectionState,
    pub pending_io: PendingIo,
    pub shutdown: bool,
}

/// The event that was refused, with the state it was refused in.
#[derive(Copy, Clone, Debug, PartialEq, Eq, Structural)]
pub struct InvalidTransition {
    pub state: ConnectionState,
    pub pending_io: PendingIo,
    pub shutdown: bool,
    pub event: Event,
}

/// A machine with the given phase and pending operation (shutdown flag kept).
pub open spec fn with_phase(m: Machine, state: ConnectionState, pending_io: PendingIo) -> Machine {
    Machine { state, pending_io, shutdown: m.shutdown }
}

/// The transition table of the lifecycle: the machine after `e` and the action
/// the backend must perform, or `None` when `e` is not allowed in `m`.
/// Rows are tried in order; the first that fits decides.
pub open spec fn transition(m: Machine, e: Event) -> Option<(Machine, Action)> {
    let s = m.state;
    let p = m.pending_io;
    if s == ConnectionState::Free && p == PendingIo::Idle && e == Event::Accept && !m.shutdown {
        Some((with_phase(m, ConnectionState::Headers, PendingIo::Recv), Action::ArmRecv))
    } else if s == ConnectionState::Headers && p == PendingIo::Recv && e == Event::HeadersNeedMore {
        Some((m, Action::ArmRecv))
    } else if s == ConnectionState::Headers && p == PendingIo::Recv
        && e == (Event::HeadersParsed { has_body: false }) {
        Some((with_phase(m, ConnectionState::Dispatching, PendingIo::Idle), Action::Dispatch))
    } else if s == ConnectionState::Headers && p == PendingIo::Recv
        && e == (Event::HeadersParsed { has_body: true }) {
        Some((with_phase(m, ConnectionState::Body, PendingIo::Recv), Action::ArmRecv))
    } else if s == ConnectionState::Body && p == PendingIo::Recv && e == Event::BodyNeedMore {
        Some((m, Action::ArmRecv))
    } else if s == ConnectionState::Body && p == PendingIo::Recv && e == Event::BodyDone {
        Some((with_phase(m, ConnectionState::Dispatching, PendingIo::Idle), Action::Dispatch))
    } else if s == ConnectionState::Body && p == PendingIo::Recv && e == Event::EarlyResponse {
        Some((with_phase(m, ConnectionState::Writing, PendingIo::Write), Action::ArmWrite))
    } else if s == ConnectionState::Dispatching && p == PendingIo::Idle && e == Event::DispatchDone {
        Some((with_phase(m, ConnectionState::Writing, PendingIo::Write), Action::ArmWrite))
    } else if s == ConnectionState::Writing && p == PendingIo::Write && e == Event::WriteProgress {
        Some((m, Action::ArmWrite))
    } else if s == ConnectionState::Writing && p == PendingIo::Write && e is WriteDone
        && e->keep_alive {
        Some((
            with_phase(m, ConnectionState::Headers, PendingIo::Recv),
            Action::ReuseConnection { buffered_next_request: e->buffered_next_request },
        ))
    } else if s == ConnectionState::Writing && p == PendingIo::Write && e is WriteDone {
        Some((with_phase(m, ConnectionState::Free, PendingIo::Idle), Action::Close))
    } else if s == ConnectionState::Headers && p == PendingIo::Recv && (e == Event::ProtocolError
        || e == Event::BodyLimitExceeded) {
        Some((with_phase(m, ConnectionState::Writing, PendingIo::Write), Action::ArmWrite))
    } else if (s == ConnectionState::Headers || s == ConnectionState::Body) && (p == PendingIo::Recv
        || p == PendingIo::Write) && e == Event::Timeout {
        Some((with_phase(m, ConnectionState::Closed, p), Action::AwaitClosedCqe))
    } else if (s == ConnectionState::Dispatching || s == ConnectionState::Writing) && p
        == PendingIo::Idle && e == Event::Timeout {
        Some((with_phase(m, ConnectionState::Free, PendingIo::Idle), Action::Close))
    } else if (s == ConnectionState::Headers || s == ConnectionState::Body || s
        == ConnectionState::Writing) && (p == PendingIo::Recv || p == PendingIo::Write) && e
        == Event::IoError {
        Some((with_phase(m, ConnectionState::Free, PendingIo::Idle), Action::Close))
    } else if s == ConnectionState::Closed && (p == PendingIo::Recv || p == PendingIo::Write) && e
        == Event::ClosedCqe {
        Some((with_phase(m, ConnectionState::Free, PendingIo::Idle), Action::Close))
    } else if e == Event::Shutdown {
        Some((Machine { shutdown: true, ..m }, Action::Noop))
    } else {
        None
    }
}

/// The consistency rule between a phase and the socket operation it waits on.
pub open spec fn phase_consistent(m: Machine) -> bool {
    match m.state {
        ConnectionState::Free => m.pending_io == PendingIo::Idle,
        ConnectionState::Closed => m.pending_io == PendingIo::Recv || m.pending_io
            == PendingIo::Write,
        ConnectionState::Dispatching => m.pending_io == PendingIo::Idle,
        ConnectionState::Headers => m.pending_io == PendingIo::Recv,
        ConnectionState::Body => m.pending_io == PendingIo::Recv,
        ConnectionState::Writing => m.pending_io == PendingIo::Write,
    }
}

/// The machine after replaying `events` from `m`, or `None` at the first refused event.
pub open spec fn run(m: Machine, events: Seq<Event>) -> Option<Machine>
    decreases events.len(),
{
    if events.len() == 0 {
        Some(m)
    } else {
        match transition(m, events[0]) {
            Some((next, _)) => run(next, events.drop_first()),
            None => None,
        }
    }
}

/// The machine a new connection slot starts in.
pub open spec fn initial_machine() -> Machine {
    Machine { state: ConnectionState::Free, pending_io: PendingIo::Idle, shutdown: false }
}

/// A timeout never frees a connection whose socket operation is still in
/// flight: while a request is being read (its head or its body, with a
/// receive or write outstanding) a timeout is always accepted, closes the
/// connection and waits for that operation's completion, keeping it
/// recorded; and whenever a timeout asks to `Close`, no socket operation is in
/// flight.
pub proof fn lemma_timeout_waits_for_operation_in_flight(m: Machine)
    ensures
        (m.state == ConnectionState::Headers || m.state == ConnectionState::Body) && m.pending_io
            != PendingIo::Idle ==> transition(m, Event::Timeout) == Some(
            (
                Machine { state: ConnectionState::Closed, pending_io: m.pending_io, shutdown: m.shutdown },
                Action::AwaitClosedCqe,
            ),
        ),
        transition(m, Event::Timeout) matches Some((next, Action::Close)) ==> m.pending_io
            == PendingIo::Idle && next.pending_io == PendingIo::Idle,
        m.pending_io != PendingIo::Idle ==> (transition(m, Event::Timeout) matches Some((next, _))
            ==> next.pending_io == m.pending_io),
{
}

/// Every allowed transition from a consistent state leads to a consistent state.
pub proof fn lemma_transition_keeps_consistency(m: Machine, e: Event)
    requires
        phase_consistent(m),
        transition(m, e) is Some,
    ensures
        phase_consistent(transition(m, e).unwrap().0),
{
}

/// Replaying any accepted script from a consistent state ends in a consistent state.
pub proof fn lemma_replay_keeps_consistency(m: Machine, events: Seq<Event>)
    requires
        phase_consistent(m),
        run(m, events) is Some,
    ensures
        phase_consistent(run(m, events)->0),
    decreases events.len(),
{
    if events.len() > 0 {
        lemma_transition_keeps_consistency(m, events[0]);
        lemma_replay_keeps_consistency(transition(m, events[0]).unwrap().0, events.drop_first());
    }
}

/// Once shutdown has been signalled it stays signalled, whatever event follows.
pub proof fn lemma_shutdown_is_sticky(m: Machine, e: Event)
    requires
        m.shutdown,
        transition(m, e) is Some,
    ensures
        transition(m, e).unwrap().0.shutdown,
{
}

/// A machine that is shutting down accepts no new connection.
pub proof fn lemma_shutdown_refuses_accept(m: Machine)
    requires
        m.shutdown,
    ensures
        transition(m, Event::Accept) is None,
{
}

/// A shutdown signal is accepted in every state; it only sets the flag and asks for nothing.
pub proof fn lemma_shutdown_always_accepted(m: Machine)
    ensures
        transition(m, Event::Shutdown) == Some(
            (Machine { state: m.state, pending_io: m.pending_io, shutdown: true }, Action::Noop),
        ),
{
}

/// The action handed to the backend always agrees with the phase the machine moved to:
/// arming a receive leaves a receive in flight, arming a write leaves a write in flight,
/// dispatching leaves no socket operation, closing frees the slot, and waiting for the
/// closed completion keeps the cancelled operation recorded.
pub proof fn lemma_action_agrees_with_phase(m: Machine, e: Event)
    requires
        transition(m, e) is Some,
    ensures
        ({
            let (n, a) = transition(m, e)->0;
            &&& a == Action::ArmRecv ==> n.pending_io == PendingIo::Recv
            &&& a == Action::ArmWrite ==> n.state == ConnectionState::Writing && n.pending_io
                == PendingIo::Write
            &&& a == Action::Dispatch ==> n.state == ConnectionState::Dispatching && n.pending_io
                == PendingIo::Idle
            &&& a == Action::Close ==> n.state == ConnectionState::Free && n.pending_io
                == PendingIo::Idle
            &&& a == Action::AwaitClosedCqe ==> n.state == ConnectionState::Closed && n.pending_io
                == m.pending_io
            &&& a is ReuseConnection ==> n.state == ConnectionState::Headers && n.pending_io
                == PendingIo::Recv
            &&& a == Action::Noop ==> n.state == m.state && n.pending_io == m.pending_io
        }),
{
}

/// From every consistent state some script of at most one event frees the connection slot.
pub proof fn lemma_every_connection_can_be_freed(m: Machine) -> (events: Seq<Event>)
    requires
        phase_consistent(m),
    ensures
        events.len() <= 1,
        run(m, events) is Some,
        run(m, events)->0.state == ConnectionState::Free,
        run(m, events)->0.pending_io == PendingIo::Idle,
{
    let events = match m.state {
        ConnectionState::Free => Seq::<Event>::empty(),
        ConnectionState::Headers | ConnectionState::Body | ConnectionState::Writing => seq![
            Event::IoError,
        ],
        ConnectionState::Dispatching => seq![Event::Timeout],
        ConnectionState::Closed => seq![Event::ClosedCqe],
    };
    if events.len() == 1 {
        let e = events[0];
        let next = transition(m, e).unwrap().0;
        assert(events.drop_first() =~= Seq::<Event>::empty());
        assert(run(next, events.drop_first()) == Some(next));
        assert(run(m, events) == Some(next));
    }
    events
}

impl Machine {
    /// A free connection slot, not shutting down.
    pub fn new() -> (m: Self)
        ensures
            m == initial_machine(),
    {
        Machine { state: ConnectionState::Free, pending_io: PendingIo::Idle, shutdown: false }
    }

    /// Feed one event to the machine.
    ///
    /// On an allowed event the machine moves as the transition table says and
    /// the action for the backend is returned; on any other event the machine is
    /// left as it was and the refused event is reported with that state.
    pub fn apply(&mut self, event: Event) -> (r: Result<Action, InvalidTransition>)
        ensures
            match transition(*old(self), event) {
                Some((next, action)) => r == Ok::<Action, InvalidTransition>(action)
                    && *final(self) == next,
                None => r == Err::<Action, InvalidTransition>(
                    InvalidTransition {
                        state: old(self).state,
                        pending_io: old(self).pending_io,
                        shutdown: old(self).shutdown,
                        event,
                    },
                ) && *final(self) == *old(self),
            },
    {
        let previous = *self;
        let s = self.state;
        let p = self.pending_io;
        let action = match event {
            Event::Accept => {
                if s == ConnectionState::Free && p == PendingIo::Idle && !self.shutdown {
                    self.state = ConnectionState::Headers;
                    self.pending_io = PendingIo::Recv;
                    Action::ArmRecv
                } else {
                    return Err(Self::refused(previous, event));
                }
            },
            Event::HeadersNeedMore => {
                if s == ConnectionState::Headers && p == PendingIo::Recv {
                    Action::ArmRecv
                } else {
                    return Err(Self::refused(previous, event));
                }
            },
            Event::HeadersParsed { has_body } => {
                if s == ConnectionState::Headers && p == PendingIo::Recv {
                    if has_body {
                        self.state = ConnectionState::Body;
                        self.pending_io = PendingIo::Recv;
                        Action::ArmRecv
                    } else {
                        self.state = ConnectionState::Dispatching;
                        self.pending_io = PendingIo::Idle;
                        Action::Dispatch
                    }
                } else {
                    return Err(Self::refused(previous, event));
                }
            },
            Event::BodyNeedMore => {
                if s == ConnectionState::Body && p == PendingIo::Recv {
                    Action::ArmRecv
                } else {
                    return Err(Self::refused(previous, event));
                }
            },
            Event::BodyDone => {
                if s == ConnectionState::Body && p == PendingIo::Recv {
                    self.state = ConnectionState::Dispatching;
                    self.pending_io = PendingIo::Idle;
                    Action::Dispatch
                } else {
                    return Err(Self::refused(previous, event));
                }
            },
            Event::EarlyResponse => {
                if s == ConnectionState::Body && p == PendingIo::Recv {
                    self.state = ConnectionState::Writing;
                    self.pending_io = PendingIo::Write;
                    Action::ArmWrite
                } else {
                    return Err(Self::refused(previous, event));
                }
            },
            Event::DispatchDone => {
                if s == ConnectionState::Dispatching && p == PendingIo::Idle {
                    self.state = ConnectionState::Writing;
                    self.pending_io = PendingIo::Write;
                    Action::ArmWrite
                } else {
                    return Err(Self::refused(previous, event));
                }
            },
            Event::WriteProgress => {
                if s == ConnectionState::Writing && p == PendingIo::Write {
                    Action::ArmWrite
                } else {
                    return Err(Self::refused(previous, event));
                }
            },
            Event::WriteDone { keep_alive, buffered_next_request } => {
                if s == ConnectionState::Writing && p == PendingIo::Write {
                    if keep_alive {
                        self.state = ConnectionState::Headers;
                        self.pending_io = PendingIo::Recv;
                        Action::ReuseConnection { buffered_next_request }
                    } else {
                        self.state = ConnectionState::Free;
                        self.pending_io = PendingIo::Idle;
                        Action::Close
                    }
                } else {
                    return Err(Self::refused(previous, event));
                }
            },
            Event::ProtocolError | Event::BodyLimitExceeded => {
                if s == ConnectionState::Headers && p == PendingIo::Recv {
                    self.state = ConnectionState::Writing;
                    self.pending_io = PendingIo::Write;
                    Action::ArmWrite
                } else {
                    return Err(Self::refused(previous, event));
                }
            },
            Event::Timeout => {
                let recv_or_write = p == PendingIo::Recv || p == PendingIo::Write;
                if (s == ConnectionState::Headers || s == ConnectionState::Body) && recv_or_write {
                    self.state = ConnectionState::Closed;
                    Action::AwaitClosedCqe
                } else if (s == ConnectionState::Dispatching || s == ConnectionState::Writing) && p
                    == PendingIo::Idle {
                    self.state = ConnectionState::Free;
                    self.pending_io = PendingIo::Idle;
                    Action::Close
                } else {
                    return Err(Self::refused(previous, event));
                }
            },
            Event::IoError => {
                let recv_or_write = p == PendingIo::Recv || p == PendingIo::Write;
                if (s == ConnectionState::Headers || s == ConnectionState::Body || s
                    == ConnectionState::Writing) && recv_or_write {
                    self.state = ConnectionState::Free;
                    self.pending_io = PendingIo::Idle;
                    Action::Close
                } else {
                    return Err(Self::refused(previous, event));
                }
            },
            Event::ClosedCqe => {
                if s == ConnectionState::Closed && (p == PendingIo::Recv || p == PendingIo::Write) {
                    self.state = ConnectionState::Free;
                    self.pending_io = PendingIo::Idle;
                    Action::Close
                } else {
                    return Err(Self::refused(previous, event));
                }
            },
            Event::Shutdown => {
                self.shutdown = true;
                Action::Noop
            },
        };
        Ok(action)
    }

    /// The error value for an event refused in state `m`.
    fn refused(m: Machine, event: Event) -> (r: InvalidTransition)
        ensures
            r == (InvalidTransition {
                state: m.state,
                pending_io: m.pending_io,
                shutdown: m.shutdown,
                event,
            }),
    {
        InvalidTransition {
            state: m.state,
            pending_io: m.pending_io,
            shutdown: m.shutdown,
            event,
        }
    }

    /// Whether the phase agrees with the socket operation in flight.
    pub fn invariant_holds(&self) -> (b: bool)
        ensures
            b == phase_consistent(*self),
    {
        match self.state {
            ConnectionState::Free => self.pending_io == PendingIo::Idle,
            ConnectionState::Closed => self.pending_io == PendingIo::Recv || self.pending_io
                == PendingIo::Write,
            ConnectionState::Dispatching => self.pending_io == PendingIo::Idle,
            ConnectionState::Headers => self.pending_io == PendingIo::Recv,
            ConnectionState::Body => self.pending_io == PendingIo::Recv,
            ConnectionState::Writing => self.pending_io == PendingIo::Write,
        }
    }
}

impl Default for Machine {
    fn default() -> (m: Self)
        ensures
            m == initial_machine(),
    {
        Self::new()
    }
}

} // verus!
