use harrow::connection::{
    answers_bad_request, body_exceeds_limit, body_plan, body_read_size, chunked_step,
    head_after_read, head_read_continues, head_step, headers_too_large, prepare_response_head,
    rejects_before_body, request_head_step, BodyPlan, ChunkedStep, HeadDecision, HeadError,
    HeadParse, HeadStep, ReadOutcome, BODY_READ_MAX, MAX_HEADER_BUF,
};
use harrow::response::HeaderMap;
use harrow::lifecycle::{Action, ConnectionState, Event, InvalidTransition, Machine, PendingIo};

#[derive(Clone, Debug)]
struct ScriptCase {
    seed: u64,
    events: Vec<Event>,
}

#[derive(Clone, Debug)]
struct ScriptFailure {
    seed: u64,
    step: usize,
    event: Event,
    state: Machine,
}

impl std::fmt::Display for ScriptFailure {
    fn fmt(&self, f: &mut std::fmt::Formatter<'_>) -> std::fmt::Result {
        let text = format!(
            "seed={} step={} event={:?} state={:?}",
            self.seed, self.step, self.event, self.state
        );
        f.write_str(&text)
    }
}

#[derive(Clone)]
struct ScriptRng(u64);

impl ScriptRng {
    fn new(seed: u64) -> Self {
        Self(seed.max(1))
    }

    fn next(&mut self) -> u64 {
        self.0 ^= self.0 << 13;
        self.0 ^= self.0 >> 7;
        self.0 ^= self.0 << 17;
        self.0
    }

    fn pick<T: Copy>(&mut self, values: &[T]) -> T {
        let idx = (self.next() as usize) % values.len();
        values[idx]
    }
}

fn allowed_events(machine: &Machine) -> &'static [Event] {
    match (machine.state, machine.pending_io) {
        (ConnectionState::Free, PendingIo::Idle) => &[Event::Accept, Event::Shutdown],
        (ConnectionState::Headers, PendingIo::Recv) => &[
            Event::HeadersNeedMore,
            Event::HeadersParsed { has_body: false },
            Event::HeadersParsed { has_body: true },
            Event::ProtocolError,
            Event::BodyLimitExceeded,
            Event::Timeout,
            Event::IoError,
            Event::Shutdown,
        ],
        (ConnectionState::Body, PendingIo::Recv) => &[
            Event::BodyNeedMore,
            Event::BodyDone,
            Event::EarlyResponse,
            Event::Timeout,
            Event::IoError,
            Event::Shutdown,
        ],
        (ConnectionState::Dispatching, PendingIo::Idle) => &[Event::DispatchDone, Event::Timeout, Event::Shutdown],
        (ConnectionState::Writing, PendingIo::Write) => &[
            Event::WriteProgress,
            Event::WriteDone {
                keep_alive: true,
                buffered_next_request: false,
            },
            Event::WriteDone {
                keep_alive: true,
                buffered_next_request: true,
            },
            Event::WriteDone {
                keep_alive: false,
                buffered_next_request: false,
            },
            Event::IoError,
            Event::Shutdown,
        ],
        (ConnectionState::Closed, PendingIo::Recv) | (ConnectionState::Closed, PendingIo::Write) => {
            &[Event::ClosedCqe, Event::Shutdown]
        }
        _ => &[Event::Shutdown],
    }
}

fn generate_script(seed: u64, steps: usize) -> ScriptCase {
    let mut rng = ScriptRng::new(seed);
    let mut machine = Machine::new();
    let mut events = Vec::with_capacity(steps);

    for _ in 0..steps {
        let choices = allowed_events(&machine);
        let event = rng.pick(choices);
        events.push(event);
        let _ = machine.apply(event);
        if machine.shutdown && machine.state == ConnectionState::Free {
            break;
        }
    }

    ScriptCase { seed, events }
}

fn run_script(case: &ScriptCase) -> Result<Machine, ScriptFailure> {
    let mut machine = Machine::new();
    for (step, event) in case.events.iter().copied().enumerate() {
        machine.apply(event).map_err(|_| ScriptFailure {
            seed: case.seed,
            step,
            event,
            state: machine,
        })?;
        if !machine.invariant_holds() {
            return Err(ScriptFailure {
                seed: case.seed,
                step,
                event,
                state: machine,
            });
        }
    }
    Ok(machine)
}

#[test]
fn early_response_moves_from_body_to_write() {
    let mut machine = Machine::new();
    assert_eq!(machine.apply(Event::Accept), Ok(Action::ArmRecv));
    assert_eq!(
        machine.apply(Event::HeadersParsed { has_body: true }),
        Ok(Action::ArmRecv)
    );
    assert_eq!(machine.apply(Event::EarlyResponse), Ok(Action::ArmWrite));
    assert_eq!(machine.state, ConnectionState::Writing);
    assert_eq!(machine.pending_io, PendingIo::Write);
}

#[test]
fn keep_alive_reset_reports_buffered_request_bytes() {
    let mut machine = Machine::new();
    assert_eq!(machine.apply(Event::Accept), Ok(Action::ArmRecv));
    assert_eq!(
        machine.apply(Event::HeadersParsed { has_body: false }),
        Ok(Action::Dispatch)
    );
    assert_eq!(machine.apply(Event::DispatchDone), Ok(Action::ArmWrite));
    assert_eq!(
        machine.apply(Event::WriteDone {
            keep_alive: true,
            buffered_next_request: true,
        }),
        Ok(Action::ReuseConnection {
            buffered_next_request: true
        })
    );
    assert_eq!(machine.state, ConnectionState::Headers);
    assert_eq!(machine.pending_io, PendingIo::Recv);
}

#[test]
fn timeout_with_pending_io_waits_for_closed_cqe() {
    let mut machine = Machine::new();
    assert_eq!(machine.apply(Event::Accept), Ok(Action::ArmRecv));
    assert_eq!(machine.apply(Event::Timeout), Ok(Action::AwaitClosedCqe));
    assert_eq!(machine.state, ConnectionState::Closed);
    assert_eq!(machine.pending_io, PendingIo::Recv);
    assert_eq!(machine.apply(Event::ClosedCqe), Ok(Action::Close));
    assert_eq!(machine.state, ConnectionState::Free);
    assert_eq!(machine.pending_io, PendingIo::Idle);
}

#[test]
fn seeded_scripts_are_replayable_and_preserve_invariants() {
    let seeds = [1_u64, 2, 3, 4, 99, 512, 1024, 65_537];
    for seed in seeds {
        let case = generate_script(seed, 64);
        let replay = case.clone();
        let end_state = run_script(&case).unwrap_or_else(|err| panic!("{err}"));
        let replay_state = run_script(&replay).unwrap_or_else(|err| panic!("{err}"));
        assert_eq!(end_state, replay_state, "seed={seed}");
    }
}

#[test]
fn shutdown_scripts_can_drain_to_free() {
    let case = ScriptCase {
        seed: 7,
        events: vec![
            Event::Accept,
            Event::HeadersParsed { has_body: false },
            Event::DispatchDone,
            Event::Shutdown,
            Event::WriteDone {
                keep_alive: false,
                buffered_next_request: false,
            },
        ],
    };

    let end_state = run_script(&case).unwrap();
    assert!(end_state.shutdown);
    assert_eq!(end_state.state, ConnectionState::Free);
    assert_eq!(end_state.pending_io, PendingIo::Idle);
}

// Laws on concrete values.

#[test]
fn refused_event_leaves_machine_unchanged() {
    let mut machine = Machine::new();
    let before = machine;
    assert_eq!(
        machine.apply(Event::BodyDone),
        Err(InvalidTransition {
            state: ConnectionState::Free,
            pending_io: PendingIo::Idle,
            shutdown: false,
            event: Event::BodyDone,
        })
    );
    assert_eq!(machine, before);
}

#[test]
fn shutdown_refuses_new_connections_but_is_sticky() {
    let mut machine = Machine::default();
    assert_eq!(machine.apply(Event::Shutdown), Ok(Action::Noop));
    assert!(machine.shutdown);
    assert!(machine.apply(Event::Accept).is_err());
    assert_eq!(machine.apply(Event::Shutdown), Ok(Action::Noop));
    assert!(machine.shutdown);
    assert_eq!(machine.state, ConnectionState::Free);
}

#[test]
fn timeout_while_dispatching_closes_directly() {
    let mut machine = Machine::new();
    machine.apply(Event::Accept).unwrap();
    machine.apply(Event::HeadersParsed { has_body: false }).unwrap();
    assert_eq!(machine.apply(Event::Timeout), Ok(Action::Close));
    assert_eq!(machine.state, ConnectionState::Free);
    assert!(machine.invariant_holds());
}

#[test]
fn protocol_error_and_body_limit_answer_with_a_write() {
    for event in [Event::ProtocolError, Event::BodyLimitExceeded] {
        let mut machine = Machine::new();
        machine.apply(Event::Accept).unwrap();
        assert_eq!(machine.apply(event), Ok(Action::ArmWrite));
        assert_eq!(machine.state, ConnectionState::Writing);
        assert_eq!(machine.pending_io, PendingIo::Write);
    }
}

#[test]
fn io_error_frees_slot_and_write_done_without_keep_alive_closes() {
    let mut machine = Machine::new();
    machine.apply(Event::Accept).unwrap();
    assert_eq!(machine.apply(Event::HeadersNeedMore), Ok(Action::ArmRecv));
    assert_eq!(machine.apply(Event::IoError), Ok(Action::Close));
    assert_eq!(machine, Machine::new());

    machine.apply(Event::Accept).unwrap();
    machine.apply(Event::HeadersParsed { has_body: true }).unwrap();
    assert_eq!(machine.apply(Event::BodyNeedMore), Ok(Action::ArmRecv));
    assert_eq!(machine.apply(Event::BodyDone), Ok(Action::Dispatch));
    machine.apply(Event::DispatchDone).unwrap();
    assert_eq!(machine.apply(Event::WriteProgress), Ok(Action::ArmWrite));
    assert_eq!(
        machine.apply(Event::WriteDone {
            keep_alive: false,
            buffered_next_request: true
        }),
        Ok(Action::Close)
    );
    assert_eq!(machine, Machine::new());
}

#[test]
fn invariant_detects_inconsistent_phase() {
    let machine = Machine {
        state: ConnectionState::Headers,
        pending_io: PendingIo::Write,
        shutdown: false,
    };
    assert!(!machine.invariant_holds());
    let closed = Machine {
        state: ConnectionState::Closed,
        pending_io: PendingIo::Idle,
        shutdown: true,
    };
    assert!(!closed.invariant_holds());
}

#[test]
fn connection_limits() {
    assert_eq!(MAX_HEADER_BUF, 64 * 1024);
    assert!(!headers_too_large(MAX_HEADER_BUF - 1));
    assert!(headers_too_large(MAX_HEADER_BUF));
    assert!(!body_exceeds_limit(0, 1 << 30));
    assert!(!body_exceeds_limit(100, 100));
    assert!(body_exceeds_limit(100, 101));
    assert!(rejects_before_body(10, Some(11)));
    assert!(!rejects_before_body(10, Some(10)));
    assert!(!rejects_before_body(10, None));
    assert!(!rejects_before_body(0, Some(u64::MAX)));
}

#[test]
fn head_reading_steps() {
    assert_eq!(head_step(HeadParse::Complete, MAX_HEADER_BUF, true), HeadStep::Parsed);
    assert_eq!(head_step(HeadParse::Incomplete, 10, false), HeadStep::ReadMore);
    assert_eq!(
        head_step(HeadParse::Incomplete, MAX_HEADER_BUF, false),
        HeadStep::Fail(HeadError::TooLarge)
    );
    assert_eq!(head_step(HeadParse::Incomplete, 10, true), HeadStep::Fail(HeadError::Timeout));
    assert_eq!(head_step(HeadParse::Invalid, 10, false), HeadStep::Fail(HeadError::Invalid));

    assert_eq!(head_after_read(ReadOutcome::Data(12), 0), None);
    assert_eq!(head_after_read(ReadOutcome::Data(0), 0), Some(HeadError::Closed));
    assert_eq!(head_after_read(ReadOutcome::Data(0), 7), Some(HeadError::UnexpectedEof));
    assert_eq!(head_after_read(ReadOutcome::TimedOut, 7), Some(HeadError::Timeout));
    assert_eq!(head_after_read(ReadOutcome::Failed, 7), Some(HeadError::Io));

    assert!(!answers_bad_request(HeadError::Closed));
    assert!(answers_bad_request(HeadError::UnexpectedEof));
    assert!(answers_bad_request(HeadError::TooLarge));
}

#[test]
fn refused_heads_are_answered() {
    assert_eq!(request_head_step(HeadParse::Complete, 0, 100, true), HeadDecision::Parsed);
    assert_eq!(request_head_step(HeadParse::Incomplete, 99, 100, false), HeadDecision::ReadMore);
    assert_eq!(request_head_step(HeadParse::Incomplete, 99, 100, true), HeadDecision::GiveUp);
    assert_eq!(
        request_head_step(HeadParse::Incomplete, 100, 100, false),
        HeadDecision::Reject { status: 400, message: "request headers too large".to_string() }
    );
    assert_eq!(
        request_head_step(HeadParse::Invalid, 0, 100, false),
        HeadDecision::Reject { status: 400, message: "bad request".to_string() }
    );
    assert_eq!(
        request_head_step(HeadParse::BodyTooLarge, 0, 100, false),
        HeadDecision::Reject { status: 413, message: "payload too large".to_string() }
    );
    assert!(head_read_continues(ReadOutcome::Data(1)));
    assert!(!head_read_continues(ReadOutcome::Data(0)));
    assert!(!head_read_continues(ReadOutcome::TimedOut));
    assert!(!head_read_continues(ReadOutcome::Failed));
}

#[test]
fn body_reading_steps() {
    assert_eq!(body_plan(Some(10), true), BodyPlan::Chunked);
    assert_eq!(body_plan(None, false), BodyPlan::Empty);
    assert_eq!(body_plan(Some(0), false), BodyPlan::Empty);
    assert_eq!(body_plan(Some(10), false), BodyPlan::Length(10));
    assert_eq!(body_read_size(100, 40), 60);
    assert_eq!(body_read_size(100_000, 0), BODY_READ_MAX);
    assert_eq!(chunked_step(None, 10), ChunkedStep::ReadMore);
    assert_eq!(chunked_step(Some(11), 10), ChunkedStep::TooLarge);
    assert_eq!(chunked_step(Some(10), 10), ChunkedStep::Done);
    assert_eq!(chunked_step(Some(1 << 20), 0), ChunkedStep::Done);
}

#[test]
fn response_head_framing() {
    let mut headers = HeaderMap::new();
    assert!(prepare_response_head(&mut headers, true));
    assert_eq!(headers.get("connection"), None);
    assert!(prepare_response_head(&mut headers, false));
    assert_eq!(headers.get("Connection"), Some("close"));
    headers.insert("Content-Length", "5");
    assert!(!prepare_response_head(&mut headers, true));
}
