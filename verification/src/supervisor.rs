//! The supervisor: keeps one connection open at a time and decides, event by
//! event, what happens next.
//!
//! It reconnects after a drop with exponential backoff until it is cancelled or
//! observes a fatal error. The caller does what an [`Action`] says (dials,
//! waits, sends, hangs up, sleeps) and hands in what came of it as an
//! [`Input`].

use crate::backoff::{grown, next_backoff};
use crate::config::{Config, ConfigView};
use crate::duration::{Duration, MAX_NANOS};
use crate::errors::{outcome_view, Error, ErrorView, ServerError, ServerErrorView};
use crate::message::{Message, MessageView};
use crate::ws::{
    decode_frame, frame_event, Event, EventView, Frame, FrameView, Outgoing, OutgoingView,
};
use vstd::prelude::*;
use vstd::string::*;

verus! {

/// Seconds of sustained connection before the backoff resets.
pub const HEALTHY_THRESHOLD_SECS: u64 = 30;

/// How one connection cycle ended.
#[derive(Debug)]
pub enum CycleOutcome {
    /// Connection stayed healthy, then closed cleanly.
    Clean,
    /// Transient error: the supervisor should retry.
    Error(Error),
    /// Fatal server error: the supervisor should stop.
    Fatal(ServerError),
    /// The agent was closed: the supervisor should stop.
    Stopped,
}

/// A [`CycleOutcome`] with its texts as characters.
pub enum OutcomeView {
    Clean,
    Error(ErrorView),
    Fatal(ServerErrorView),
    Stopped,
}

impl View for CycleOutcome {
    type V = OutcomeView;

    open spec fn view(&self) -> OutcomeView {
        match self {
            CycleOutcome::Clean => OutcomeView::Clean,
            CycleOutcome::Error(e) => OutcomeView::Error(e@),
            CycleOutcome::Fatal(e) => OutcomeView::Fatal(e@),
            CycleOutcome::Stopped => OutcomeView::Stopped,
        }
    }
}

/// Where the supervisor stands.
#[derive(Debug)]
pub enum Phase {
    /// Not started yet.
    Idle,
    /// A connection is being opened.
    Dialing,
    /// A connection is open.
    Connected,
    /// A connection is open, and a message is being written to it.
    Transmitting,
    /// The connection is being closed; the cycle ended like this.
    Closing(CycleOutcome),
    /// Waiting before the next attempt.
    Sleeping,
    /// Stopped for good.
    Stopped,
}

/// A [`Phase`] with its texts as characters.
pub enum PhaseView {
    Idle,
    Dialing,
    Connected,
    Transmitting,
    Closing(OutcomeView),
    Sleeping,
    Stopped,
}

impl View for Phase {
    type V = PhaseView;

    open spec fn view(&self) -> PhaseView {
        match self {
            Phase::Idle => PhaseView::Idle,
            Phase::Dialing => PhaseView::Dialing,
            Phase::Connected => PhaseView::Connected,
            Phase::Transmitting => PhaseView::Transmitting,
            Phase::Closing(o) => PhaseView::Closing(o@),
            Phase::Sleeping => PhaseView::Sleeping,
            Phase::Stopped => PhaseView::Stopped,
        }
    }
}

/// What happened to the connection.
#[derive(Debug)]
pub enum Input {
    /// The supervisor was started.
    Started,
    /// Dialing ended: the connection is open, or there is none.
    Dialed(Result<(), Error>),
    /// The agent was closed while a connection was open or a delay ran.
    Cancelled,
    /// Somebody wants to send this message.
    Request(Outgoing),
    /// The message was written, with this outcome.
    Written(Result<(), Error>),
    /// A frame arrived.
    Frame(Frame),
    /// Reading failed, with this message.
    Failed(String),
    /// There is nothing more to read.
    Ended,
    /// The connection is closed; it had been open for this long.
    HungUp { connected_for: Duration },
    /// The delay is over.
    Slept,
}

/// An [`Input`] with its texts as characters and its time in nanoseconds.
pub enum InputView {
    Started,
    Dialed(Result<(), ErrorView>),
    Cancelled,
    Request(OutgoingView),
    Written(Result<(), ErrorView>),
    Frame(FrameView),
    Failed(Seq<char>),
    Ended,
    HungUp { connected_for: nat },
    Slept,
}

impl View for Input {
    type V = InputView;

    open spec fn view(&self) -> InputView {
        match self {
            Input::Started => InputView::Started,
            Input::Dialed(Ok(_)) => InputView::Dialed(Ok(())),
            Input::Dialed(Err(e)) => InputView::Dialed(Err(e@)),
            Input::Cancelled => InputView::Cancelled,
            Input::Request(m) => InputView::Request(m@),
            Input::Written(r) => InputView::Written(outcome_view(*r)),
            Input::Frame(f) => InputView::Frame(f@),
            Input::Failed(t) => InputView::Failed(t@),
            Input::Ended => InputView::Ended,
            Input::HungUp { connected_for } => InputView::HungUp { connected_for: connected_for@ },
            Input::Slept => InputView::Slept,
        }
    }
}

/// What to do next.
#[derive(Clone, Copy, Debug, PartialEq, Eq, Structural)]
pub enum Action {
    /// Open a connection.
    Dial,
    /// Wait for the next thing to happen on the connection.
    Receive,
    /// Write the frame of the message to transmit.
    Transmit,
    /// Close the connection.
    HangUp,
    /// Wait before the next attempt.
    Sleep,
    /// Nothing more.
    Stop,
}

/// What to do next, and what to tell others first.
#[derive(Debug)]
pub struct Step {
    pub action: Action,
    /// What to tell the handler.
    pub deliver: Option<Message>,
    /// The message to transmit.
    pub transmit: Option<Outgoing>,
    /// What to answer whoever wanted to send the message that was written.
    pub answer: Option<Result<(), Error>>,
}

/// A [`Step`] with its texts as characters.
pub struct StepView {
    pub action: Action,
    pub deliver: Option<MessageView>,
    pub transmit: Option<OutgoingView>,
    pub answer: Option<Result<(), ErrorView>>,
}

impl View for Step {
    type V = StepView;

    open spec fn view(&self) -> StepView {
        StepView {
            action: self.action,
            deliver: match self.deliver {
                Some(m) => Some(m@),
                None => None,
            },
            transmit: match self.transmit {
                Some(m) => Some(m@),
                None => None,
            },
            answer: match self.answer {
                Some(r) => Some(outcome_view(r)),
                None => None,
            },
        }
    }
}

/// What the supervisor remembers.
#[derive(Debug)]
pub struct Supervisor {
    /// The stop signal. It latches: once given, it is never taken back.
    pub cancelled: bool,
    /// The last transient error.
    pub last_err: Option<Error>,
    /// The error that stopped the supervisor.
    pub fatal_err: Option<ServerError>,
    /// Whether further operations are refused.
    pub closed: bool,
    /// Whether a connection is open.
    pub ready: bool,
    /// Whether the supervisor has stopped.
    pub done: bool,
    /// The delay before the next attempt.
    pub backoff: Duration,
    pub phase: Phase,
}

/// A [`Supervisor`] with its texts as characters and its times in nanoseconds.
pub struct SupervisorView {
    pub cancelled: bool,
    pub last_err: Option<ErrorView>,
    pub fatal_err: Option<ServerErrorView>,
    pub closed: bool,
    pub ready: bool,
    pub done: bool,
    pub backoff: nat,
    pub phase: PhaseView,
}

impl View for Supervisor {
    type V = SupervisorView;

    open spec fn view(&self) -> SupervisorView {
        SupervisorView {
            cancelled: self.cancelled,
            last_err: match self.last_err {
                Some(e) => Some(e@),
                None => None,
            },
            fatal_err: match self.fatal_err {
                Some(e) => Some(e@),
                None => None,
            },
            closed: self.closed,
            ready: self.ready,
            done: self.done,
            backoff: self.backoff@,
            phase: self.phase@,
        }
    }
}

impl StepView {
    /// Nobody is told anything.
    pub open spec fn quiet(action: Action) -> Self {
        StepView { action, deliver: None, transmit: None, answer: None }
    }

    /// The handler is told something.
    pub open spec fn telling(action: Action, m: MessageView) -> Self {
        StepView { action, deliver: Some(m), transmit: None, answer: None }
    }
}

impl PhaseView {
    /// Whether a connection is open.
    pub open spec fn is_open(self) -> bool {
        self is Connected || self is Transmitting
    }
}

/// Whether `i` can happen in this phase.
pub open spec fn accepts(phase: PhaseView, i: InputView) -> bool {
    match phase {
        PhaseView::Idle => i is Started,
        PhaseView::Dialing => i is Dialed,
        PhaseView::Connected => i is Cancelled || i is Request || i is Frame || i is Failed
            || i is Ended,
        PhaseView::Transmitting => i is Written,
        PhaseView::Closing(_) => i is HungUp,
        PhaseView::Sleeping => i is Cancelled || i is Slept,
        PhaseView::Stopped => false,
    }
}

impl SupervisorView {
    /// The supervisor before it is started.
    pub open spec fn initial(cfg: ConfigView) -> Self {
        SupervisorView {
            cancelled: false,
            last_err: None,
            fatal_err: None,
            closed: false,
            ready: false,
            done: false,
            backoff: cfg.min_backoff,
            phase: PhaseView::Idle,
        }
    }

    /// What holds of every supervisor.
    ///
    /// It is ready exactly while a connection is open, and closed and done
    /// exactly once it has stopped. It stops only when it is cancelled or for a
    /// fatal error. No error is remembered that cannot be handed out again. The
    /// backoff stays between the two delays of the configuration.
    pub open spec fn inv(self, cfg: ConfigView) -> bool {
        &&& self.ready == self.phase.is_open()
        &&& self.closed == (self.phase is Stopped)
        &&& self.done == (self.phase is Stopped)
        &&& self.phase is Stopped ==> self.cancelled || self.fatal_err is Some
        &&& self.fatal_err matches Some(e) ==> self.phase is Stopped && e.is_fatal()
        &&& self.last_err matches Some(e) ==> e.kept() == e
        &&& self.phase matches PhaseView::Closing(outcome) ==> {
            &&& !(outcome is Fatal)
            &&& outcome is Stopped ==> self.cancelled
        }
        &&& self.backoff >= cfg.min_backoff || self.backoff >= cfg.max_backoff
        &&& self.backoff <= cfg.min_backoff || self.backoff <= cfg.max_backoff
    }

    /// Stopped for good: closed, done, and without a connection.
    pub open spec fn stopped(self) -> Self {
        SupervisorView {
            closed: true,
            ready: false,
            done: true,
            phase: PhaseView::Stopped,
            ..self
        }
    }

    /// The start of a cycle: an attempt to connect, unless cancelled.
    pub open spec fn begin(self) -> (Self, StepView) {
        if self.cancelled {
            (self.stopped(), StepView::quiet(Action::Stop))
        } else {
            (
                SupervisorView { phase: PhaseView::Dialing, ..self },
                StepView::quiet(Action::Dial),
            )
        }
    }

    /// The end of an open connection.
    pub open spec fn hang_up(self, outcome: OutcomeView) -> (Self, StepView) {
        (
            SupervisorView { ready: false, phase: PhaseView::Closing(outcome), ..self },
            StepView::quiet(Action::HangUp),
        )
    }

    /// The delay after a cycle. A connection that was open for longer than the
    /// threshold resets the backoff.
    pub open spec fn rest(self, cfg: ConfigView, connected_for: Option<nat>) -> Self {
        let healthy = connected_for matches Some(d) && d > HEALTHY_THRESHOLD_SECS * 1_000_000_000;
        SupervisorView {
            backoff: if healthy {
                cfg.min_backoff
            } else {
                self.backoff
            },
            phase: PhaseView::Sleeping,
            ..self
        }
    }

    /// What follows a cycle that ended like this.
    pub open spec fn settle(
        self,
        cfg: ConfigView,
        outcome: OutcomeView,
        connected_for: Option<nat>,
    ) -> (Self, StepView) {
        match outcome {
            OutcomeView::Fatal(e) => (
                SupervisorView { fatal_err: Some(e), ..self }.stopped(),
                StepView::telling(Action::Stop, MessageView::error(ErrorView::Server(e))),
            ),
            OutcomeView::Error(e) => (
                SupervisorView { last_err: Some(e.kept()), ..self }.rest(cfg, connected_for),
                StepView::telling(Action::Sleep, MessageView::error(e)),
            ),
            OutcomeView::Clean => (
                self.rest(cfg, connected_for),
                StepView::quiet(Action::Sleep),
            ),
            OutcomeView::Stopped => (self.stopped(), StepView::quiet(Action::Stop)),
        }
    }

    /// What an event on the open connection leads to.
    pub open spec fn receive(self, event: Option<EventView>) -> (Self, StepView) {
        match event {
            None => (self, StepView::quiet(Action::Receive)),
            Some(EventView::Message { from, data }) => (
                self,
                StepView::telling(Action::Receive, MessageView::incoming(from, data)),
            ),
            Some(EventView::ServerError(e)) => (
                self,
                StepView::telling(Action::Receive, MessageView::error(ErrorView::Server(e))),
            ),
            Some(EventView::Decode(e)) => (
                self,
                StepView::telling(Action::Receive, MessageView::error(e)),
            ),
            Some(EventView::Closed) => self.hang_up(OutcomeView::Clean),
            Some(EventView::ConnectionLost(e)) => self.hang_up(OutcomeView::Error(e)),
        }
    }

    /// What `i` leads to, in a phase that accepts it.
    ///
    /// Cancellation wins over everything else that happens on an open
    /// connection, but a message that is being written is finished first. What
    /// came of writing it is told to whoever wanted to send it, and changes
    /// nothing else.
    pub open spec fn next(self, cfg: ConfigView, i: InputView) -> (Self, StepView) {
        match i {
            InputView::Started => self.begin(),
            InputView::Dialed(Ok(_)) => (
                SupervisorView {
                    ready: true,
                    phase: PhaseView::Connected,
                    ..self
                },
                StepView::quiet(Action::Receive),
            ),
            InputView::Dialed(Err(e)) => self.settle(cfg, dial_outcome(e), None),
            InputView::Cancelled => {
                let s = SupervisorView { cancelled: true, ..self };
                if self.phase is Connected {
                    s.hang_up(OutcomeView::Stopped)
                } else {
                    (s.stopped(), StepView::quiet(Action::Stop))
                }
            },
            InputView::Request(m) => if self.cancelled {
                self.hang_up(OutcomeView::Stopped)
            } else {
                (
                    SupervisorView { phase: PhaseView::Transmitting, ..self },
                    StepView { transmit: Some(m), ..StepView::quiet(Action::Transmit) },
                )
            },
            InputView::Written(r) => (
                SupervisorView { phase: PhaseView::Connected, ..self },
                StepView { answer: Some(r), ..StepView::quiet(Action::Receive) },
            ),
            InputView::Frame(f) => if self.cancelled {
                self.hang_up(OutcomeView::Stopped)
            } else {
                self.receive(frame_event(f))
            },
            InputView::Failed(t) => if self.cancelled {
                self.hang_up(OutcomeView::Stopped)
            } else {
                self.hang_up(OutcomeView::Error(ErrorView::Transport(t)))
            },
            InputView::Ended => if self.cancelled {
                self.hang_up(OutcomeView::Stopped)
            } else {
                self.hang_up(OutcomeView::Clean)
            },
            InputView::HungUp { connected_for } => self.settle(
                cfg,
                self.phase->Closing_0,
                Some(connected_for),
            ),
            InputView::Slept => SupervisorView {
                backoff: next_backoff(self.backoff, cfg.max_backoff),
                ..self
            }.begin(),
        }
    }
}

/// Every input that can happen keeps what holds of every supervisor.
pub proof fn next_keeps_inv(cfg: ConfigView, s: SupervisorView, i: InputView)
    requires
        s.inv(cfg),
        accepts(s.phase, i),
    ensures
        s.next(cfg, i).0.inv(cfg),
{
}

/// The nanoseconds of an optional duration.
pub open spec fn opt_nanos(d: Option<Duration>) -> Option<nat> {
    match d {
        Some(d) => Some(d@),
        None => None,
    }
}

/// How a failure to connect ends the cycle: for good where the server rejects
/// the agent, with another attempt otherwise.
pub open spec fn dial_outcome(e: ErrorView) -> OutcomeView {
    match e {
        ErrorView::Server(s) => if s.is_fatal() {
            OutcomeView::Fatal(s)
        } else {
            OutcomeView::Error(e)
        },
        _ => OutcomeView::Error(e),
    }
}

/// How a failure to connect ends the cycle.
fn dial_failed(e: Error) -> (r: CycleOutcome)
    ensures
        r@ == dial_outcome(e@),
{
    match e {
        Error::Server(s) => {
            if s.is_fatal() {
                CycleOutcome::Fatal(s)
            } else {
                CycleOutcome::Error(Error::Server(s))
            }
        },
        other => CycleOutcome::Error(other),
    }
}

impl Step {
    fn quiet(action: Action) -> (r: Self)
        ensures
            r@ == StepView::quiet(action),
    {
        Step { action, deliver: None, transmit: None, answer: None }
    }

    fn telling(action: Action, m: Message) -> (r: Self)
        ensures
            r@ == StepView::telling(action, m@),
    {
        Step { action, deliver: Some(m), transmit: None, answer: None }
    }
}

impl Supervisor {
    /// A supervisor that is not started yet.
    pub fn new(cfg: &Config) -> (r: Self)
        ensures
            r@ == SupervisorView::initial(cfg@),
    {
        Supervisor {
            cancelled: false,
            last_err: None,
            fatal_err: None,
            closed: false,
            ready: false,
            done: false,
            backoff: cfg.min_backoff,
            phase: Phase::Idle,
        }
    }

    fn stop(self) -> (r: Self)
        ensures
            r@ == self@.stopped(),
    {
        Supervisor { closed: true, ready: false, done: true, phase: Phase::Stopped, ..self }
    }

    fn begin(self) -> (r: (Self, Step))
        ensures
            (r.0@, r.1@) == self@.begin(),
    {
        if self.cancelled {
            (self.stop(), Step::quiet(Action::Stop))
        } else {
            (Supervisor { phase: Phase::Dialing, ..self }, Step::quiet(Action::Dial))
        }
    }

    fn hang_up(self, outcome: CycleOutcome) -> (r: (Self, Step))
        ensures
            (r.0@, r.1@) == self@.hang_up(outcome@),
    {
        (
            Supervisor { ready: false, phase: Phase::Closing(outcome), ..self },
            Step::quiet(Action::HangUp),
        )
    }

    fn rest(self, cfg: &Config, connected_for: Option<Duration>) -> (r: Self)
        ensures
            r@ == self@.rest(cfg@, opt_nanos(connected_for)),
    {
        let healthy = match connected_for {
            Some(d) => d.exceeds(&Duration::from_secs(HEALTHY_THRESHOLD_SECS)),
            None => false,
        };
        let backoff = if healthy {
            cfg.min_backoff
        } else {
            self.backoff
        };
        Supervisor { backoff, phase: Phase::Sleeping, ..self }
    }

    fn settle(
        self,
        cfg: &Config,
        outcome: CycleOutcome,
        connected_for: Option<Duration>,
    ) -> (r: (Self, Step))
        ensures
            (r.0@, r.1@) == self@.settle(cfg@, outcome@, opt_nanos(connected_for)),
    {
        match outcome {
            CycleOutcome::Fatal(e) => {
                let message = Message::error(Error::Server(e.clone()));
                let s = Supervisor { fatal_err: Some(e), ..self };
                (s.stop(), Step::telling(Action::Stop, message))
            },
            CycleOutcome::Error(e) => {
                let s = Supervisor { last_err: Some(e.keep()), ..self };
                (s.rest(cfg, connected_for), Step::telling(Action::Sleep, Message::error(e)))
            },
            CycleOutcome::Clean => {
                (self.rest(cfg, connected_for), Step::quiet(Action::Sleep))
            },
            CycleOutcome::Stopped => (self.stop(), Step::quiet(Action::Stop)),
        }
    }

    fn receive(self, event: Option<Event>) -> (r: (Self, Step))
        ensures
            (r.0@, r.1@) == self@.receive(
                match event {
                    Some(e) => Some(e@),
                    None => None,
                },
            ),
    {
        match event {
            None => (self, Step::quiet(Action::Receive)),
            Some(Event::Message { from, data }) => {
                (self, Step::telling(Action::Receive, Message::incoming(from, data)))
            },
            Some(Event::ServerError(e)) => {
                (self, Step::telling(Action::Receive, Message::error(Error::Server(e))))
            },
            Some(Event::Decode(e)) => {
                (self, Step::telling(Action::Receive, Message::error(e)))
            },
            Some(Event::Closed) => self.hang_up(CycleOutcome::Clean),
            Some(Event::ConnectionLost(e)) => self.hang_up(CycleOutcome::Error(e)),
        }
    }

    /// Whether `input` can happen now.
    pub fn accepts(&self, input: &Input) -> (r: bool)
        ensures
            r == accepts(self@.phase, input@),
    {
        match (&self.phase, input) {
            (Phase::Idle, Input::Started) => true,
            (Phase::Dialing, Input::Dialed(_)) => true,
            (Phase::Connected, Input::Cancelled) => true,
            (Phase::Connected, Input::Request(_)) => true,
            (Phase::Connected, Input::Frame(_)) => true,
            (Phase::Connected, Input::Failed(_)) => true,
            (Phase::Connected, Input::Ended) => true,
            (Phase::Transmitting, Input::Written(_)) => true,
            (Phase::Closing(_), Input::HungUp { .. }) => true,
            (Phase::Sleeping, Input::Cancelled) => true,
            (Phase::Sleeping, Input::Slept) => true,
            _ => false,
        }
    }

    /// Takes in what happened and says what to do next.
    pub fn step(self, cfg: &Config, input: Input) -> (r: (Self, Step))
        requires
            accepts(self@.phase, input@),
            input is Slept ==> 2 * self.backoff@ <= MAX_NANOS,
        ensures
            (r.0@, r.1@) == self@.next(cfg@, input@),
    {
        match input {
            Input::Started => self.begin(),
            Input::Dialed(Ok(_)) => (
                Supervisor { ready: true, phase: Phase::Connected, ..self },
                Step::quiet(Action::Receive),
            ),
            Input::Dialed(Err(e)) => self.settle(cfg, dial_failed(e), None),
            Input::Cancelled => {
                let connected = matches!(self.phase, Phase::Connected);
                let s = Supervisor { cancelled: true, ..self };
                if connected {
                    s.hang_up(CycleOutcome::Stopped)
                } else {
                    (s.stop(), Step::quiet(Action::Stop))
                }
            },
            Input::Request(m) => {
                if self.cancelled {
                    self.hang_up(CycleOutcome::Stopped)
                } else {
                    (
                        Supervisor { phase: Phase::Transmitting, ..self },
                        Step { transmit: Some(m), ..Step::quiet(Action::Transmit) },
                    )
                }
            },
            Input::Written(r) => (
                Supervisor { phase: Phase::Connected, ..self },
                Step { answer: Some(r), ..Step::quiet(Action::Receive) },
            ),
            Input::Frame(f) => {
                if self.cancelled {
                    self.hang_up(CycleOutcome::Stopped)
                } else {
                    self.receive(decode_frame(f))
                }
            },
            Input::Failed(t) => {
                if self.cancelled {
                    self.hang_up(CycleOutcome::Stopped)
                } else {
                    self.hang_up(CycleOutcome::Error(Error::Transport(t)))
                }
            },
            Input::Ended => {
                if self.cancelled {
                    self.hang_up(CycleOutcome::Stopped)
                } else {
                    self.hang_up(CycleOutcome::Clean)
                }
            },
            Input::HungUp { connected_for } => {
                match self.phase {
                    Phase::Closing(outcome) => {
                        let s = Supervisor { phase: Phase::Sleeping, ..self };
                        s.settle(cfg, outcome, Some(connected_for))
                    },
                    // Only a connection that is being closed hangs up.
                    _ => self.begin(),
                }
            },
            Input::Slept => {
                let backoff = grown(self.backoff, cfg.max_backoff);
                Supervisor { backoff, ..self }.begin()
            },
        }
    }
}

} // verus!
