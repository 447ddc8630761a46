//! Agent: the long-lived state behind one Agent Socket connection.
//!
//! Owns the supervisor of the connection and answers for it: what it is
//! connected as, whether it is up, what went wrong, and whether a message can
//! be sent now.

use crate::backoff::{is_jitter, jittered, sleep_duration};
use crate::config::{Config, ConfigView};
use crate::dial::{
    bearer, dial_request, dial_url_text, handshake_target, is_authorized, is_header_text,
    request_headers, request_method, request_uri,
};
use crate::duration::{Duration, MAX_NANOS};
use crate::errors::{outcome_view, Error, ErrorView};
use crate::supervisor::{
    accepts, next_keeps_inv, Input, InputView, Phase, Step, Supervisor, SupervisorView,
};
use crate::ws::{Outgoing, OutgoingView};
use http::Request as HttpRequest;
use vstd::prelude::*;
use vstd::string::*;

verus! {

/// An Agent Socket connection, open or not.
#[derive(Debug)]
pub struct Agent {
    token: String,
    socket_id: String,
    cfg: Config,
    supervisor: Supervisor,
}

/// An [`Agent`] with its texts as characters and its times in nanoseconds.
pub struct AgentView {
    pub token: Seq<char>,
    pub socket_id: Seq<char>,
    pub cfg: ConfigView,
    pub supervisor: SupervisorView,
}

impl View for Agent {
    type V = AgentView;

    closed spec fn view(&self) -> AgentView {
        AgentView {
            token: self.token@,
            socket_id: self.socket_id@,
            cfg: self.cfg@,
            supervisor: self.supervisor@,
        }
    }
}

impl AgentView {
    /// The most recent error: the one that stopped the agent, else the last
    /// transient one. There is none while a connection is open.
    pub open spec fn err(self) -> Option<ErrorView> {
        if self.supervisor.ready {
            None
        } else {
            match self.supervisor.fatal_err {
                Some(e) => Some(ErrorView::Server(e)),
                None => self.supervisor.last_err,
            }
        }
    }

    /// What a request is refused with.
    pub open spec fn refusal(self) -> ErrorView {
        match self.supervisor.fatal_err {
            Some(e) => ErrorView::Server(e),
            None => ErrorView::Closed,
        }
    }

    /// What holds of every agent: see [`SupervisorView::inv`].
    pub open spec fn inv(self) -> bool {
        self.supervisor.inv(self.cfg)
    }

    /// Whether `i` can happen now and its outcome can be counted.
    pub open spec fn can_step(self, i: InputView) -> bool {
        &&& accepts(self.supervisor.phase, i)
        &&& i is Slept ==> 2 * self.supervisor.backoff <= MAX_NANOS
    }
}

/// Open an Agent Socket connection: an agent that is not started yet.
pub fn connect(token: String, socket_id: String, cfg: Config) -> (r: Agent)
    ensures
        r@ == (AgentView {
            token: token@,
            socket_id: socket_id@,
            cfg: cfg@,
            supervisor: SupervisorView::initial(cfg@),
        }),
        r@.inv(),
{
    let supervisor = Supervisor::new(&cfg);
    Agent { token, socket_id, cfg, supervisor }
}

impl Agent {
    #[verifier::type_invariant]
    spec fn supervised(self) -> bool {
        self.supervisor@.inv(self.cfg@)
    }

    /// The socket address this agent is connected as.
    pub fn socket_id(&self) -> (r: &str)
        ensures
            r@ == self@.socket_id,
    {
        self.socket_id.as_str()
    }

    /// The most recent error. `None` during a healthy connection.
    pub fn err(&self) -> (r: Option<Error>)
        ensures
            match r {
                Some(e) => self@.err() == Some(e@),
                None => self@.err() is None,
            },
            self@.supervisor.ready ==> r is None,
    {
        proof {
            use_type_invariant(self);
        }
        if self.supervisor.ready {
            return None;
        }
        match &self.supervisor.fatal_err {
            Some(e) => Some(Error::Server(e.clone())),
            None => match &self.supervisor.last_err {
                Some(e) => Some(e.keep()),
                None => None,
            },
        }
    }

    /// `true` if the supervisor has stopped.
    pub fn is_done(&self) -> (r: bool)
        ensures
            r == self@.supervisor.done,
            r == (self@.supervisor.phase is Stopped),
    {
        proof {
            use_type_invariant(self);
        }
        self.supervisor.done
    }

    /// `true` while a connection is open.
    pub fn is_ready(&self) -> (r: bool)
        ensures
            r == self@.supervisor.ready,
            r == self@.supervisor.phase.is_open(),
    {
        proof {
            use_type_invariant(self);
        }
        self.supervisor.ready
    }

    /// Gives the stop signal, which is never taken back. Closing an agent again
    /// changes nothing.
    pub fn close(&mut self)
        ensures
            final(self)@ == (AgentView {
                supervisor: SupervisorView { cancelled: true, ..old(self)@.supervisor },
                ..old(self)@
            }),
            final(self)@.inv(),
    {
        proof {
            use_type_invariant(&*self);
        }
        self.supervisor.cancelled = true;
    }

    /// The request that opens the connection of this agent.
    pub fn dial_request(&self) -> (r: Result<HttpRequest<()>, Error>)
        ensures
            match handshake_target(dial_url_text(self@.cfg.endpoint, self@.socket_id)) {
                Err(message) => r matches Err(e) && e@ == ErrorView::Transport(
                    "build request: "@ + message,
                ),
                Ok((uri, host)) => if is_header_text(bearer(self@.token)) {
                    &&& r matches Ok(out)
                    &&& request_method(out) == "GET"@
                    &&& request_uri(out) == uri
                    &&& is_authorized(request_headers(out), host, self@.token)
                } else {
                    &&& r matches Err(e)
                    &&& e@ == ErrorView::Transport("invalid token: failed to parse header value"@)
                },
            },
    {
        dial_request(self.cfg.endpoint.as_str(), self.token.as_str(), self.socket_id.as_str())
    }

    /// How long to wait before the next attempt: the backoff and a jitter of it,
    /// at most the configured maximum. `None` where that is too long to count,
    /// which it never is unless the initial delay exceeds the maximum.
    pub fn sleep_duration(&self) -> (r: Option<Duration>)
        ensures
            match r {
                Some(d) => exists|millis: nat| #[trigger]
                    is_jitter(self@.supervisor.backoff, millis) && d@ == jittered(
                        self@.supervisor.backoff,
                        millis,
                        self@.cfg.max_backoff,
                    ),
                None => exists|millis: nat| #[trigger]
                    is_jitter(self@.supervisor.backoff, millis) && jittered(
                        self@.supervisor.backoff,
                        millis,
                        self@.cfg.max_backoff,
                    ) > MAX_NANOS,
            },
            self@.cfg.min_backoff <= self@.cfg.max_backoff ==> (r matches Some(d) && d@
                <= self@.cfg.max_backoff),
    {
        proof {
            use_type_invariant(self);
        }
        sleep_duration(self.supervisor.backoff, self.cfg.max_backoff)
    }

    /// Takes in what happened to the connection and says what to do next.
    /// `None`, with nothing changed, for an input that cannot happen now or
    /// that makes the backoff too long to count.
    pub fn step(&mut self, input: Input) -> (r: Option<Step>)
        ensures
            match r {
                Some(step) => {
                    &&& old(self)@.can_step(input@)
                    &&& (final(self)@.supervisor, step@) == old(self)@.supervisor.next(
                        old(self)@.cfg,
                        input@,
                    )
                },
                None => !old(self)@.can_step(input@) && final(self)@ == old(self)@,
            },
            final(self)@.token == old(self)@.token,
            final(self)@.socket_id == old(self)@.socket_id,
            final(self)@.cfg == old(self)@.cfg,
            final(self)@.inv(),
    {
        proof {
            use_type_invariant(&*self);
        }
        if !self.supervisor.accepts(&input) {
            return None;
        }
        if matches!(input, Input::Slept) {
            if self.supervisor.backoff.checked_sum(self.supervisor.backoff).is_none() {
                return None;
            }
        }
        let mut supervisor = Supervisor {
            cancelled: true,
            last_err: None,
            fatal_err: None,
            closed: true,
            ready: false,
            done: true,
            backoff: self.cfg.min_backoff,
            phase: Phase::Stopped,
        };
        std::mem::swap(&mut self.supervisor, &mut supervisor);
        proof {
            next_keeps_inv(self.cfg@, supervisor@, input@);
        }
        let (next, step) = supervisor.step(&self.cfg, input);
        self.supervisor = next;
        Some(step)
    }
}

/// What happened to a message that is being sent.
#[derive(Debug)]
pub enum SendEvent {
    /// Sending begins.
    Begin,
    /// The agent became ready, or no longer is, or stopped.
    Changed,
    /// The state of the agent can no longer be watched.
    WatchLost,
    /// The queue of outgoing messages is gone.
    QueueLost,
    /// The message was handed to the connection, with this outcome.
    Replied(Result<(), Error>),
    /// The outcome will never be known.
    ReplyLost,
}

/// A [`SendEvent`] with its texts as characters.
pub enum SendEventView {
    Begin,
    Changed,
    WatchLost,
    QueueLost,
    Replied(Result<(), ErrorView>),
    ReplyLost,
}

impl View for SendEvent {
    type V = SendEventView;

    open spec fn view(&self) -> SendEventView {
        match self {
            SendEvent::Begin => SendEventView::Begin,
            SendEvent::Changed => SendEventView::Changed,
            SendEvent::WatchLost => SendEventView::WatchLost,
            SendEvent::QueueLost => SendEventView::QueueLost,
            SendEvent::Replied(r) => SendEventView::Replied(outcome_view(*r)),
            SendEvent::ReplyLost => SendEventView::ReplyLost,
        }
    }
}

/// What to do with a message that is being sent.
#[derive(Debug)]
pub enum SendStep {
    /// Wait until the agent becomes ready or stops.
    Wait,
    /// Queue this message for the open connection.
    Enqueue(Outgoing),
    /// Nothing more: sending ended like this.
    Finish(Result<(), Error>),
}

/// A [`SendStep`] with its texts as characters.
pub enum SendStepView {
    Wait,
    Enqueue(OutgoingView),
    Finish(Result<(), ErrorView>),
}

impl View for SendStep {
    type V = SendStepView;

    open spec fn view(&self) -> SendStepView {
        match self {
            SendStep::Wait => SendStepView::Wait,
            SendStep::Enqueue(m) => SendStepView::Enqueue(m@),
            SendStep::Finish(r) => SendStepView::Finish(outcome_view(*r)),
        }
    }
}

impl AgentView {
    /// A message waits for a connection, unless the agent stopped.
    pub open spec fn queue(self, message: OutgoingView) -> SendStepView {
        if self.supervisor.ready {
            SendStepView::Enqueue(message)
        } else if self.supervisor.done {
            SendStepView::Finish(Err(self.refusal()))
        } else {
            SendStepView::Wait
        }
    }

    /// What `event` leads to for a message that is being sent. A message that
    /// the connection dropped is sent again.
    pub open spec fn send(self, message: OutgoingView, event: SendEventView) -> SendStepView {
        match event {
            SendEventView::Begin | SendEventView::Changed => self.queue(message),
            SendEventView::Replied(Ok(_)) => SendStepView::Finish(Ok(())),
            SendEventView::Replied(Err(ErrorView::Transport(_))) => self.queue(message),
            SendEventView::Replied(Err(e)) => SendStepView::Finish(Err(e)),
            SendEventView::WatchLost | SendEventView::QueueLost
            | SendEventView::ReplyLost => SendStepView::Finish(Err(self.refusal())),
        }
    }
}

impl Agent {
    fn refusal(&self) -> (r: Error)
        ensures
            r@ == self@.refusal(),
    {
        match &self.supervisor.fatal_err {
            Some(e) => Error::Server(e.clone()),
            None => Error::Closed,
        }
    }

    fn queue(&self, message: &Outgoing) -> (r: SendStep)
        ensures
            r@ == self@.queue(message@),
    {
        if self.supervisor.ready {
            SendStep::Enqueue(message.clone())
        } else if self.supervisor.done {
            SendStep::Finish(Err(self.refusal()))
        } else {
            SendStep::Wait
        }
    }

    /// Decides what happens next to `message`, which is being sent.
    ///
    /// Awaits a live connection (or re-establishment after a drop). Ends with
    /// [`Error::Closed`] if the agent is closed, or the underlying server error
    /// on fatal errors.
    pub fn send(&self, message: &Outgoing, event: SendEvent) -> (r: SendStep)
        ensures
            r@ == self@.send(message@, event@),
    {
        match event {
            SendEvent::Begin | SendEvent::Changed => self.queue(message),
            SendEvent::Replied(Ok(_)) => SendStep::Finish(Ok(())),
            SendEvent::Replied(Err(Error::Transport(_))) => self.queue(message),
            SendEvent::Replied(Err(e)) => SendStep::Finish(Err(e)),
            SendEvent::WatchLost | SendEvent::QueueLost | SendEvent::ReplyLost => {
                SendStep::Finish(Err(self.refusal()))
            },
        }
    }
}

} // verus!
