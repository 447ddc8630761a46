//! What one event does to a connection or to a message that is being sent, said
//! of every state that it can happen in, whatever else that state remembers.

use crate::agent::{AgentView, SendEventView, SendStepView};
use crate::config::ConfigView;
use crate::dial::{dial_error, DialFailure};
use crate::errors::{ErrorView, ServerErrorView};
use crate::json::null_value;
use crate::message::MessageView;
use crate::supervisor::{
    accepts, Action, InputView, OutcomeView, PhaseView, StepView, SupervisorView,
};
use crate::ws::{frame_event, EventView, FrameView, OutgoingView};
use vstd::prelude::*;

verus! {

/// What the handler is told of an error.
pub open spec fn error_event(e: ErrorView) -> MessageView {
    MessageView { from: Seq::empty(), data: null_value(), err: Some(e) }
}

/// A step that tells nobody anything.
pub open spec fn silent(action: Action) -> StepView {
    StepView { action, deliver: None, transmit: None, answer: None }
}

/// A step that tells the handler `m`.
pub open spec fn telling(action: Action, m: MessageView) -> StepView {
    StepView { action, deliver: Some(m), transmit: None, answer: None }
}

/// `s`, stopped for good.
pub open spec fn over(s: SupervisorView) -> SupervisorView {
    SupervisorView { closed: true, ready: false, done: true, phase: PhaseView::Stopped, ..s }
}

/// `s`, with its connection being closed after this outcome.
pub open spec fn closing(s: SupervisorView, outcome: OutcomeView) -> SupervisorView {
    SupervisorView { ready: false, phase: PhaseView::Closing(outcome), ..s }
}

/// The statuses with which a server turns an agent away for good.
pub open spec fn is_final_status(status: u16) -> bool {
    status == 401 || status == 403 || status == 404
}

/// Which inputs a supervisor takes in each phase.
pub proof fn inputs_by_phase(i: InputView, outcome: OutcomeView)
    ensures
        accepts(PhaseView::Idle, i) <==> i is Started,
        accepts(PhaseView::Dialing, i) <==> i is Dialed,
        accepts(PhaseView::Connected, i) <==> (i is Cancelled || i is Request || i is Frame
            || i is Failed || i is Ended),
        accepts(PhaseView::Transmitting, i) <==> i is Written,
        accepts(PhaseView::Closing(outcome), i) <==> i is HungUp,
        accepts(PhaseView::Sleeping, i) <==> (i is Cancelled || i is Slept),
        !accepts(PhaseView::Stopped, i),
{
}

/// A connection is open while it is idle or written to, and in no other phase.
pub proof fn open_phases(outcome: OutcomeView)
    ensures
        PhaseView::Connected.is_open(),
        PhaseView::Transmitting.is_open(),
        !PhaseView::Idle.is_open(),
        !PhaseView::Dialing.is_open(),
        !PhaseView::Closing(outcome).is_open(),
        !PhaseView::Sleeping.is_open(),
        !PhaseView::Stopped.is_open(),
{
}

/// A new supervisor knows of no error and waits to be started, with the initial
/// delay ahead of it.
pub proof fn a_new_supervisor(cfg: ConfigView)
    ensures
        ({
            let s = SupervisorView::initial(cfg);
            &&& s.phase is Idle
            &&& s.backoff == cfg.min_backoff
            &&& s.last_err is None && s.fatal_err is None
            &&& !s.cancelled && !s.closed && !s.ready && !s.done
        }),
{
}

/// Starting dials, unless the agent was closed before.
pub proof fn starting(cfg: ConfigView, s: SupervisorView)
    ensures
        s.next(cfg, InputView::Started) == if s.cancelled {
            (over(s), silent(Action::Stop))
        } else {
            (SupervisorView { phase: PhaseView::Dialing, ..s }, silent(Action::Dial))
        },
{
}

/// A connection that opens makes the agent ready and changes nothing else.
pub proof fn connecting(cfg: ConfigView, s: SupervisorView)
    ensures
        s.next(cfg, InputView::Dialed(Ok(()))) == (
            SupervisorView { ready: true, phase: PhaseView::Connected, ..s },
            silent(Action::Receive),
        ),
{
}

/// A server error with status 401, 403 or 404 stops the agent, with that error
/// as the handler's last event.
pub proof fn being_turned_away(cfg: ConfigView, s: SupervisorView, e: ServerErrorView)
    requires
        is_final_status(e.status),
    ensures
        s.next(cfg, InputView::Dialed(Err(ErrorView::Server(e)))) == (
            over(SupervisorView { fatal_err: Some(e), ..s }),
            telling(Action::Stop, error_event(ErrorView::Server(e))),
        ),
{
}

/// Any other failure to connect is told to the handler as it is, remembered,
/// and followed by a delay of the backoff as it was.
pub proof fn failing_to_connect(cfg: ConfigView, s: SupervisorView, e: ErrorView)
    requires
        e is Server ==> !is_final_status(e->Server_0.status),
    ensures
        ({
            let (t, step) = s.next(cfg, InputView::Dialed(Err(e)));
            &&& step == telling(Action::Sleep, error_event(e))
            &&& t.last_err == Some(e.kept())
            &&& t == (SupervisorView { last_err: t.last_err, phase: PhaseView::Sleeping, ..s })
        }),
{
}

/// Whatever HTTP status answers a handshake, with whatever body, the agent
/// stops exactly for 401, 403 and 404, and dials again after a delay otherwise.
pub proof fn answered_handshakes(cfg: ConfigView, s: SupervisorView, failure: DialFailure)
    requires
        s.phase is Dialing,
        !s.cancelled,
        failure is Http,
    ensures
        ({
            let e = dial_error(failure);
            let (t, step) = s.next(cfg, InputView::Dialed(Err(e)));
            &&& e is Server && e->Server_0.status == failure->status
            &&& step.deliver == Some(error_event(e))
            &&& if is_final_status(failure->status) {
                step.action == Action::Stop && t.done && t.closed && t.phase is Stopped
                    && t.fatal_err == Some(e->Server_0)
            } else {
                &&& step.action == Action::Sleep && !(t.phase is Stopped) && t.done == s.done
                &&& t.next(cfg, InputView::Slept).1.action == Action::Dial
            }
        }),
{
}

/// A failure without an HTTP answer never stops the agent.
pub proof fn unanswered_handshakes(cfg: ConfigView, s: SupervisorView, message: String)
    ensures
        ({
            let (t, step) = s.next(
                cfg,
                InputView::Dialed(Err(dial_error(DialFailure::Other(message)))),
            );
            &&& step == telling(Action::Sleep, error_event(ErrorView::Transport(message@)))
            &&& t.phase is Sleeping
        }),
{
}

/// A stop signal on an open connection closes it for good; one during a delay
/// ends the agent at once. Either is remembered.
pub proof fn cancelling(cfg: ConfigView, s: SupervisorView)
    ensures
        s.phase is Connected ==> s.next(cfg, InputView::Cancelled) == (
            closing(SupervisorView { cancelled: true, ..s }, OutcomeView::Stopped),
            silent(Action::HangUp),
        ),
        s.phase is Sleeping ==> s.next(cfg, InputView::Cancelled) == (
            over(SupervisorView { cancelled: true, ..s }),
            silent(Action::Stop),
        ),
{
}

/// On a connection of a closed agent nothing is sent, read or reported any
/// more: whatever happens next hangs up.
pub proof fn closed_agents_only_hang_up(cfg: ConfigView, s: SupervisorView, i: InputView)
    requires
        s.cancelled,
        i is Request || i is Frame || i is Failed || i is Ended,
    ensures
        s.next(cfg, i) == (closing(s, OutcomeView::Stopped), silent(Action::HangUp)),
{
}

/// A message to send is handed on as it is, and nothing else changes.
pub proof fn requesting(cfg: ConfigView, s: SupervisorView, m: OutgoingView)
    requires
        !s.cancelled,
    ensures
        s.next(cfg, InputView::Request(m)) == (
            SupervisorView { phase: PhaseView::Transmitting, ..s },
            StepView {
                action: Action::Transmit,
                deliver: None,
                transmit: Some(m),
                answer: None,
            },
        ),
{
}

/// What came of a write is handed on as it is, and the connection is read on.
pub proof fn writing(cfg: ConfigView, s: SupervisorView, r: Result<(), ErrorView>)
    ensures
        s.next(cfg, InputView::Written(r)) == (
            SupervisorView { phase: PhaseView::Connected, ..s },
            StepView { action: Action::Receive, deliver: None, transmit: None, answer: Some(r) },
        ),
{
}

/// A frame that carries a message, a server error or nothing readable is told
/// to the handler, and one that says nothing is not; the connection goes on as
/// it was.
pub proof fn receiving(cfg: ConfigView, s: SupervisorView, f: FrameView)
    requires
        !s.cancelled,
    ensures
        ({
            let (t, step) = s.next(cfg, InputView::Frame(f));
            match frame_event(f) {
                Some(EventView::Message { from, data }) => t == s && step == telling(
                    Action::Receive,
                    MessageView { from, data, err: None },
                ),
                Some(EventView::ServerError(e)) => t == s && step == telling(
                    Action::Receive,
                    error_event(ErrorView::Server(e)),
                ),
                Some(EventView::Decode(e)) => t == s && step == telling(
                    Action::Receive,
                    error_event(e),
                ),
                None => t == s && step == silent(Action::Receive),
                Some(EventView::Closed) => t == closing(s, OutcomeView::Clean) && step == silent(
                    Action::HangUp,
                ),
                Some(EventView::ConnectionLost(e)) => t == closing(s, OutcomeView::Error(e))
                    && step == silent(Action::HangUp),
            }
        }),
{
}

/// A read failure ends the connection with a transport error of its text, and
/// the end of the stream ends it cleanly.
pub proof fn reading_ends(cfg: ConfigView, s: SupervisorView, text: Seq<char>)
    requires
        !s.cancelled,
    ensures
        s.next(cfg, InputView::Failed(text)) == (
            closing(s, OutcomeView::Error(ErrorView::Transport(text))),
            silent(Action::HangUp),
        ),
        s.next(cfg, InputView::Ended) == (closing(s, OutcomeView::Clean), silent(Action::HangUp)),
{
}

/// The backoff after a connection that was open for `connected_for`
/// nanoseconds: more than thirty seconds reset it.
pub open spec fn backoff_after_connection(
    cfg: ConfigView,
    backoff: nat,
    connected_for: nat,
) -> nat {
    if connected_for > 30_000_000_000 {
        cfg.min_backoff
    } else {
        backoff
    }
}

/// A connection that ended with an error is reported with exactly that error
/// once it is closed, and one that ended cleanly is not; a delay follows. One
/// that the agent gave up stops it.
pub proof fn hanging_up(cfg: ConfigView, s: SupervisorView, connected_for: nat)
    requires
        s.phase is Closing,
        !(s.phase->Closing_0 is Fatal),
    ensures
        ({
            let (t, step) = s.next(cfg, InputView::HungUp { connected_for });
            let asleep = SupervisorView {
                backoff: backoff_after_connection(cfg, s.backoff, connected_for),
                phase: PhaseView::Sleeping,
                ..s
            };
            match s.phase->Closing_0 {
                OutcomeView::Error(e) => {
                    &&& step == telling(Action::Sleep, error_event(e))
                    &&& t.last_err == Some(e.kept())
                    &&& t == (SupervisorView { last_err: t.last_err, ..asleep })
                },
                OutcomeView::Clean => t == asleep && step == silent(Action::Sleep),
                OutcomeView::Stopped => t == over(s) && step == silent(Action::Stop),
                OutcomeView::Fatal(_) => true,
            }
        }),
{
}

/// A delay that is over doubles the backoff up to the cap, and dials, unless the
/// agent was closed.
pub proof fn waking(cfg: ConfigView, s: SupervisorView)
    ensures
        ({
            let (t, step) = s.next(cfg, InputView::Slept);
            let grown = if 2 * s.backoff <= cfg.max_backoff {
                2 * s.backoff
            } else {
                cfg.max_backoff
            };
            let rested = SupervisorView { backoff: grown, ..s };
            if s.cancelled {
                t == over(rested) && step == silent(Action::Stop)
            } else {
                &&& t == (SupervisorView { phase: PhaseView::Dialing, ..rested })
                &&& step == silent(Action::Dial)
            }
        }),
{
}

/// Whatever the supervisor remembers, every read failure is told to the
/// handler: the connection is hung up, and then the handler gets exactly that
/// failure, a delay follows, and another attempt.
pub proof fn every_read_failure_is_reported(
    cfg: ConfigView,
    s: SupervisorView,
    text: Seq<char>,
    connected_for: nat,
)
    requires
        s.phase is Connected,
        !s.cancelled,
    ensures
        ({
            let (hung, first) = s.next(cfg, InputView::Failed(text));
            let (asleep, second) = hung.next(cfg, InputView::HungUp { connected_for });
            let (again, third) = asleep.next(cfg, InputView::Slept);
            &&& first == silent(Action::HangUp)
            &&& accepts(hung.phase, InputView::HungUp { connected_for })
            &&& second == telling(Action::Sleep, error_event(ErrorView::Transport(text)))
            &&& asleep.last_err == Some(ErrorView::Transport(text))
            &&& accepts(asleep.phase, InputView::Slept)
            &&& third == silent(Action::Dial)
            &&& again.phase is Dialing
        }),
{
}

/// Whatever the supervisor remembers, every frame that closes the connection
/// abnormally is told to the handler, every clean close is not, and either is
/// followed by a delay and another attempt.
pub proof fn every_close_is_followed_by_another_attempt(
    cfg: ConfigView,
    s: SupervisorView,
    f: FrameView,
    connected_for: nat,
)
    requires
        s.phase is Connected,
        !s.cancelled,
        frame_event(f) is Some,
        frame_event(f)->0 is Closed || frame_event(f)->0 is ConnectionLost,
    ensures
        ({
            let (hung, first) = s.next(cfg, InputView::Frame(f));
            let (asleep, second) = hung.next(cfg, InputView::HungUp { connected_for });
            let (again, third) = asleep.next(cfg, InputView::Slept);
            &&& first == silent(Action::HangUp)
            &&& second == match frame_event(f) {
                Some(EventView::ConnectionLost(e)) => telling(Action::Sleep, error_event(e)),
                _ => silent(Action::Sleep),
            }
            &&& third == silent(Action::Dial)
            &&& again.phase is Dialing
        }),
{
}

/// What an agent says of errors: none while ready, the fatal one once there is
/// one, and the remembered one otherwise.
pub proof fn saying_what_went_wrong(a: AgentView)
    ensures
        a.supervisor.ready ==> a.err() is None,
        !a.supervisor.ready && a.supervisor.fatal_err is Some ==> a.err() == Some(
            ErrorView::Server(a.supervisor.fatal_err->0),
        ),
        !a.supervisor.ready && a.supervisor.fatal_err is None ==> a.err() == a.supervisor.last_err,
{
}

/// An agent takes what its phase takes, but for a delay after which the doubled
/// backoff would exceed the longest span of time.
pub proof fn taking_inputs(a: AgentView, i: InputView)
    ensures
        a.can_step(i) <==> accepts(a.supervisor.phase, i) && (i is Slept ==> 2
            * a.supervisor.backoff <= 18_446_744_073_709_551_615_999_999_999),
{
}

/// What refuses a message: the error that stopped the agent, or that the agent
/// is closed.
pub open spec fn refused(a: AgentView) -> SendStepView {
    SendStepView::Finish(
        Err(
            match a.supervisor.fatal_err {
                Some(e) => ErrorView::Server(e),
                None => ErrorView::Closed,
            },
        ),
    )
}

/// A message that is to be sent is queued as it is on a ready agent, refused by
/// one that is done, and waits otherwise.
pub proof fn queueing(a: AgentView, m: OutgoingView, event: SendEventView)
    requires
        match event {
            SendEventView::Begin | SendEventView::Changed => true,
            SendEventView::Replied(Err(e)) => e is Transport,
            _ => false,
        },
    ensures
        a.supervisor.ready ==> a.send(m, event) == SendStepView::Enqueue(m),
        !a.supervisor.ready && a.supervisor.done ==> a.send(m, event) == refused(a),
        !a.supervisor.ready && !a.supervisor.done ==> a.send(m, event) is Wait,
{
}

/// Sending ends with the answer of the connection, unless that is a transport
/// error, and with a refusal where there will be no answer.
pub proof fn finishing(a: AgentView, m: OutgoingView, e: ErrorView)
    requires
        !(e is Transport),
    ensures
        a.send(m, SendEventView::Replied(Ok(()))) == SendStepView::Finish(Ok(())),
        a.send(m, SendEventView::Replied(Err(e))) == SendStepView::Finish(Err(e)),
        a.send(m, SendEventView::WatchLost) == refused(a),
        a.send(m, SendEventView::QueueLost) == refused(a),
        a.send(m, SendEventView::ReplyLost) == refused(a),
{
}

/// An event for the handler has the sender and payload it arrived with, or the
/// error it reports and nothing else. Only one with a sender and no error can
/// be replied to.
pub proof fn handler_events(from: Seq<char>, data: serde_json::Value, e: ErrorView, m: MessageView)
    ensures
        MessageView::incoming(from, data) == (MessageView { from, data, err: None }),
        MessageView::error(e) == error_event(e),
        m.can_reply() <==> m.err is None && m.from.len() > 0,
{
}

} // verus!
