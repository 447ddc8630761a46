//! What holds of the library as a whole: of every run of a supervisor, of every
//! message that is sent, and of every text that is built.

use crate::agent::{AgentView, SendEventView, SendStepView};
use crate::api::socket_path;
use crate::backoff::{is_jitter, jittered, next_backoff};
use crate::config::ConfigView;
use crate::dial::dial_url_text;
use crate::errors::{ErrorView, ServerErrorView};
use crate::message::MessageView;
use crate::step_laws::{error_event, is_final_status};
use crate::supervisor::{
    accepts, next_keeps_inv, Action, InputView, OutcomeView, PhaseView,
    SupervisorView, HEALTHY_THRESHOLD_SECS,
};
use crate::text::{escape_percent, trim_end_of};
use crate::ws::{
    close_event, frame_event, is_outgoing, parsed_event, CloseFrameView, EventView, FrameView,
    OutgoingView,
};
use serde_json::Value;
use vstd::arithmetic::power2::{lemma_pow2_unfold, pow2};
use vstd::prelude::*;

verus! {

/// Something that happens to a supervisor: the agent is closed, or one of its
/// inputs arrives.
pub enum Happening {
    Close,
    Input(InputView),
}

/// Whether `h` can happen now. An agent can always be closed.
pub open spec fn possible(s: SupervisorView, h: Happening) -> bool {
    match h {
        Happening::Close => true,
        Happening::Input(i) => accepts(s.phase, i),
    }
}

/// The supervisor after `h`.
pub open spec fn after(cfg: ConfigView, s: SupervisorView, h: Happening) -> SupervisorView {
    match h {
        Happening::Close => SupervisorView { cancelled: true, ..s },
        Happening::Input(i) => s.next(cfg, i).0,
    }
}

/// What the handler is told on `h`.
pub open spec fn told(cfg: ConfigView, s: SupervisorView, h: Happening) -> Seq<MessageView> {
    match h {
        Happening::Close => seq![],
        Happening::Input(i) => match s.next(cfg, i).1.deliver {
            Some(m) => seq![m],
            None => seq![],
        },
    }
}

/// Whether `h` makes the supervisor dial.
pub open spec fn dials(cfg: ConfigView, s: SupervisorView, h: Happening) -> bool {
    h matches Happening::Input(i) && s.next(cfg, i).1.action == Action::Dial
}

/// Whether all of `hs` can happen one after the other.
pub open spec fn can_run(cfg: ConfigView, s: SupervisorView, hs: Seq<Happening>) -> bool
    decreases hs.len(),
{
    hs.len() > 0 ==> {
        &&& can_run(cfg, s, hs.drop_last())
        &&& possible(run(cfg, s, hs.drop_last()), hs.last())
    }
}

/// The supervisor after all of `hs`.
pub open spec fn run(cfg: ConfigView, s: SupervisorView, hs: Seq<Happening>) -> SupervisorView
    decreases hs.len(),
{
    if hs.len() == 0 {
        s
    } else {
        after(cfg, run(cfg, s, hs.drop_last()), hs.last())
    }
}

/// All that the handler is told on the way, in order.
pub open spec fn delivered(
    cfg: ConfigView,
    s: SupervisorView,
    hs: Seq<Happening>,
) -> Seq<MessageView>
    decreases hs.len(),
{
    if hs.len() == 0 {
        seq![]
    } else {
        delivered(cfg, s, hs.drop_last()) + told(cfg, run(cfg, s, hs.drop_last()), hs.last())
    }
}

/// Whatever happens, what holds of every supervisor keeps holding: it is ready
/// exactly while connected, done and closed exactly once stopped, and its
/// backoff stays within bounds.
pub proof fn every_run_keeps_inv(cfg: ConfigView, hs: Seq<Happening>)
    requires
        can_run(cfg, SupervisorView::initial(cfg), hs),
    ensures
        run(cfg, SupervisorView::initial(cfg), hs).inv(cfg),
    decreases hs.len(),
{
    if hs.len() > 0 {
        every_run_keeps_inv(cfg, hs.drop_last());
        let s = run(cfg, SupervisorView::initial(cfg), hs.drop_last());
        if let Happening::Input(i) = hs.last() {
            next_keeps_inv(cfg, s, i);
        }
    }
}

/// What the supervisor asks for is what it waits for: it never asks for
/// anything whose outcome it would not take, and asks for nothing more exactly
/// once it has stopped.
pub proof fn actions_fit_phases(cfg: ConfigView, s: SupervisorView, i: InputView)
    requires
        s.inv(cfg),
        accepts(s.phase, i),
    ensures
        ({
            let (t, step) = s.next(cfg, i);
            match step.action {
                Action::Dial => t.phase is Dialing,
                Action::Receive => t.phase is Connected,
                Action::Transmit => t.phase is Transmitting && step.transmit is Some,
                Action::HangUp => t.phase is Closing,
                Action::Sleep => t.phase is Sleeping,
                Action::Stop => t.phase is Stopped,
            }
        }),
{
}

/// Whether `h` tells the agent to stop.
pub open spec fn is_stop_signal(h: Happening) -> bool {
    match h {
        Happening::Close => true,
        Happening::Input(i) => i is Cancelled,
    }
}

/// An agent goes on until it is closed or observes a fatal error.
pub proof fn agent_goes_on_until_told(cfg: ConfigView, hs: Seq<Happening>)
    requires
        can_run(cfg, SupervisorView::initial(cfg), hs),
        forall|k: int| 0 <= k < hs.len() ==> !is_stop_signal(#[trigger] hs[k]),
    ensures
        !run(cfg, SupervisorView::initial(cfg), hs).cancelled,
        run(cfg, SupervisorView::initial(cfg), hs).done ==> run(
            cfg,
            SupervisorView::initial(cfg),
            hs,
        ).fatal_err is Some,
    decreases hs.len(),
{
    every_run_keeps_inv(cfg, hs);
    if hs.len() > 0 {
        assert(!is_stop_signal(hs[hs.len() - 1]));
        agent_goes_on_until_told(cfg, hs.drop_last());
    }
}

/// Closing an agent that was closed changes nothing.
pub proof fn closing_again_changes_nothing(cfg: ConfigView, s: SupervisorView)
    requires
        s.cancelled,
    ensures
        after(cfg, s, Happening::Close) == s,
        told(cfg, s, Happening::Close) == Seq::<MessageView>::empty(),
{
}

/// The stop signal latches: a cancelled supervisor stays cancelled, and never
/// dials again.
pub proof fn stop_signal_latches(
    cfg: ConfigView,
    s: SupervisorView,
    hs: Seq<Happening>,
    h: Happening,
)
    requires
        s.cancelled,
    ensures
        run(cfg, s, hs).cancelled,
        !dials(cfg, run(cfg, s, hs), h),
    decreases hs.len(),
{
    if hs.len() > 0 {
        stop_signal_latches(cfg, s, hs.drop_last(), hs.last());
    }
}

/// How many inputs a cancelled supervisor still takes at most.
pub open spec fn inputs_left(phase: PhaseView) -> nat {
    match phase {
        PhaseView::Dialing | PhaseView::Transmitting => 4,
        PhaseView::Connected => 3,
        PhaseView::Closing(_) => 2,
        PhaseView::Idle | PhaseView::Sleeping => 1,
        PhaseView::Stopped => 0,
    }
}

/// How many of `hs` are inputs.
pub open spec fn inputs_in(hs: Seq<Happening>) -> nat
    decreases hs.len(),
{
    if hs.len() == 0 {
        0
    } else {
        inputs_in(hs.drop_last()) + if hs.last() is Input {
            1nat
        } else {
            0
        }
    }
}

/// A closed agent stops: once cancelled, each further input brings the
/// supervisor closer to its end, which it reaches after at most four.
pub proof fn closed_agent_stops(cfg: ConfigView, s: SupervisorView, hs: Seq<Happening>)
    requires
        s.cancelled,
        can_run(cfg, s, hs),
    ensures
        inputs_in(hs) + inputs_left(run(cfg, s, hs).phase) <= inputs_left(s.phase) <= 4,
    decreases hs.len(),
{
    if hs.len() > 0 {
        closed_agent_stops(cfg, s, hs.drop_last());
        stop_signal_latches(cfg, s, hs.drop_last(), hs.last());
    }
}

/// A supervisor that stopped stays as it is, and tells the handler nothing
/// more.
pub proof fn stopped_is_final(cfg: ConfigView, s: SupervisorView, hs: Seq<Happening>)
    requires
        s.phase is Stopped,
        can_run(cfg, s, hs),
    ensures
        inputs_in(hs) == 0,
        run(cfg, s, hs) == (SupervisorView { cancelled: run(cfg, s, hs).cancelled, ..s }),
        delivered(cfg, s, hs) == Seq::<MessageView>::empty(),
    decreases hs.len(),
{
    if hs.len() > 0 {
        stopped_is_final(cfg, s, hs.drop_last());
    }
}

/// Whether the message reports a fatal server error.
pub open spec fn reports_fatal(m: MessageView) -> bool {
    m.err matches Some(ErrorView::Server(e)) && e.is_fatal()
}

/// How many of the messages report a fatal server error.
pub open spec fn fatal_reports(ms: Seq<MessageView>) -> nat
    decreases ms.len(),
{
    if ms.len() == 0 {
        0
    } else {
        fatal_reports(ms.drop_last()) + if reports_fatal(ms.last()) {
            1nat
        } else {
            0
        }
    }
}

/// A server error that arrives over an open socket has no status, so it is
/// never fatal; and every other failure read off the socket is no server error.
pub proof fn frames_are_never_fatal(frame: FrameView)
    ensures
        match frame_event(frame) {
            Some(EventView::ServerError(e)) => e.status == 0 && !e.is_fatal(),
            Some(EventView::Decode(e)) => !(e is Server),
            Some(EventView::ConnectionLost(e)) => e is Transport,
            _ => true,
        },
{
}

/// Whether no outcome that is still to be settled is a fatal error in disguise.
spec fn pending_is_transient(s: SupervisorView) -> bool {
    s.phase matches PhaseView::Closing(OutcomeView::Error(e)) ==> !reports_fatal(
        MessageView::error(e),
    )
}

proof fn fatal_reports_push(ms: Seq<MessageView>, m: MessageView)
    ensures
        fatal_reports(ms + seq![m]) == fatal_reports(ms) + if reports_fatal(m) {
            1nat
        } else {
            0
        },
{
    assert((ms + seq![m]).drop_last() =~= ms);
}

proof fn fatal_count(cfg: ConfigView, hs: Seq<Happening>)
    requires
        can_run(cfg, SupervisorView::initial(cfg), hs),
    ensures
        ({
            let s = run(cfg, SupervisorView::initial(cfg), hs);
            let ms = delivered(cfg, SupervisorView::initial(cfg), hs);
            &&& pending_is_transient(s)
            &&& match s.fatal_err {
                Some(e) => {
                    &&& fatal_reports(ms) == 1
                    &&& ms.len() > 0
                    &&& ms.last() == MessageView::error(ErrorView::Server(e))
                },
                None => fatal_reports(ms) == 0,
            }
        }),
    decreases hs.len(),
{
    if hs.len() > 0 {
        let init = SupervisorView::initial(cfg);
        let rest = hs.drop_last();
        let s = run(cfg, init, rest);
        let ms = delivered(cfg, init, rest);
        fatal_count(cfg, rest);
        every_run_keeps_inv(cfg, rest);
        match hs.last() {
            Happening::Close => {
                assert(ms + told(cfg, s, hs.last()) =~= ms);
            },
            Happening::Input(i) => {
                if let InputView::Frame(f) = i {
                    frames_are_never_fatal(f);
                }
                match s.next(cfg, i).1.deliver {
                    Some(m) => {
                        fatal_reports_push(ms, m);
                    },
                    None => {
                        assert(ms + told(cfg, s, hs.last()) =~= ms);
                    },
                }
            },
        }
    }
}

/// A fatal error is the last word: the agent is done, and the handler is told
/// of it once, as the last thing it is told. No agent that goes on was told of
/// one.
pub proof fn fatal_error_is_the_last_word(cfg: ConfigView, hs: Seq<Happening>)
    requires
        can_run(cfg, SupervisorView::initial(cfg), hs),
    ensures
        ({
            let s = run(cfg, SupervisorView::initial(cfg), hs);
            let ms = delivered(cfg, SupervisorView::initial(cfg), hs);
            match s.fatal_err {
                Some(e) => {
                    &&& e.is_fatal()
                    &&& s.done
                    &&& fatal_reports(ms) == 1
                    &&& ms.len() > 0
                    &&& ms.last() == MessageView::error(ErrorView::Server(e))
                },
                None => fatal_reports(ms) == 0,
            }
        }),
{
    fatal_count(cfg, hs);
    every_run_keeps_inv(cfg, hs);
}

/// A handshake that the server rejects with 401, 403 or 404 stops the agent at
/// once; [`AgentView::err`] is then that error.
pub proof fn rejected_agent_stops(cfg: ConfigView, s: SupervisorView, e: ServerErrorView)
    requires
        s.phase is Dialing,
        e.status == 401 || e.status == 403 || e.status == 404,
    ensures
        ({
            let (t, step) = s.next(cfg, InputView::Dialed(Err(ErrorView::Server(e))));
            &&& step.action == Action::Stop
            &&& step.deliver == Some(MessageView::error(ErrorView::Server(e)))
            &&& t.done
            &&& t.fatal_err == Some(e)
            &&& forall|a: AgentView| #![trigger a.err()] a.supervisor == t ==> a.err() == Some(
                ErrorView::Server(e),
            )
        }),
{
}

/// A failure to connect that is not fatal is reported to the handler and tried
/// again after a delay.
pub proof fn failed_dial_is_retried(cfg: ConfigView, s: SupervisorView, e: ErrorView)
    requires
        s.phase is Dialing,
        !s.cancelled,
        e is Server ==> !is_final_status(e->Server_0.status),
    ensures
        ({
            let (t, step) = s.next(cfg, InputView::Dialed(Err(e)));
            &&& step.action == Action::Sleep
            &&& step.deliver == Some(MessageView::error(e))
            &&& t.last_err == Some(e.kept())
            &&& t.backoff == s.backoff
            &&& accepts(t.phase, InputView::Slept)
            &&& t.next(cfg, InputView::Slept).1.action == Action::Dial
        }),
{
}

/// The error that `h` ends an attempt or a connection with, if any.
pub open spec fn setback(cfg: ConfigView, s: SupervisorView, h: Happening) -> Option<ErrorView> {
    match h {
        Happening::Close => None,
        Happening::Input(i) => {
            let step = s.next(cfg, i).1;
            match step.deliver {
                Some(m) => if step.action == Action::Sleep || step.action == Action::Stop {
                    m.err
                } else {
                    None
                },
                None => None,
            }
        },
    }
}

/// The last error that an attempt or a connection ended with, if any.
pub open spec fn last_setback(
    cfg: ConfigView,
    s: SupervisorView,
    hs: Seq<Happening>,
) -> Option<ErrorView>
    decreases hs.len(),
{
    if hs.len() == 0 {
        None
    } else {
        match setback(cfg, run(cfg, s, hs.drop_last()), hs.last()) {
            Some(e) => Some(e),
            None => last_setback(cfg, s, hs.drop_last()),
        }
    }
}

/// What [`AgentView::err`] says: nothing while a connection is open, and
/// otherwise the last error that an attempt or a connection ended with,
/// however many connections ended cleanly since.
pub proof fn err_is_the_most_recent_error(a: AgentView, hs: Seq<Happening>)
    requires
        can_run(a.cfg, SupervisorView::initial(a.cfg), hs),
        a.supervisor == run(a.cfg, SupervisorView::initial(a.cfg), hs),
    ensures
        a.err() == if a.supervisor.phase.is_open() {
            None
        } else {
            match last_setback(a.cfg, SupervisorView::initial(a.cfg), hs) {
                Some(e) => Some(e.kept()),
                None => None,
            }
        },
{
    every_run_keeps_inv(a.cfg, hs);
    last_setback_is_remembered(a.cfg, hs);
}

proof fn last_setback_is_remembered(cfg: ConfigView, hs: Seq<Happening>)
    requires
        can_run(cfg, SupervisorView::initial(cfg), hs),
    ensures
        ({
            let s = run(cfg, SupervisorView::initial(cfg), hs);
            last_setback(cfg, SupervisorView::initial(cfg), hs) matches Some(e) ==> {
                if s.fatal_err is Some {
                    e == ErrorView::Server(s.fatal_err->0)
                } else {
                    s.last_err == Some(e.kept())
                }
            }
        }),
        ({
            let s = run(cfg, SupervisorView::initial(cfg), hs);
            last_setback(cfg, SupervisorView::initial(cfg), hs) is None ==> s.fatal_err is None
                && s.last_err is None
        }),
    decreases hs.len(),
{
    if hs.len() > 0 {
        last_setback_is_remembered(cfg, hs.drop_last());
        every_run_keeps_inv(cfg, hs.drop_last());
    }
}

/// What the supervisor is told when an open connection ends with `i`, is hung
/// up after `connected_for`, and the delay is over.
pub open spec fn drop_and_return(i: InputView, connected_for: nat) -> Seq<Happening> {
    seq![
        Happening::Input(i),
        Happening::Input(InputView::HungUp { connected_for }),
        Happening::Input(InputView::Slept),
    ]
}

/// Whether `i` ends an open connection, other than by the agent itself.
pub open spec fn ends_connection(i: InputView) -> bool {
    match i {
        InputView::Failed(_) | InputView::Ended => true,
        InputView::Frame(f) => frame_event(f) matches Some(e) && (e is Closed
            || e is ConnectionLost),
        _ => false,
    }
}

/// What the handler is told of a connection that ended with `i`: the read
/// failure or the abnormal close, and nothing of a clean end.
pub open spec fn drop_reports(i: InputView) -> Seq<MessageView> {
    match i {
        InputView::Failed(t) => seq![error_event(ErrorView::Transport(t))],
        InputView::Frame(f) => match frame_event(f) {
            Some(EventView::ConnectionLost(e)) => seq![error_event(e)],
            _ => seq![],
        },
        _ => seq![],
    }
}

/// A connection that drops is reported to the handler, unless it was closed
/// cleanly, and opened again after a delay, whatever happened before.
pub proof fn dropped_connection_is_reopened(
    cfg: ConfigView,
    s: SupervisorView,
    i: InputView,
    connected_for: nat,
)
    requires
        s.phase is Connected,
        !s.cancelled,
        ends_connection(i),
    ensures
        ({
            let hs = drop_and_return(i, connected_for);
            &&& can_run(cfg, s, hs)
            &&& run(cfg, s, hs).phase is Dialing
            &&& delivered(cfg, s, hs) == drop_reports(i)
            &&& if drop_reports(i).len() == 0 {
                run(cfg, s, hs).last_err == s.last_err
            } else {
                run(cfg, s, hs).last_err == Some(drop_reports(i)[0].err->0.kept())
            }
        }),
{
    let hs = drop_and_return(i, connected_for);
    reveal_with_fuel(can_run, 4);
    reveal_with_fuel(run, 4);
    reveal_with_fuel(delivered, 4);
    assert(hs.drop_last().drop_last().drop_last() =~= seq![]);
    assert(hs.drop_last().drop_last().last() == Happening::Input(i));
    assert(hs.drop_last().last() == Happening::Input(InputView::HungUp { connected_for }));
    assert(hs.last() == Happening::Input(InputView::Slept));
    assert(delivered(cfg, s, hs) =~= drop_reports(i));
}

/// The delay before the attempt after `n` failed ones in a row.
pub open spec fn backoff_after(cfg: ConfigView, n: nat) -> nat
    decreases n,
{
    if n == 0 {
        cfg.min_backoff
    } else {
        next_backoff(backoff_after(cfg, (n - 1) as nat), cfg.max_backoff)
    }
}

/// The backoff is exponential: it starts at the initial delay, doubles with
/// every failed attempt, and is capped.
pub proof fn backoff_doubles_up_to_the_cap(cfg: ConfigView, n: nat)
    ensures
        backoff_after(cfg, 0) == cfg.min_backoff,
        n > 0 ==> backoff_after(cfg, n) == if cfg.min_backoff * pow2(n) <= cfg.max_backoff {
            cfg.min_backoff * pow2(n)
        } else {
            cfg.max_backoff
        },
    decreases n,
{
    if n > 0 {
        let m = (n - 1) as nat;
        backoff_doubles_up_to_the_cap(cfg, m);
        lemma_pow2_unfold(n);
        let p = pow2(m) as int;
        let a = cfg.min_backoff as int;
        assert(a * (2 * p) == 2 * (a * p)) by (nonlinear_arith);
        if m == 0 {
            vstd::arithmetic::power2::lemma2_to64();
            assert(a * 2 == 2 * a);
        }
    }
}

/// Attempts in a row that fail with the errors `es`, each followed by its
/// delay, after the supervisor was started.
pub open spec fn failing_attempts(es: Seq<ErrorView>) -> Seq<Happening>
    decreases es.len(),
{
    if es.len() == 0 {
        seq![Happening::Input(InputView::Started)]
    } else {
        failing_attempts(es.drop_last()).push(
            Happening::Input(InputView::Dialed(Err(es.last()))),
        ).push(Happening::Input(InputView::Slept))
    }
}

/// A supervisor that cannot connect keeps trying, with the backoff of the
/// number of failures.
pub proof fn failing_attempts_back_off(cfg: ConfigView, es: Seq<ErrorView>)
    requires
        forall|k: int|
            0 <= k < es.len() ==> ((#[trigger] es[k]) is Server ==> !is_final_status(
                es[k]->Server_0.status,
            )),
    ensures
        ({
            let s = run(cfg, SupervisorView::initial(cfg), failing_attempts(es));
            &&& can_run(cfg, SupervisorView::initial(cfg), failing_attempts(es))
            &&& s.phase is Dialing
            &&& !s.cancelled
            &&& s.backoff == backoff_after(cfg, es.len())
        }),
    decreases es.len(),
{
    let init = SupervisorView::initial(cfg);
    let hs = failing_attempts(es);
    reveal_with_fuel(can_run, 3);
    reveal_with_fuel(run, 3);
    if es.len() == 0 {
        assert(hs.drop_last() =~= seq![]);
    } else {
        failing_attempts_back_off(cfg, es.drop_last());
        let before = failing_attempts(es.drop_last());
        let e = es[es.len() - 1];
        assert(hs.drop_last().drop_last() =~= before);
        assert(hs.drop_last().last() == Happening::Input(InputView::Dialed(Err(e))));
        failed_dial_is_retried(cfg, run(cfg, init, before), e);
    }
}

/// Whether `h` ends a connection that was open for longer than the threshold,
/// other than by the agent itself.
pub open spec fn resets_backoff(s: SupervisorView, h: Happening) -> bool {
    match h {
        Happening::Input(InputView::HungUp { connected_for }) => {
            &&& connected_for > HEALTHY_THRESHOLD_SECS * 1_000_000_000
            &&& !(s.phase->Closing_0 is Stopped)
        },
        _ => false,
    }
}

/// How many delays have passed since the backoff was last reset.
pub open spec fn delays_since_reset(
    cfg: ConfigView,
    s: SupervisorView,
    hs: Seq<Happening>,
) -> nat
    decreases hs.len(),
{
    if hs.len() == 0 {
        0
    } else if resets_backoff(run(cfg, s, hs.drop_last()), hs.last()) {
        0
    } else {
        delays_since_reset(cfg, s, hs.drop_last()) + if hs.last() == Happening::Input(
            InputView::Slept,
        ) {
            1nat
        } else {
            0
        }
    }
}

/// How many delays have passed.
pub open spec fn delays_in(hs: Seq<Happening>) -> nat
    decreases hs.len(),
{
    if hs.len() == 0 {
        0
    } else {
        delays_in(hs.drop_last()) + if hs.last() == Happening::Input(InputView::Slept) {
            1nat
        } else {
            0
        }
    }
}

/// Whatever happens, the backoff is the one of the number of delays since the
/// last connection that was open for longer than the threshold.
pub proof fn backoff_counts_delays_since_reset(cfg: ConfigView, hs: Seq<Happening>)
    requires
        can_run(cfg, SupervisorView::initial(cfg), hs),
    ensures
        run(cfg, SupervisorView::initial(cfg), hs).backoff == backoff_after(
            cfg,
            delays_since_reset(cfg, SupervisorView::initial(cfg), hs),
        ),
    decreases hs.len(),
{
    if hs.len() > 0 {
        backoff_counts_delays_since_reset(cfg, hs.drop_last());
        every_run_keeps_inv(cfg, hs.drop_last());
    }
}

/// As long as no connection stays open for longer than the threshold, the
/// backoff is the one of the number of delays so far.
pub proof fn backoff_counts_delays(cfg: ConfigView, hs: Seq<Happening>)
    requires
        can_run(cfg, SupervisorView::initial(cfg), hs),
        forall|k: int|
            0 <= k < hs.len() ==> (#[trigger] hs[k] matches Happening::Input(
                InputView::HungUp { connected_for },
            ) ==> connected_for <= HEALTHY_THRESHOLD_SECS * 1_000_000_000),
    ensures
        run(cfg, SupervisorView::initial(cfg), hs).backoff == backoff_after(cfg, delays_in(hs)),
    decreases hs.len(),
{
    if hs.len() > 0 {
        assert(hs.last() == hs[hs.len() - 1]);
        backoff_counts_delays(cfg, hs.drop_last());
        every_run_keeps_inv(cfg, hs.drop_last());
    }
}

/// A connection that was open for longer than the threshold resets the backoff
/// to the initial delay; any shorter one leaves it. That holds of every
/// connection but one that the agent itself ends for good.
pub proof fn healthy_connection_resets_backoff(
    cfg: ConfigView,
    s: SupervisorView,
    connected_for: nat,
)
    requires
        s.inv(cfg),
        s.phase is Closing,
        !(s.phase->Closing_0 is Stopped),
    ensures
        s.next(cfg, InputView::HungUp { connected_for }).0.backoff == if connected_for
            > HEALTHY_THRESHOLD_SECS * 1_000_000_000 {
            cfg.min_backoff
        } else {
            s.backoff
        },
        s.next(cfg, InputView::HungUp { connected_for }).1.action == Action::Sleep,
{
}

/// A jitter is less than half of its delay, or nothing.
pub proof fn jitter_is_below_half(backoff: nat, millis: nat)
    requires
        is_jitter(backoff, millis),
    ensures
        millis == 0 || 2 * (millis * 1_000_000) < backoff,
{
    if millis > 0 {
        assert(2 * (millis + 1) <= backoff / 1_000_000);
    }
}

/// The delay before an attempt is never shorter than the backoff and never
/// longer than the configured maximum.
pub proof fn delays_stay_within_the_cap(cfg: ConfigView, s: SupervisorView, millis: nat)
    requires
        s.inv(cfg),
        cfg.min_backoff <= cfg.max_backoff,
        is_jitter(s.backoff, millis),
    ensures
        cfg.min_backoff <= s.backoff <= jittered(s.backoff, millis, cfg.max_backoff)
            <= cfg.max_backoff,
{
}

/// What the handler is told of a frame that leaves the connection open.
pub open spec fn report(f: FrameView) -> Seq<MessageView> {
    match frame_event(f) {
        Some(EventView::Message { from, data }) => seq![MessageView::incoming(from, data)],
        Some(EventView::ServerError(e)) => seq![MessageView::error(ErrorView::Server(e))],
        Some(EventView::Decode(e)) => seq![MessageView::error(e)],
        _ => seq![],
    }
}

/// Whether `h` is something that leaves an open connection open: a message to
/// send, what came of writing it, or a frame that does not close the
/// connection.
pub open spec fn keeps_open(h: Happening) -> bool {
    match h {
        Happening::Input(InputView::Request(_)) => true,
        Happening::Input(InputView::Written(_)) => true,
        Happening::Input(InputView::Frame(f)) => !(frame_event(f) matches Some(e) && (e is Closed
            || e is ConnectionLost)),
        _ => false,
    }
}

/// What the handler is told of the frames among `hs`, one after the other.
pub open spec fn reports(hs: Seq<Happening>) -> Seq<MessageView>
    decreases hs.len(),
{
    if hs.len() == 0 {
        seq![]
    } else {
        reports(hs.drop_last()) + match hs.last() {
            Happening::Input(InputView::Frame(f)) => report(f),
            _ => seq![],
        }
    }
}

/// The messages that somebody wanted to send, in order.
pub open spec fn requested(hs: Seq<Happening>) -> Seq<OutgoingView>
    decreases hs.len(),
{
    if hs.len() == 0 {
        seq![]
    } else {
        match hs.last() {
            Happening::Input(InputView::Request(m)) => requested(hs.drop_last()).push(m),
            _ => requested(hs.drop_last()),
        }
    }
}

/// What came of writing messages, in order.
pub open spec fn written(hs: Seq<Happening>) -> Seq<Result<(), ErrorView>>
    decreases hs.len(),
{
    if hs.len() == 0 {
        seq![]
    } else {
        match hs.last() {
            Happening::Input(InputView::Written(r)) => written(hs.drop_last()).push(r),
            _ => written(hs.drop_last()),
        }
    }
}

/// The messages whose frames the connection was given, in order.
pub open spec fn transmitted(
    cfg: ConfigView,
    s: SupervisorView,
    hs: Seq<Happening>,
) -> Seq<OutgoingView>
    decreases hs.len(),
{
    if hs.len() == 0 {
        seq![]
    } else {
        let before = transmitted(cfg, s, hs.drop_last());
        match hs.last() {
            Happening::Close => before,
            Happening::Input(i) => match run(cfg, s, hs.drop_last()).next(cfg, i).1.transmit {
                Some(m) => before.push(m),
                None => before,
            },
        }
    }
}

/// The answers given to those who wanted to send, in order.
pub open spec fn answered(
    cfg: ConfigView,
    s: SupervisorView,
    hs: Seq<Happening>,
) -> Seq<Result<(), ErrorView>>
    decreases hs.len(),
{
    if hs.len() == 0 {
        seq![]
    } else {
        let before = answered(cfg, s, hs.drop_last());
        match hs.last() {
            Happening::Close => before,
            Happening::Input(i) => match run(cfg, s, hs.drop_last()).next(cfg, i).1.answer {
                Some(r) => before.push(r),
                None => before,
            },
        }
    }
}

/// On an open connection every message that somebody wants to send is given to
/// the connection once, in order, and answered once, with what came of writing
/// it: the next one is not taken before. A failed write ends nothing. Only the
/// last message may still be without its answer.
pub proof fn every_request_is_sent_and_answered_once(
    cfg: ConfigView,
    s: SupervisorView,
    hs: Seq<Happening>,
)
    requires
        s.phase is Connected,
        !s.cancelled,
        can_run(cfg, s, hs),
        forall|k: int| 0 <= k < hs.len() ==> keeps_open(#[trigger] hs[k]),
    ensures
        transmitted(cfg, s, hs) == requested(hs),
        answered(cfg, s, hs) == written(hs),
        run(cfg, s, hs).phase is Connected ==> requested(hs).len() == written(hs).len()
            && run(cfg, s, hs) == s,
        run(cfg, s, hs).phase is Transmitting ==> requested(hs).len() == written(hs).len() + 1
            && run(cfg, s, hs) == (SupervisorView { phase: PhaseView::Transmitting, ..s }),
        run(cfg, s, hs).phase.is_open(),
    decreases hs.len(),
{
    if hs.len() > 0 {
        assert(keeps_open(hs[hs.len() - 1]));
        every_request_is_sent_and_answered_once(cfg, s, hs.drop_last());
    }
}

/// Over a whole run, with connections that come and go, no more is sent than
/// was asked for, every answer is what came of a write, and every message that
/// was sent is answered, but for one that is still being written.
pub proof fn every_run_answers_what_it_sends(cfg: ConfigView, hs: Seq<Happening>)
    requires
        can_run(cfg, SupervisorView::initial(cfg), hs),
    ensures
        answered(cfg, SupervisorView::initial(cfg), hs) == written(hs),
        transmitted(cfg, SupervisorView::initial(cfg), hs).len() == written(hs).len() + if run(
            cfg,
            SupervisorView::initial(cfg),
            hs,
        ).phase is Transmitting {
            1nat
        } else {
            0
        },
        transmitted(cfg, SupervisorView::initial(cfg), hs).len() <= requested(hs).len(),
    decreases hs.len(),
{
    if hs.len() > 0 {
        every_run_answers_what_it_sends(cfg, hs.drop_last());
        every_run_keeps_inv(cfg, hs.drop_last());
    }
}

/// On an open connection every message, server error and unreadable frame is
/// delivered once, in the order of arrival. What is sent in between makes no
/// difference, and neither does a ping or pong.
pub proof fn frames_are_delivered_in_order(cfg: ConfigView, s: SupervisorView, hs: Seq<Happening>)
    requires
        s.phase is Connected,
        !s.cancelled,
        can_run(cfg, s, hs),
        forall|k: int| 0 <= k < hs.len() ==> keeps_open(#[trigger] hs[k]),
    ensures
        delivered(cfg, s, hs) == reports(hs),
    decreases hs.len(),
{
    if hs.len() > 0 {
        assert(keeps_open(hs[hs.len() - 1]));
        frames_are_delivered_in_order(cfg, s, hs.drop_last());
        every_request_is_sent_and_answered_once(cfg, s, hs.drop_last());
    }
}

/// A message that arrived can be replied to, and the reply goes to its sender.
/// An error event cannot.
pub proof fn messages_can_be_replied_to(f: FrameView, e: ErrorView)
    ensures
        frame_event(f) matches Some(EventView::Message { from, data })
            ==> MessageView::incoming(from, data).can_reply() && MessageView::incoming(
            from,
            data,
        ).from == from,
        !MessageView::error(e).can_reply(),
{
}

/// A frame that the library sends says nothing to a client that receives it.
pub proof fn outgoing_frames_are_no_messages(frame: Value, to: Seq<char>, data: Value)
    requires
        is_outgoing(frame, to, data),
    ensures
        parsed_event(Ok(frame)) == EventView::Decode(
            ErrorView::Transport("server frame missing 'from' field"@),
        ),
{
    reveal_strlit("to");
    reveal_strlit("data");
    reveal_strlit("type");
    reveal_strlit("from");
    assert("type"@[0] == 't' && "from"@[0] == 'f' && "data"@[0] == 'd');
    assert("type"@.len() == 4 && "from"@.len() == 4 && "to"@.len() == 2);
}

/// A connection ends cleanly exactly when it is closed with 1000 or 1001 or
/// without a code.
pub proof fn clean_close_codes(code: u16, reason: Seq<char>)
    ensures
        close_event(None) is Closed,
        close_event(Some(CloseFrameView { code, reason })) is Closed <==> code == 1000
            || code == 1001,
{
}

/// A message is queued exactly while a connection is open, waits while the
/// agent is between connections, and is refused once the agent stopped.
pub proof fn sending_waits_for_a_connection(a: AgentView, m: OutgoingView)
    requires
        a.inv(),
    ensures
        a.send(m, SendEventView::Begin) == a.send(m, SendEventView::Changed),
        a.supervisor.phase.is_open() <==> a.send(m, SendEventView::Changed)
            == SendStepView::Enqueue(m),
        a.supervisor.phase is Stopped <==> a.send(m, SendEventView::Changed) is Finish,
{
}

/// What a refused request is answered: the fatal error where one stopped the
/// agent, and otherwise that the agent is closed.
pub proof fn refused_requests_name_the_cause(a: AgentView, m: OutgoingView, event: SendEventView)
    requires
        a.inv(),
        a.supervisor.phase is Stopped,
        event is Replied ==> is_dropped(event),
    ensures
        a.send(m, event) == SendStepView::Finish(
            Err(
                match a.supervisor.fatal_err {
                    Some(e) => ErrorView::Server(e),
                    None => ErrorView::Closed,
                },
            ),
        ),
{
}

/// Whether the connection took the message.
pub open spec fn is_taken(event: SendEventView) -> bool {
    event matches SendEventView::Replied(r) && r is Ok
}

/// Whether the connection dropped the message.
pub open spec fn is_dropped(event: SendEventView) -> bool {
    event matches SendEventView::Replied(r) && r is Err && r->Err_0 is Transport
}

/// What is seen while a message is sent: the agent, and what happened.
pub struct Sight {
    pub agent: AgentView,
    pub event: SendEventView,
}

impl Sight {
    /// What it leads to for the message `m`.
    pub open spec fn step(self, m: OutgoingView) -> SendStepView {
        self.agent.send(m, self.event)
    }
}

/// Whether `event` is something that can come of `step`.
pub open spec fn comes_of(event: SendEventView, step: SendStepView) -> bool {
    match step {
        SendStepView::Wait => event is Changed || event is WatchLost,
        SendStepView::Enqueue(_) => event is QueueLost || event is Replied || event is ReplyLost,
        SendStepView::Finish(_) => false,
    }
}

/// Whether `seen` is what is seen while `m` is sent, from the beginning.
pub open spec fn is_sending(m: OutgoingView, seen: Seq<Sight>) -> bool {
    &&& seen.len() > 0
    &&& seen[0].event is Begin
    &&& forall|j: int, k: int|
        #![trigger seen[j], seen[k]]
        0 <= j < seen.len() && k == j + 1 && k < seen.len() ==> comes_of(
            seen[k].event,
            seen[j].step(m),
        )
}

/// Whatever the agent goes through while a message is sent: every time it is
/// queued it has the same target and payload; a message that the connection
/// dropped is queued again, once there is a connection; sending succeeds
/// exactly if the connection took the message, and then nothing is queued any
/// more; it never ends with a transport error.
pub proof fn the_same_message_is_sent_until_taken(m: OutgoingView, seen: Seq<Sight>)
    requires
        is_sending(m, seen),
    ensures
        forall|k: int|
            0 <= k < seen.len() ==> match (#[trigger] seen[k]).step(m) {
                SendStepView::Enqueue(queued) => queued == m && seen[k].agent.supervisor.ready,
                SendStepView::Finish(outcome) => {
                    &&& k == seen.len() - 1
                    &&& outcome is Ok <==> is_taken(seen[k].event)
                    &&& !(outcome is Err && outcome->Err_0 is Transport)
                },
                SendStepView::Wait => !is_taken(seen[k].event),
            },
        forall|k: int|
            0 <= k < seen.len() ==> (is_taken((#[trigger] seen[k]).event) ==> seen[k].step(m)
                == SendStepView::Finish(Ok(()))),
        forall|k: int|
            0 <= k < seen.len() ==> (is_dropped((#[trigger] seen[k]).event) ==> seen[k].step(m)
                == seen[k].agent.queue(m)),
        forall|k: int|
            0 < k < seen.len() ==> ((#[trigger] seen[k]).event is Replied ==> seen[k - 1].step(m)
                == SendStepView::Enqueue(m)),
{
    assert forall|k: int| 0 <= k < seen.len() && (#[trigger] seen[k]).step(m) is Finish implies k
        == seen.len() - 1 by {
        if k + 1 < seen.len() {
            assert(comes_of(seen[k + 1].event, seen[k].step(m)));
        }
    }
    assert forall|k: int| 0 < k < seen.len() && (#[trigger] seen[k]).event is Replied implies seen[k
        - 1].step(m) == SendStepView::Enqueue(m) by {
        assert(comes_of(seen[k].event, seen[k - 1].step(m)));
    }
}

/// An address without `%` stands in a path as it is, `:` and `/` included.
pub proof fn plain_addresses_pass_through(s: Seq<char>)
    requires
        !s.contains('%'),
    ensures
        escape_percent(s) == s,
    decreases s.len(),
{
    if s.len() > 0 {
        let t = s.drop_last();
        assert forall|i: int| 0 <= i < t.len() implies t[i] != '%' by {
            assert(s[i] == t[i]);
            assert(s.contains(s[i]));
        }
        plain_addresses_pass_through(t);
        assert(s.contains(s.last()));
        assert(t.push(s.last()) =~= s);
    } else {
        assert(escape_percent(s) =~= s);
    }
}

proof fn escaped_end(s: Seq<char>)
    ensures
        escape_percent(s).len() >= s.len(),
        s.len() > 0 ==> escape_percent(s).last() == if s.last() == '%' {
            '5'
        } else {
            s.last()
        },
        s.len() > 0 && s.last() != '%' ==> escape_percent(s).drop_last() == escape_percent(
            s.drop_last(),
        ),
    decreases s.len(),
{
    if s.len() > 0 {
        escaped_end(s.drop_last());
        if s.last() != '%' {
            assert(escape_percent(s).drop_last() =~= escape_percent(s.drop_last()));
        }
    }
}

proof fn escaped_percent_is_unique(a: Seq<char>, b: Seq<char>)
    requires
        a.len() > 0,
        a.last() == '%',
        b.len() > 0,
        b.last() != '%',
    ensures
        escape_percent(a) != escape_percent(b),
{
    if escape_percent(a) == escape_percent(b) {
        let p = escape_percent(a.drop_last());
        let b1 = b.drop_last();
        escaped_end(b);
        assert(escape_percent(b1) =~= p.push('%').push('2'));
        escaped_end(b1);
        let b2 = b1.drop_last();
        assert(escape_percent(b2) =~= p.push('%'));
        escaped_end(b2);
    }
}

/// Escaped addresses are told apart: no two addresses stand in a path as the
/// same text.
pub proof fn escaped_addresses_are_distinct(a: Seq<char>, b: Seq<char>)
    requires
        a != b,
    ensures
        escape_percent(a) != escape_percent(b),
    decreases a.len(),
{
    escaped_end(a);
    escaped_end(b);
    if escape_percent(a) == escape_percent(b) {
        if a.len() == 0 || b.len() == 0 {
            assert(a =~= b);
        } else if a.last() == '%' && b.last() != '%' {
            escaped_percent_is_unique(a, b);
        } else if a.last() != '%' && b.last() == '%' {
            escaped_percent_is_unique(b, a);
        } else {
            let (x, y) = (escape_percent(a.drop_last()), escape_percent(b.drop_last()));
            if a.last() == '%' {
                assert(x =~= escape_percent(a).take(x.len() as int));
                assert(y =~= escape_percent(b).take(y.len() as int));
            }
            if a.drop_last() == b.drop_last() {
                assert(a =~= a.drop_last().push(a.last()));
                assert(b =~= b.drop_last().push(b.last()));
            } else {
                escaped_addresses_are_distinct(a.drop_last(), b.drop_last());
            }
        }
    }
}

/// No two sockets are reached at the same URL or asked about at the same path.
pub proof fn sockets_are_told_apart(endpoint: Seq<char>, a: Seq<char>, b: Seq<char>)
    requires
        a != b,
    ensures
        dial_url_text(endpoint, a) != dial_url_text(endpoint, b),
        socket_path(a) != socket_path(b),
{
    let base = trim_end_of(endpoint, '/') + "/"@;
    if dial_url_text(endpoint, a) == dial_url_text(endpoint, b) {
        assert(a =~= dial_url_text(endpoint, a).skip(base.len() as int));
        assert(b =~= dial_url_text(endpoint, b).skip(base.len() as int));
    }
    escaped_addresses_are_distinct(a, b);
    if socket_path(a) == socket_path(b) {
        let n = "/sockets/"@.len() as int;
        assert(escape_percent(a) =~= socket_path(a).skip(n));
        assert(escape_percent(b) =~= socket_path(b).skip(n));
    }
}

/// Trailing slashes of an endpoint or a base URL make no difference, and none
/// is left.
pub proof fn trailing_slashes_make_no_difference(s: Seq<char>, socket_id: Seq<char>)
    ensures
        trim_end_of(s.push('/'), '/') == trim_end_of(s, '/'),
        trim_end_of(s, '/').len() > 0 ==> trim_end_of(s, '/').last() != '/',
        dial_url_text(s.push('/'), socket_id) == dial_url_text(s, socket_id),
    decreases s.len(),
{
    assert(s.push('/').drop_last() =~= s);
    if s.len() > 0 && s.last() == '/' {
        trailing_slashes_make_no_difference(s.drop_last(), socket_id);
    }
}

} // verus!
