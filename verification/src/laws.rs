//! What holds of every run of the supervisor.

use vstd::prelude::*;
use crate::control::ControlEvent;
use crate::status::{stopped_report, ServiceState, EXIT_CLEAN};
use crate::supervisor::{
    initial, is_notice, is_stop, next, notices_ahead, notices_ahead_bounded, rank, responses, run,
    Action, ChildState, Event, Outcome, Phase, ServiceError, StopCause, Supervisor,
};

verus! {

/// Whether no event of the run is a Stop taken from the control queue.
pub open spec fn no_stop(events: Seq<Event>) -> bool {
    forall|i: int| 0 <= i < events.len() ==> !is_stop(#[trigger] events[i])
}

/// Whether no event of the run tells of a status report that failed.
pub open spec fn no_failed_report(events: Seq<Event>) -> bool {
    forall|i: int| 0 <= i < events.len() ==> #[trigger] events[i] != Event::Reported(false)
}

/// The run without the Pauses and Continues taken from the control queue.
pub open spec fn without_notices(events: Seq<Event>) -> Seq<Event>
    decreases events.len(),
{
    if events.len() == 0 {
        Seq::<Event>::empty()
    } else if is_notice(events[0]) {
        without_notices(events.skip(1))
    } else {
        seq![events[0]] + without_notices(events.skip(1))
    }
}

/// Whether the action asks for the terminal report.
pub open spec fn is_terminal_report(action: Action) -> bool {
    action matches Action::Report(report) && report.state is Stopped
}

/// How many of the actions ask for the terminal report.
pub open spec fn terminal_reports(actions: Seq<Action>) -> nat
    decreases actions.len(),
{
    if actions.len() == 0 {
        0
    } else {
        (if is_terminal_report(actions[0]) {
            1nat
        } else {
            0nat
        }) + terminal_reports(actions.skip(1))
    }
}

/// How many of the actions ask for the child to be launched.
pub open spec fn spawns(actions: Seq<Action>) -> nat
    decreases actions.len(),
{
    if actions.len() == 0 {
        0
    } else {
        (if actions[0] is Spawn {
            1nat
        } else {
            0nat
        }) + spawns(actions.skip(1))
    }
}

/// How many of the actions ask for the child to be killed.
pub open spec fn kills(actions: Seq<Action>) -> nat
    decreases actions.len(),
{
    if actions.len() == 0 {
        0
    } else {
        (if actions[0] is Kill {
            1nat
        } else {
            0nat
        }) + kills(actions.skip(1))
    }
}

/// Whether the launch of the child was ever asked for.
pub open spec fn spawn_requested(s: Supervisor) -> bool {
    s.phase is Spawning || s.child !is NotSpawned || s.error == Some(ServiceError::Spawn)
}

/// The events of one poll, as the machine meets them when the control queue
/// holds `pending` and the child has exited or not: the queue is emptied up
/// to its first Stop; only an empty queue lets the child be looked at, and
/// only a live child is followed by the pause.
pub open spec fn poll_events(pending: Seq<ControlEvent>, exited: bool) -> Seq<Event>
    decreases pending.len(),
{
    if pending.len() == 0 {
        if exited {
            seq![Event::Control(None), Event::ChildPolled(true)]
        } else {
            seq![Event::Control(None), Event::ChildPolled(false), Event::Slept]
        }
    } else if pending[0] is Stop {
        seq![Event::Control(Some(ControlEvent::Stop))]
    } else {
        seq![Event::Control(Some(pending[0]))] + poll_events(pending.skip(1), exited)
    }
}

/// One transition keeps a reachable state reachable, never moves the
/// lifecycle back, asks for a kill only on a Stop and only once, and asks
/// for the terminal report only once.
pub proof fn transition_facts(s: Supervisor, event: Event)
    requires
        s.well_formed(),
    ensures
        next(s, event).0.well_formed(),
        next(s, event).0.process_id == s.process_id,
        rank(next(s, event).0.run_state()) >= rank(s.run_state()),
        next(s, event).1 is Kill <==> !s.kill_attempted() && next(s, event).0.kill_attempted(),
        next(s, event).1 is Kill ==> is_stop(event),
        is_terminal_report(next(s, event).1) <==> !s.stopped_report_requested() && next(
            s,
            event,
        ).0.stopped_report_requested(),
        s.kill_attempted() ==> next(s, event).0.kill_attempted(),
        s.stopped_report_requested() ==> next(s, event).0.stopped_report_requested(),
        s.cause is Some ==> next(s, event).0.cause == s.cause,
        next(s, event).1 is Spawn <==> !spawn_requested(s) && spawn_requested(next(s, event).0),
        spawn_requested(s) ==> spawn_requested(next(s, event).0),
        s.kill_attempted() ==> spawn_requested(s),
        s.child is Reaped ==> next(s, event).0.child is Reaped && (next(s, event).1 is Finish
            || next(s, event).1 is Ignore),
        is_notice(event) ==> next(s, event).0 == s && (next(s, event).1 is Notice || next(
            s,
            event,
        ).1 is Ignore),
{
}

proof fn run_cons(s: Supervisor, event: Event, rest: Seq<Event>)
    ensures
        run(s, seq![event] + rest) == run(next(s, event).0, rest),
        responses(s, seq![event] + rest) == seq![next(s, event).1] + responses(
            next(s, event).0,
            rest,
        ),
{
    let events = seq![event] + rest;
    assert(events[0] == event);
    assert(events.skip(1) =~= rest);
}

proof fn run_one(s: Supervisor, event: Event)
    ensures
        run(s, seq![event]) == next(s, event).0,
        responses(s, seq![event]) == seq![next(s, event).1],
{
    let rest = Seq::<Event>::empty();
    run_cons(s, event, rest);
    assert(seq![event] + rest =~= seq![event]);
    assert(run(next(s, event).0, rest) == next(s, event).0);
    assert(responses(next(s, event).0, rest) =~= Seq::<Action>::empty());
    assert(seq![next(s, event).1] + Seq::<Action>::empty() =~= seq![next(s, event).1]);
}

/// Every run from a reachable state ends in a reachable state, and the
/// lifecycle moves only forward along it: Starting, Running, Stopped, and
/// never back. A cause, once recorded, stays.
pub proof fn lifecycle_never_goes_back(s: Supervisor, events: Seq<Event>)
    requires
        s.well_formed(),
    ensures
        run(s, events).well_formed(),
        run(s, events).process_id == s.process_id,
        rank(run(s, events).run_state()) >= rank(s.run_state()),
        s.cause is Some ==> run(s, events).cause == s.cause,
        responses(s, events).len() == events.len(),
    decreases events.len(),
{
    if events.len() > 0 {
        transition_facts(s, events[0]);
        lifecycle_never_goes_back(next(s, events[0]).0, events.skip(1));
    }
}

/// The invariant of a run that saw no Stop and no failed report.
spec fn undisturbed(s: Supervisor) -> bool {
    &&& s.well_formed()
    &&& !s.kill_attempted()
    &&& s.child is Alive ==> s.run_state() !is Stopped
}

proof fn undisturbed_run(s: Supervisor, events: Seq<Event>)
    requires
        undisturbed(s),
        no_stop(events),
        no_failed_report(events),
    ensures
        undisturbed(run(s, events)),
    decreases events.len(),
{
    if events.len() > 0 {
        let rest = events.skip(1);
        assert(!is_stop(events[0]));
        assert(events[0] != Event::Reported(false));
        assert forall|i: int| 0 <= i < rest.len() implies !is_stop(#[trigger] rest[i]) by {
            assert(rest[i] == events[i + 1]);
        }
        assert forall|i: int| 0 <= i < rest.len() implies #[trigger] rest[i] != Event::Reported(
            false,
        ) by {
            assert(rest[i] == events[i + 1]);
        }
        undisturbed_run(next(s, events[0]).0, rest);
    }
}

/// As long as no Stop is taken from the control queue and every report
/// goes through, a run never reaches Stopped while its child is alive,
/// whatever else the events are.
pub proof fn without_stop_a_live_child_keeps_the_service_up(process_id: u32, events: Seq<Event>)
    requires
        no_stop(events),
        no_failed_report(events),
    ensures
        run(initial(process_id), events).child is Alive ==> run(
            initial(process_id),
            events,
        ).run_state() !is Stopped,
{
    undisturbed_run(initial(process_id), events);
}

proof fn unkilled_run(s: Supervisor, events: Seq<Event>)
    requires
        s.well_formed(),
        !s.kill_attempted(),
        no_stop(events),
    ensures
        !run(s, events).kill_attempted(),
        forall|i: int| 0 <= i < events.len() ==> !(#[trigger] responses(s, events)[i] is Kill),
        responses(s, events).len() == events.len(),
    decreases events.len(),
{
    if events.len() > 0 {
        let rest = events.skip(1);
        let t = next(s, events[0]).0;
        assert(!is_stop(events[0]));
        transition_facts(s, events[0]);
        assert forall|i: int| 0 <= i < rest.len() implies !is_stop(#[trigger] rest[i]) by {
            assert(rest[i] == events[i + 1]);
        }
        unkilled_run(t, rest);
        assert forall|i: int| 0 <= i < events.len() implies !(#[trigger] responses(
            s,
            events,
        )[i] is Kill) by {
            if i > 0 {
                assert(responses(s, events)[i] == responses(t, rest)[i - 1]);
            }
        }
    }
}

/// A run in which no Stop is taken from the control queue never asks for a
/// kill, and if it comes to its end without error, the recorded cause is the
/// child's own exit.
pub proof fn without_stop_the_child_is_never_killed(process_id: u32, events: Seq<Event>)
    requires
        no_stop(events),
    ensures
        !run(initial(process_id), events).kill_attempted(),
        forall|i: int|
            0 <= i < events.len() ==> !(#[trigger] responses(initial(process_id), events)[i]
                is Kill),
        run(initial(process_id), events).phase is Finished ==> run(
            initial(process_id),
            events,
        ).outcome() != Outcome::Completed(StopCause::OperatorRequested),
        run(initial(process_id), events).phase is Finished && run(
            initial(process_id),
            events,
        ).error is None ==> run(initial(process_id), events).outcome() == Outcome::Completed(
            StopCause::Natural,
        ),
{
    unkilled_run(initial(process_id), events);
    lifecycle_never_goes_back(initial(process_id), events);
}

/// A child that is found to have exited while the machine looks at it leads
/// to the terminal report without any kill, and the run ends with the
/// child's own exit as its cause.
pub proof fn natural_exit_is_reported_without_kill(s: Supervisor)
    requires
        s.well_formed(),
        s.phase is PollingChild,
    ensures
        responses(s, seq![Event::ChildPolled(true), Event::Reported(true)]) == seq![
            Action::Report(stopped_report(EXIT_CLEAN)),
            Action::Finish(Outcome::Completed(StopCause::Natural)),
        ],
        run(s, seq![Event::ChildPolled(true), Event::Reported(true)]) == (Supervisor {
            phase: Phase::Finished,
            child: ChildState::Reaped,
            cause: Some(StopCause::Natural),
            ..s
        }),
        stopped_report(EXIT_CLEAN).state == ServiceState::Stopped,
        !stopped_report(EXIT_CLEAN).accepted.stop,
        !stopped_report(EXIT_CLEAN).accepted.pause_continue,
{
    let first = Event::ChildPolled(true);
    let second = Event::Reported(true);
    let t = next(s, first).0;
    assert(seq![first, second] =~= seq![first] + seq![second]);
    run_cons(s, first, seq![second]);
    run_one(t, second);
    assert(seq![next(s, first).1] + seq![next(t, second).1] =~= seq![
        Action::Report(stopped_report(EXIT_CLEAN)),
        Action::Finish(Outcome::Completed(StopCause::Natural)),
    ]);
}

/// Pauses and Continues do not count: a run ends in the same state with
/// them as without them, so neither the outcome nor the child's fate
/// depends on how many there were. Each is answered by a notice, or by
/// nothing where the machine was not looking at the control queue.
pub proof fn pause_and_continue_change_nothing(s: Supervisor, events: Seq<Event>)
    ensures
        run(s, events) == run(s, without_notices(events)),
        responses(s, events).len() == events.len(),
        forall|i: int|
            0 <= i < events.len() && is_notice(events[i]) ==> (#[trigger] responses(s, events)[i]
                is Notice) || (responses(s, events)[i] is Ignore),
    decreases events.len(),
{
    if events.len() > 0 {
        let rest = events.skip(1);
        let t = next(s, events[0]).0;
        pause_and_continue_change_nothing(t, rest);
        if is_notice(events[0]) {
            assert(t == s);
        } else {
            run_cons(s, events[0], without_notices(rest));
        }
        assert forall|i: int| 0 <= i < events.len() && is_notice(events[i]) implies (
        #[trigger] responses(s, events)[i] is Notice) || (responses(s, events)[i] is Ignore) by {
            if i > 0 {
                assert(responses(s, events)[i] == responses(t, rest)[i - 1]);
                assert(rest[i - 1] == events[i]);
            }
        }
    }
}

/// Whether a Stop is among the pending control events.
pub open spec fn stop_pending(pending: Seq<ControlEvent>) -> bool {
    exists|i: int| 0 <= i < pending.len() && #[trigger] pending[i] is Stop
}

/// The tie-break of a poll. When a Stop is pending, the poll ends with the
/// kill asked for and the operator's request recorded as the cause, whether
/// or not the child has exited by itself. Without a Stop, an exited child
/// ends the poll with the terminal report asked for and its own exit as the
/// cause, and a live child leaves the machine where it was.
pub proof fn stop_takes_precedence(s: Supervisor, pending: Seq<ControlEvent>, exited: bool)
    requires
        s.well_formed(),
        s.phase is PollingControl,
    ensures
        run(s, poll_events(pending, exited)) == if stop_pending(pending) {
            Supervisor { phase: Phase::Killing, cause: Some(StopCause::OperatorRequested), ..s }
        } else if exited {
            Supervisor {
                phase: Phase::Stopping,
                child: ChildState::Reaped,
                cause: Some(StopCause::Natural),
                ..s
            }
        } else {
            s
        },
    decreases pending.len(),
{
    if pending.len() == 0 {
        let first = Event::Control(None);
        let t = next(s, first).0;
        if exited {
            let second = Event::ChildPolled(true);
            assert(seq![first, second] =~= seq![first] + seq![second]);
            run_cons(s, first, seq![second]);
            run_one(t, second);
        } else {
            let second = Event::ChildPolled(false);
            let u = next(t, second).0;
            assert(seq![first, second, Event::Slept] =~= seq![first] + (seq![second]
                + seq![Event::Slept]));
            run_cons(s, first, seq![second] + seq![Event::Slept]);
            run_cons(t, second, seq![Event::Slept]);
            run_one(u, Event::Slept);
        }
    } else if pending[0] is Stop {
        run_one(s, Event::Control(Some(ControlEvent::Stop)));
        assert(pending[0] == ControlEvent::Stop);
    } else {
        let rest = pending.skip(1);
        let first = Event::Control(Some(pending[0]));
        assert(next(s, first).0 == s);
        run_cons(s, first, poll_events(rest, exited));
        stop_takes_precedence(s, rest, exited);
        if stop_pending(pending) {
            let i = choose|i: int| 0 <= i < pending.len() && #[trigger] pending[i] is Stop;
            assert(rest[i - 1] is Stop);
        }
        if stop_pending(rest) {
            let i = choose|i: int| 0 <= i < rest.len() && #[trigger] rest[i] is Stop;
            assert(pending[i + 1] is Stop);
        }
    }
}

/// A Stop is pending exactly when the walk through the control queue meets
/// one before the queue is empty.
pub proof fn pending_stop_is_met(pending: Seq<ControlEvent>)
    ensures
        stop_pending(pending) <==> notices_ahead(pending) < pending.len(),
{
    notices_ahead_bounded(pending);
    if notices_ahead(pending) < pending.len() {
        assert(pending[notices_ahead(pending)] is Stop);
    }
}

/// After a Stop was taken from the control queue the run goes on to its end
/// by the Stop path: kill, wait, terminal report. A kill that is reported
/// as failed changes neither the actions nor the outcome.
pub proof fn operator_stop_runs_to_completion(s: Supervisor, killed: bool)
    requires
        s.well_formed(),
        s.phase is PollingControl,
    ensures
        responses(
            s,
            seq![
                Event::Control(Some(ControlEvent::Stop)),
                Event::Killed(killed),
                Event::Reaped,
                Event::Reported(true),
            ],
        ) == seq![
            Action::Kill,
            Action::Reap,
            Action::Report(stopped_report(EXIT_CLEAN)),
            Action::Finish(Outcome::Completed(StopCause::OperatorRequested)),
        ],
        run(
            s,
            seq![
                Event::Control(Some(ControlEvent::Stop)),
                Event::Killed(killed),
                Event::Reaped,
                Event::Reported(true),
            ],
        ) == (Supervisor {
            phase: Phase::Finished,
            child: ChildState::Reaped,
            cause: Some(StopCause::OperatorRequested),
            kill_failed: !killed,
            ..s
        }),
{
    let e1 = Event::Control(Some(ControlEvent::Stop));
    let e2 = Event::Killed(killed);
    let e3 = Event::Reaped;
    let e4 = Event::Reported(true);
    let s1 = next(s, e1).0;
    let s2 = next(s1, e2).0;
    let s3 = next(s2, e3).0;
    assert(seq![e1, e2, e3, e4] =~= seq![e1] + (seq![e2] + (seq![e3] + seq![e4])));
    run_cons(s, e1, seq![e2] + (seq![e3] + seq![e4]));
    run_cons(s1, e2, seq![e3] + seq![e4]);
    run_cons(s2, e3, seq![e4]);
    run_one(s3, e4);
    assert(seq![next(s, e1).1] + (seq![next(s1, e2).1] + (seq![next(s2, e3).1] + seq![
        next(s3, e4).1,
    ])) =~= seq![
        Action::Kill,
        Action::Reap,
        Action::Report(stopped_report(EXIT_CLEAN)),
        Action::Finish(Outcome::Completed(StopCause::OperatorRequested)),
    ]);
}

proof fn child_effects_counted(s: Supervisor, events: Seq<Event>)
    requires
        s.well_formed(),
    ensures
        spawns(responses(s, events)) + (if spawn_requested(s) {
            1nat
        } else {
            0nat
        }) == (if spawn_requested(run(s, events)) {
            1nat
        } else {
            0nat
        }),
        kills(responses(s, events)) + (if s.kill_attempted() {
            1nat
        } else {
            0nat
        }) == (if run(s, events).kill_attempted() {
            1nat
        } else {
            0nat
        }),
    decreases events.len(),
{
    if events.len() == 0 {
        assert(responses(s, events).len() == 0);
    } else {
        let t = next(s, events[0]).0;
        let rest = events.skip(1);
        transition_facts(s, events[0]);
        child_effects_counted(t, rest);
        let actions = responses(s, events);
        assert(actions[0] == next(s, events[0]).1);
        assert(actions.skip(1) =~= responses(t, rest));
    }
}

/// There is at most one child in a run: its launch is asked for at most
/// once, its kill at most once, and a kill only after the launch.
pub proof fn the_child_is_launched_and_killed_at_most_once(process_id: u32, events: Seq<Event>)
    ensures
        spawns(responses(initial(process_id), events)) <= 1,
        kills(responses(initial(process_id), events)) <= spawns(
            responses(initial(process_id), events),
        ),
{
    child_effects_counted(initial(process_id), events);
    lifecycle_never_goes_back(initial(process_id), events);
    transition_facts(run(initial(process_id), events), Event::Slept);
}

/// A child that was reaped is never touched again: whatever follows, the
/// machine only ends the run or ignores the event.
pub proof fn a_reaped_child_is_left_alone(s: Supervisor, events: Seq<Event>)
    requires
        s.well_formed(),
        s.child is Reaped,
    ensures
        run(s, events).child is Reaped,
        responses(s, events).len() == events.len(),
        forall|i: int|
            0 <= i < events.len() ==> (#[trigger] responses(s, events)[i] is Finish) || (responses(
                s,
                events,
            )[i] is Ignore),
    decreases events.len(),
{
    if events.len() > 0 {
        let t = next(s, events[0]).0;
        let rest = events.skip(1);
        transition_facts(s, events[0]);
        a_reaped_child_is_left_alone(t, rest);
        assert forall|i: int| 0 <= i < events.len() implies (#[trigger] responses(s, events)[i]
            is Finish) || (responses(s, events)[i] is Ignore) by {
            if i > 0 {
                assert(responses(s, events)[i] == responses(t, rest)[i - 1]);
            }
        }
    }
}

proof fn terminal_reports_counted(s: Supervisor, events: Seq<Event>)
    requires
        s.well_formed(),
    ensures
        terminal_reports(responses(s, events)) + (if s.stopped_report_requested() {
            1nat
        } else {
            0nat
        }) == (if run(s, events).stopped_report_requested() {
            1nat
        } else {
            0nat
        }),
    decreases events.len(),
{
    if events.len() == 0 {
        assert(responses(s, events).len() == 0);
    } else {
        let t = next(s, events[0]).0;
        let rest = events.skip(1);
        transition_facts(s, events[0]);
        terminal_reports_counted(t, rest);
        let actions = responses(s, events);
        assert(actions[0] == next(s, events[0]).1);
        assert(actions.skip(1) =~= responses(t, rest));
    }
}

/// The terminal report is asked for at most once in a run, and exactly once
/// in every run that comes to its end after the registration succeeded,
/// by whatever path.
pub proof fn terminal_report_is_requested_once(process_id: u32, events: Seq<Event>)
    ensures
        terminal_reports(responses(initial(process_id), events)) <= 1,
        run(initial(process_id), events).phase is Finished && run(
            initial(process_id),
            events,
        ).outcome() != Outcome::Failed(ServiceError::Registration)
            ==> terminal_reports(responses(initial(process_id), events)) == 1,
{
    terminal_reports_counted(initial(process_id), events);
    lifecycle_never_goes_back(initial(process_id), events);
}

} // verus!
