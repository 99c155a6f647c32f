//! The run loop of the service as a state machine.
//!
//! The machine performs nothing itself. It answers every event with the next
//! action; whoever drives it performs the action and hands back the event
//! that tells how the action went.

use vstd::prelude::*;
use crate::control::{ControlEvent, ControlQueue};
use crate::status::{
    running_report, start_pending_report, stopped_report, ServiceStatusReport, EXIT_CLEAN,
    EXIT_REPORT_FAILED, EXIT_SPAWN_FAILED,
};

verus! {

/// Seconds between two polls while neither a Stop nor the child's exit was seen.
pub const POLL_INTERVAL_SECS: u64 = 1;

/// Which answer the machine is waiting for.
#[derive(Clone, Copy, Debug, PartialEq, Eq)]
pub enum Phase {
    /// Nothing was asked for yet.
    Idle,
    /// The registration of the control handler is outstanding.
    Registering,
    /// The report that the service is starting is outstanding.
    Starting,
    /// The launch of the child command is outstanding.
    Spawning,
    /// The report that the service is running is outstanding.
    Announcing,
    /// A look at the control queue is outstanding.
    PollingControl,
    /// A look at the child is outstanding.
    PollingChild,
    /// The pause between two polls is outstanding.
    Sleeping,
    /// The kill of the child is outstanding.
    Killing,
    /// The wait for the killed child is outstanding.
    Reaping,
    /// The terminal report is outstanding.
    Stopping,
    /// The run is over.
    Finished,
}

/// The three states of the service lifecycle.
#[derive(Clone, Copy, Debug, PartialEq, Eq)]
pub enum RunState {
    Starting,
    Running,
    Stopped,
}

/// What the machine knows of the child process.
#[derive(Clone, Copy, Debug, PartialEq, Eq)]
pub enum ChildState {
    NotSpawned,
    Alive,
    Reaped,
}

/// Why a run came to its end without error.
#[derive(Clone, Copy, Debug, PartialEq, Eq)]
pub enum StopCause {
    /// The child command ended by itself.
    Natural,
    /// A Stop was received and the child was killed.
    OperatorRequested,
}

/// The fatal errors of a run. A failed kill is none: it is only recorded.
#[derive(Clone, Copy, Debug, PartialEq, Eq)]
pub enum ServiceError {
    Registration,
    Spawn,
    Report,
}

/// How a run ended.
#[derive(Clone, Copy, Debug, PartialEq, Eq)]
pub enum Outcome {
    Completed(StopCause),
    Failed(ServiceError),
}

/// What happened outside, as told to the machine. A `bool` says whether the
/// action succeeded.
#[derive(Clone, Copy, Debug, PartialEq, Eq)]
pub enum Event {
    /// The service control manager started the process.
    Launched,
    Registered(bool),
    Reported(bool),
    Spawned(bool),
    /// What the control queue held at its head, if anything.
    Control(Option<ControlEvent>),
    /// Whether the child was found to have exited.
    ChildPolled(bool),
    Slept,
    Killed(bool),
    Reaped,
}

/// What the driver is to do next.
#[derive(Clone, Copy, Debug, PartialEq, Eq)]
pub enum Action {
    /// Register the control handler; answer with `Registered`.
    Register,
    /// Send the report; answer with `Reported`.
    Report(ServiceStatusReport),
    /// Launch the child command; answer with `Spawned`.
    Spawn,
    /// Take the head of the control queue without waiting; answer with `Control`.
    PollControl,
    /// Ask without waiting whether the child has exited; answer with `ChildPolled`.
    PollChild,
    /// Sleep for that many seconds; answer with `Slept`.
    Sleep(u64),
    /// Kill the child; answer with `Killed`.
    Kill,
    /// Wait for the killed child; answer with `Reaped`.
    Reap,
    /// Surface a notice about the event, then take the head of the control
    /// queue again; answer with `Control`.
    Notice(ControlEvent),
    /// Return the outcome to the caller. Nothing is to be answered.
    Finish(Outcome),
    /// The event was no answer to what is outstanding: do nothing for it.
    Ignore,
}

/// The state of one service run.
#[derive(Clone, Copy, Debug, PartialEq, Eq)]
pub struct Supervisor {
    pub phase: Phase,
    pub child: ChildState,
    pub cause: Option<StopCause>,
    pub error: Option<ServiceError>,
    /// Whether the kill of the child was reported as failed.
    pub kill_failed: bool,
    /// The service's own process id, named in its reports.
    pub process_id: u32,
}

/// Whether the event is a Pause or a Continue taken from the control queue.
pub open spec fn is_notice(event: Event) -> bool {
    event == Event::Control(Some(ControlEvent::Pause)) || event == Event::Control(
        Some(ControlEvent::Continue),
    )
}

/// Whether the event is a Stop taken from the control queue.
pub open spec fn is_stop(event: Event) -> bool {
    event == Event::Control(Some(ControlEvent::Stop))
}

/// The state before anything happened.
pub open spec fn initial(process_id: u32) -> Supervisor {
    Supervisor {
        phase: Phase::Idle,
        child: ChildState::NotSpawned,
        cause: None,
        error: None,
        kill_failed: false,
        process_id,
    }
}

/// The state in which the terminal report is outstanding after `error`.
pub open spec fn failing(s: Supervisor, error: ServiceError) -> Supervisor {
    Supervisor { phase: Phase::Stopping, error: Some(error), ..s }
}

/// The transition function: the state after `event` and the action that answers it.
///
/// An event that does not answer what is outstanding changes nothing and is
/// answered with `Ignore`. A Pause or a Continue never changes the state.
pub open spec fn next(s: Supervisor, event: Event) -> (Supervisor, Action) {
    match (s.phase, event) {
        (Phase::Idle, Event::Launched) => (
            Supervisor { phase: Phase::Registering, ..s },
            Action::Register,
        ),
        (Phase::Registering, Event::Registered(true)) => (
            Supervisor { phase: Phase::Starting, ..s },
            Action::Report(start_pending_report(s.process_id)),
        ),
        (Phase::Registering, Event::Registered(false)) => (
            Supervisor { phase: Phase::Finished, error: Some(ServiceError::Registration), ..s },
            Action::Finish(Outcome::Failed(ServiceError::Registration)),
        ),
        (Phase::Starting, Event::Reported(true)) => (
            Supervisor { phase: Phase::Spawning, ..s },
            Action::Spawn,
        ),
        (Phase::Starting, Event::Reported(false)) => (
            failing(s, ServiceError::Report),
            Action::Report(stopped_report(EXIT_REPORT_FAILED)),
        ),
        (Phase::Spawning, Event::Spawned(true)) => (
            Supervisor { phase: Phase::Announcing, child: ChildState::Alive, ..s },
            Action::Report(running_report(s.process_id)),
        ),
        (Phase::Spawning, Event::Spawned(false)) => (
            failing(s, ServiceError::Spawn),
            Action::Report(stopped_report(EXIT_SPAWN_FAILED)),
        ),
        (Phase::Announcing, Event::Reported(true)) => (
            Supervisor { phase: Phase::PollingControl, ..s },
            Action::PollControl,
        ),
        (Phase::Announcing, Event::Reported(false)) => (
            failing(s, ServiceError::Report),
            Action::Report(stopped_report(EXIT_REPORT_FAILED)),
        ),
        (Phase::PollingControl, Event::Control(Some(ControlEvent::Stop))) => (
            Supervisor { phase: Phase::Killing, cause: Some(StopCause::OperatorRequested), ..s },
            Action::Kill,
        ),
        (Phase::PollingControl, Event::Control(Some(notice))) => (s, Action::Notice(notice)),
        (Phase::PollingControl, Event::Control(None)) => (
            Supervisor { phase: Phase::PollingChild, ..s },
            Action::PollChild,
        ),
        (Phase::PollingChild, Event::ChildPolled(true)) => (
            Supervisor {
                phase: Phase::Stopping,
                child: ChildState::Reaped,
                cause: Some(StopCause::Natural),
                ..s
            },
            Action::Report(stopped_report(EXIT_CLEAN)),
        ),
        (Phase::PollingChild, Event::ChildPolled(false)) => (
            Supervisor { phase: Phase::Sleeping, ..s },
            Action::Sleep(POLL_INTERVAL_SECS),
        ),
        (Phase::Sleeping, Event::Slept) => (
            Supervisor { phase: Phase::PollingControl, ..s },
            Action::PollControl,
        ),
        (Phase::Killing, Event::Killed(done)) => (
            Supervisor { phase: Phase::Reaping, kill_failed: !done, ..s },
            Action::Reap,
        ),
        (Phase::Reaping, Event::Reaped) => (
            Supervisor { phase: Phase::Stopping, child: ChildState::Reaped, ..s },
            Action::Report(stopped_report(EXIT_CLEAN)),
        ),
        (Phase::Stopping, Event::Reported(sent)) => {
            let error = if s.error is None && !sent {
                Some(ServiceError::Report)
            } else {
                s.error
            };
            let t = Supervisor { phase: Phase::Finished, error, ..s };
            (t, Action::Finish(t.outcome()))
        },
        _ => (s, Action::Ignore),
    }
}

impl Supervisor {
    /// What holds of every state that a run can reach.
    pub open spec fn well_formed(self) -> bool {
        let clean = self.error is None && !self.kill_failed;
        let stopped_clean = self.cause is Some && self.child is Reaped && (self.kill_failed
            ==> self.cause == Some(StopCause::OperatorRequested));
        let stopped_failed = self.cause is None && !self.kill_failed && self.child !is Reaped && (
        self.error == Some(ServiceError::Spawn) ==> self.child is NotSpawned);
        match self.phase {
            Phase::Idle | Phase::Registering | Phase::Starting | Phase::Spawning => {
                clean && self.child is NotSpawned && self.cause is None
            },
            Phase::Announcing | Phase::PollingControl | Phase::PollingChild | Phase::Sleeping => {
                clean && self.child is Alive && self.cause is None
            },
            Phase::Killing => {
                clean && self.child is Alive && self.cause == Some(StopCause::OperatorRequested)
            },
            Phase::Reaping => {
                self.error is None && self.child is Alive && self.cause == Some(
                    StopCause::OperatorRequested,
                )
            },
            Phase::Stopping => {
                match self.error {
                    None => stopped_clean,
                    Some(ServiceError::Registration) => false,
                    Some(_) => stopped_failed,
                }
            },
            Phase::Finished => {
                match self.error {
                    None => stopped_clean,
                    Some(ServiceError::Registration) => {
                        self.cause is None && !self.kill_failed && self.child is NotSpawned
                    },
                    Some(ServiceError::Spawn) => stopped_failed,
                    Some(ServiceError::Report) => stopped_failed || stopped_clean,
                }
            },
        }
    }

    /// The lifecycle state that the phase belongs to.
    pub open spec fn run_state(self) -> RunState {
        match self.phase {
            Phase::Idle | Phase::Registering | Phase::Starting | Phase::Spawning => {
                RunState::Starting
            },
            Phase::Stopping | Phase::Finished => RunState::Stopped,
            _ => RunState::Running,
        }
    }

    /// Whether a kill of the child was ever asked for.
    pub open spec fn kill_attempted(self) -> bool {
        self.cause == Some(StopCause::OperatorRequested)
    }

    /// Whether the terminal report was ever asked for.
    pub open spec fn stopped_report_requested(self) -> bool {
        self.run_state() is Stopped && self.error != Some(ServiceError::Registration)
    }

    /// How the run ended, for a state whose run is over; the first fatal
    /// error if there was one, else the cause of the stop.
    pub open spec fn outcome(self) -> Outcome {
        match self.error {
            Some(error) => Outcome::Failed(error),
            None => match self.cause {
                Some(cause) => Outcome::Completed(cause),
                None => Outcome::Failed(ServiceError::Report),
            },
        }
    }

    /// The machine before anything happened.
    pub fn new(process_id: u32) -> (s: Self)
        ensures
            s == initial(process_id),
            s.well_formed(),
    {
        Supervisor {
            phase: Phase::Idle,
            child: ChildState::NotSpawned,
            cause: None,
            error: None,
            kill_failed: false,
            process_id,
        }
    }

    /// Tests [`Supervisor::well_formed`], for callers that cannot prove it.
    pub fn is_well_formed(&self) -> (ok: bool)
        ensures
            ok == self.well_formed(),
    {
        let clean = self.error.is_none() && !self.kill_failed;
        let killed = matches!(self.cause, Some(StopCause::OperatorRequested));
        let reaped = matches!(self.child, ChildState::Reaped);
        let stopped_clean = self.cause.is_some() && reaped && (!self.kill_failed || killed);
        let spawn_failed = matches!(self.error, Some(ServiceError::Spawn));
        let stopped_failed = self.cause.is_none() && !self.kill_failed && !reaped && (!spawn_failed
            || matches!(self.child, ChildState::NotSpawned));
        match self.phase {
            Phase::Idle | Phase::Registering | Phase::Starting | Phase::Spawning => {
                clean && matches!(self.child, ChildState::NotSpawned) && self.cause.is_none()
            },
            Phase::Announcing | Phase::PollingControl | Phase::PollingChild | Phase::Sleeping => {
                clean && matches!(self.child, ChildState::Alive) && self.cause.is_none()
            },
            Phase::Killing => clean && matches!(self.child, ChildState::Alive) && killed,
            Phase::Reaping => {
                self.error.is_none() && matches!(self.child, ChildState::Alive) && killed
            },
            Phase::Stopping => match self.error {
                None => stopped_clean,
                Some(ServiceError::Registration) => false,
                Some(_) => stopped_failed,
            },
            Phase::Finished => match self.error {
                None => stopped_clean,
                Some(ServiceError::Registration) => {
                    self.cause.is_none() && !self.kill_failed && matches!(
                        self.child,
                        ChildState::NotSpawned
                    )
                },
                Some(ServiceError::Spawn) => stopped_failed,
                Some(ServiceError::Report) => stopped_failed || stopped_clean,
            },
        }
    }

    /// The lifecycle state of the run.
    pub fn state(&self) -> (state: RunState)
        ensures
            state == self.run_state(),
    {
        match self.phase {
            Phase::Idle | Phase::Registering | Phase::Starting | Phase::Spawning => {
                RunState::Starting
            },
            Phase::Stopping | Phase::Finished => RunState::Stopped,
            _ => RunState::Running,
        }
    }

    /// The outcome of the run: `Some` exactly when the run is over.
    pub fn result(&self) -> (result: Option<Outcome>)
        ensures
            result == if self.phase is Finished {
                Some(self.outcome())
            } else {
                None
            },
    {
        match self.phase {
            Phase::Finished => Some(self.finished_outcome()),
            _ => None,
        }
    }

    fn finished_outcome(&self) -> (outcome: Outcome)
        ensures
            outcome == self.outcome(),
    {
        match self.error {
            Some(error) => Outcome::Failed(error),
            None => match self.cause {
                Some(cause) => Outcome::Completed(cause),
                None => Outcome::Failed(ServiceError::Report),
            },
        }
    }

    fn fail(&mut self, error: ServiceError) -> (action: Action)
        ensures
            *final(self) == failing(*old(self), error),
            action == Action::Report(
                stopped_report(
                    if error == ServiceError::Spawn {
                        EXIT_SPAWN_FAILED
                    } else {
                        EXIT_REPORT_FAILED
                    },
                ),
            ),
    {
        self.phase = Phase::Stopping;
        self.error = Some(error);
        let code: u32 = match error {
            ServiceError::Spawn => EXIT_SPAWN_FAILED,
            _ => EXIT_REPORT_FAILED,
        };
        Action::Report(ServiceStatusReport::stopped(code))
    }

    /// Takes one event and answers with the next action.
    ///
    /// The new state and the action are those of [`next`]. Along a run the
    /// lifecycle state never goes back, a kill is asked for at most once and
    /// only on a Stop, and the terminal report is asked for at most once.
    pub fn step(&mut self, event: Event) -> (action: Action)
        requires
            old(self).well_formed(),
        ensures
            (*final(self), action) == next(*old(self), event),
            final(self).well_formed(),
            final(self).process_id == old(self).process_id,
            rank(final(self).run_state()) >= rank(old(self).run_state()),
            action is Kill <==> !old(self).kill_attempted() && final(self).kill_attempted(),
            action is Kill ==> is_stop(event),
            (action matches Action::Report(report) && report.state is Stopped) <==> (!old(
                self,
            ).stopped_report_requested() && final(self).stopped_report_requested()),
            old(self).kill_attempted() ==> final(self).kill_attempted(),
            old(self).stopped_report_requested() ==> final(self).stopped_report_requested(),
            action is Finish <==> old(self).phase !is Finished && final(self).phase is Finished,
    {
        match self.phase {
            Phase::Idle => match event {
                Event::Launched => {
                    self.phase = Phase::Registering;
                    Action::Register
                },
                _ => Action::Ignore,
            },
            Phase::Registering => match event {
                Event::Registered(true) => {
                    self.phase = Phase::Starting;
                    Action::Report(ServiceStatusReport::start_pending(self.process_id))
                },
                Event::Registered(false) => {
                    self.phase = Phase::Finished;
                    self.error = Some(ServiceError::Registration);
                    Action::Finish(Outcome::Failed(ServiceError::Registration))
                },
                _ => Action::Ignore,
            },
            Phase::Starting => match event {
                Event::Reported(true) => {
                    self.phase = Phase::Spawning;
                    Action::Spawn
                },
                Event::Reported(false) => self.fail(ServiceError::Report),
                _ => Action::Ignore,
            },
            Phase::Spawning => match event {
                Event::Spawned(true) => {
                    self.phase = Phase::Announcing;
                    self.child = ChildState::Alive;
                    Action::Report(ServiceStatusReport::running(self.process_id))
                },
                Event::Spawned(false) => self.fail(ServiceError::Spawn),
                _ => Action::Ignore,
            },
            Phase::Announcing => match event {
                Event::Reported(true) => {
                    self.phase = Phase::PollingControl;
                    Action::PollControl
                },
                Event::Reported(false) => self.fail(ServiceError::Report),
                _ => Action::Ignore,
            },
            Phase::PollingControl => match event {
                Event::Control(Some(ControlEvent::Stop)) => {
                    self.phase = Phase::Killing;
                    self.cause = Some(StopCause::OperatorRequested);
                    Action::Kill
                },
                Event::Control(Some(notice)) => Action::Notice(notice),
                Event::Control(None) => {
                    self.phase = Phase::PollingChild;
                    Action::PollChild
                },
                _ => Action::Ignore,
            },
            Phase::PollingChild => match event {
                Event::ChildPolled(true) => {
                    self.phase = Phase::Stopping;
                    self.child = ChildState::Reaped;
                    self.cause = Some(StopCause::Natural);
                    Action::Report(ServiceStatusReport::stopped(EXIT_CLEAN))
                },
                Event::ChildPolled(false) => {
                    self.phase = Phase::Sleeping;
                    Action::Sleep(POLL_INTERVAL_SECS)
                },
                _ => Action::Ignore,
            },
            Phase::Sleeping => match event {
                Event::Slept => {
                    self.phase = Phase::PollingControl;
                    Action::PollControl
                },
                _ => Action::Ignore,
            },
            Phase::Killing => match event {
                Event::Killed(done) => {
                    self.phase = Phase::Reaping;
                    self.kill_failed = !done;
                    Action::Reap
                },
                _ => Action::Ignore,
            },
            Phase::Reaping => match event {
                Event::Reaped => {
                    self.phase = Phase::Stopping;
                    self.child = ChildState::Reaped;
                    Action::Report(ServiceStatusReport::stopped(EXIT_CLEAN))
                },
                _ => Action::Ignore,
            },
            Phase::Stopping => match event {
                Event::Reported(sent) => {
                    self.phase = Phase::Finished;
                    if !sent {
                        match self.error {
                            None => {
                                self.error = Some(ServiceError::Report);
                            },
                            Some(_) => {},
                        }
                    }
                    Action::Finish(self.finished_outcome())
                },
                _ => Action::Ignore,
            },
            Phase::Finished => Action::Ignore,
        }
    }
}

/// How many of the pending events stand before the first Stop: all of them
/// where no Stop is pending.
pub open spec fn notices_ahead(pending: Seq<ControlEvent>) -> int
    decreases pending.len(),
{
    if pending.len() == 0 || pending[0] is Stop {
        0
    } else {
        1 + notices_ahead(pending.skip(1))
    }
}

/// Events without a Stop in front of any events push the first Stop back by
/// their number.
pub proof fn notices_ahead_of_prefix(prefix: Seq<ControlEvent>, rest: Seq<ControlEvent>)
    requires
        forall|i: int| 0 <= i < prefix.len() ==> !(#[trigger] prefix[i] is Stop),
    ensures
        notices_ahead(prefix + rest) == prefix.len() + notices_ahead(rest),
        notices_ahead(prefix + rest) <= (prefix + rest).len(),
    decreases prefix.len(),
{
    let whole = prefix + rest;
    if prefix.len() == 0 {
        assert(whole =~= rest);
        notices_ahead_bounded(rest);
    } else {
        assert(whole[0] == prefix[0]);
        assert(whole.skip(1) =~= prefix.skip(1) + rest);
        assert forall|i: int| 0 <= i < prefix.skip(1).len() implies !(#[trigger] prefix.skip(
            1,
        )[i] is Stop) by {
            assert(prefix.skip(1)[i] == prefix[i + 1]);
        }
        notices_ahead_of_prefix(prefix.skip(1), rest);
    }
}

/// The first Stop, if there is one, stands where the notices end.
pub proof fn notices_ahead_bounded(pending: Seq<ControlEvent>)
    ensures
        0 <= notices_ahead(pending) <= pending.len(),
        notices_ahead(pending) < pending.len() ==> pending[notices_ahead(pending)] is Stop,
        forall|i: int| 0 <= i < notices_ahead(pending) ==> !(#[trigger] pending[i] is Stop),
    decreases pending.len(),
{
    if pending.len() > 0 && !(pending[0] is Stop) {
        let rest = pending.skip(1);
        notices_ahead_bounded(rest);
        assert forall|i: int| 0 <= i < notices_ahead(pending) implies !(#[trigger] pending[i]
            is Stop) by {
            if i > 0 {
                assert(pending[i] == rest[i - 1]);
            }
        }
        if notices_ahead(pending) < pending.len() {
            assert(pending[notices_ahead(pending)] == rest[notices_ahead(rest)]);
        }
    }
}

impl Supervisor {
    /// The control half of one poll: takes events from the queue, oldest
    /// first, until a Stop is met or the queue is empty.
    ///
    /// The Pauses and Continues met on the way are handed back, in order, to
    /// be surfaced as notices; they change nothing. A Stop ends the walk with
    /// the kill asked for, whatever the child has done meanwhile, and leaves
    /// what was queued behind it. An empty queue ends the walk with the look
    /// at the child asked for.
    pub fn poll_control(&mut self, queue: &mut ControlQueue) -> (answer: (Action, Vec<ControlEvent>))
        requires
            old(self).well_formed(),
            old(self).phase is PollingControl,
        ensures
            final(self).well_formed(),
            answer.1@ == old(queue)@.take(notices_ahead(old(queue)@)),
            notices_ahead(old(queue)@) < old(queue)@.len() ==> {
                &&& answer.0 == Action::Kill
                &&& *final(self) == (Supervisor {
                    phase: Phase::Killing,
                    cause: Some(StopCause::OperatorRequested),
                    ..*old(self)
                })
                &&& final(queue)@ == old(queue)@.skip(notices_ahead(old(queue)@) + 1)
            },
            notices_ahead(old(queue)@) >= old(queue)@.len() ==> {
                &&& answer.0 == Action::PollChild
                &&& *final(self) == (Supervisor { phase: Phase::PollingChild, ..*old(self) })
                &&& final(queue)@ == Seq::<ControlEvent>::empty()
            },
    {
        let mut notices: Vec<ControlEvent> = Vec::new();
        assert(old(queue)@ =~= notices@ + queue@);
        loop
            invariant
                *self == *old(self),
                self.well_formed(),
                self.phase is PollingControl,
                old(queue)@ == notices@ + queue@,
                forall|i: int| 0 <= i < notices@.len() ==> !(#[trigger] notices@[i] is Stop),
            decreases queue@.len(),
        {
            let ghost seen = notices@;
            let ghost rest = queue@;
            let head = queue.take();
            let action = self.step(Event::Control(head));
            match action {
                Action::Notice(notice) => {
                    notices.push(notice);
                    assert(old(queue)@ =~= notices@ + queue@);
                },
                _ => {
                    proof {
                        notices_ahead_of_prefix(seen, rest);
                        assert(old(queue)@.take(seen.len() as int) =~= seen);
                        if head is Some {
                            assert(rest[0] is Stop);
                            assert(old(queue)@.skip(seen.len() as int + 1) =~= rest.skip(1));
                        } else {
                            assert(queue@ =~= Seq::<ControlEvent>::empty());
                        }
                    }
                    return (action, notices);
                },
            }
        }
    }
}

/// Feeds a whole run of events to the machine and collects its answers.
pub fn replay(supervisor: &mut Supervisor, events: &Vec<Event>) -> (actions: Vec<Action>)
    requires
        old(supervisor).well_formed(),
    ensures
        *final(supervisor) == run(*old(supervisor), events@),
        actions@ == responses(*old(supervisor), events@),
        final(supervisor).well_formed(),
{
    let mut actions: Vec<Action> = Vec::new();
    let mut i: usize = 0;
    assert(events@.skip(0) =~= events@);
    while i < events.len()
        invariant
            i <= events.len(),
            supervisor.well_formed(),
            run(*old(supervisor), events@) == run(*supervisor, events@.skip(i as int)),
            responses(*old(supervisor), events@) == actions@ + responses(
                *supervisor,
                events@.skip(i as int),
            ),
        decreases events.len() - i,
    {
        let ghost before = *supervisor;
        let ghost rest = events@.skip(i as int);
        let action = supervisor.step(events[i]);
        actions.push(action);
        proof {
            assert(rest[0] == events@[i as int]);
            assert(rest.skip(1) =~= events@.skip(i + 1));
            assert(actions@ + responses(*supervisor, rest.skip(1)) =~= actions@.drop_last() + (
            seq![action] + responses(*supervisor, rest.skip(1))));
        }
        i = i + 1;
    }
    proof {
        assert(events@.skip(i as int).len() == 0);
        assert(actions@ + Seq::<Action>::empty() =~= actions@);
    }
    actions
}

/// The place of a lifecycle state in the order Starting, Running, Stopped.
pub open spec fn rank(state: RunState) -> int {
    match state {
        RunState::Starting => 0,
        RunState::Running => 1,
        RunState::Stopped => 2,
    }
}

/// The state after a run of events, taken one after the other.
pub open spec fn run(s: Supervisor, events: Seq<Event>) -> Supervisor
    decreases events.len(),
{
    if events.len() == 0 {
        s
    } else {
        run(next(s, events[0]).0, events.skip(1))
    }
}

/// The actions that answer a run of events, in order.
pub open spec fn responses(s: Supervisor, events: Seq<Event>) -> Seq<Action>
    decreases events.len(),
{
    if events.len() == 0 {
        Seq::<Action>::empty()
    } else {
        seq![next(s, events[0]).1] + responses(next(s, events[0]).0, events.skip(1))
    }
}

} // verus!
