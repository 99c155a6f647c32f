use service_supervisor::config::ServiceConfig;
use service_supervisor::control::{ControlQueue, ControlRequest};
use service_supervisor::status::{AcceptedControls, ServiceState, ServiceStatusReport};
use service_supervisor::supervisor::{Action, Event, Outcome, RunState, StopCause, Supervisor};

/// What a simulated run left behind.
struct Record {
    outcome: Outcome,
    reports: Vec<ServiceStatusReport>,
    states: Vec<RunState>,
    registered: Vec<String>,
    spawned: Vec<Vec<String>>,
    kills: usize,
    waits: usize,
    polls: usize,
    slept_secs: u64,
    notices: usize,
}

/// Drives the machine against a simulated child that is found alive for
/// `lifetime` polls, with the requests of `deliveries` arriving just before
/// the poll of the given number.
fn simulate(config: &ServiceConfig, lifetime: usize, deliveries: &[(usize, ControlRequest)]) -> Record {
    let mut queue = ControlQueue::new();
    let mut supervisor = Supervisor::new(100);
    let mut record = Record {
        outcome: Outcome::Completed(StopCause::Natural),
        reports: Vec::new(),
        states: vec![supervisor.state()],
        registered: Vec::new(),
        spawned: Vec::new(),
        kills: 0,
        waits: 0,
        polls: 0,
        slept_secs: 0,
        notices: 0,
    };
    let mut child_polls = 0;
    let mut event = Event::Launched;
    for _ in 0..10_000 {
        assert!(supervisor.is_well_formed());
        let action = supervisor.step(event);
        if record.states.last() != Some(&supervisor.state()) {
            record.states.push(supervisor.state());
        }
        event = match action {
            Action::Register => {
                record.registered.push(config.name.clone());
                Event::Registered(true)
            }
            Action::Report(report) => {
                record.reports.push(report);
                Event::Reported(true)
            }
            Action::Spawn => {
                record.spawned.push(config.interpreter_arguments());
                Event::Spawned(true)
            }
            Action::PollControl => {
                for (at, request) in deliveries {
                    if *at == record.polls {
                        queue.deliver(*request);
                    }
                }
                record.polls += 1;
                Event::Control(queue.take())
            }
            Action::Notice(_) => {
                record.notices += 1;
                Event::Control(queue.take())
            }
            Action::PollChild => {
                child_polls += 1;
                Event::ChildPolled(child_polls > lifetime)
            }
            Action::Sleep(secs) => {
                record.slept_secs += secs;
                Event::Slept
            }
            Action::Kill => {
                record.kills += 1;
                Event::Killed(true)
            }
            Action::Reap => {
                record.waits += 1;
                Event::Reaped
            }
            Action::Finish(outcome) => {
                record.outcome = outcome;
                assert_eq!(supervisor.result(), Some(outcome));
                return record;
            }
            Action::Ignore => panic!("the machine ignored the answer to its own action"),
        };
    }
    panic!("the run did not end");
}

fn test_service() -> ServiceConfig {
    ServiceConfig { name: String::from("TestSvc"), command: String::from("sleep 5") }
}

#[test]
fn command_that_ends_by_itself_stops_the_service_without_kill() {
    let record = simulate(&test_service(), 5, &[]);
    assert_eq!(record.states, vec![RunState::Starting, RunState::Running, RunState::Stopped]);
    assert_eq!(record.outcome, Outcome::Completed(StopCause::Natural));
    assert_eq!(record.kills, 0);
    assert_eq!(record.waits, 0);
    assert_eq!(record.registered, vec![String::from("TestSvc")]);
    assert_eq!(record.spawned, vec![vec![String::from("/K"), String::from("sleep 5")]]);
    assert_eq!(record.reports.len(), 3);
    assert_eq!(record.reports[0], ServiceStatusReport::start_pending(100));
    assert_eq!(record.reports[1], ServiceStatusReport::running(100));
    let last = record.reports[2];
    assert_eq!(last.state, ServiceState::Stopped);
    assert_eq!(last.accepted, AcceptedControls { stop: false, pause_continue: false });
    assert_eq!(last.accepted.bits(), 0);
    assert_eq!(last.exit_code, 0);
    assert_eq!(last.process_id, None);
    assert_eq!(record.polls, 6);
    assert_eq!(record.slept_secs, 5);
}

#[test]
fn stop_at_the_second_poll_kills_the_child_early() {
    let record = simulate(&test_service(), 5, &[(1, ControlRequest::Stop)]);
    assert_eq!(record.states, vec![RunState::Starting, RunState::Running, RunState::Stopped]);
    assert_eq!(record.outcome, Outcome::Completed(StopCause::OperatorRequested));
    assert_eq!(record.kills, 1);
    assert_eq!(record.waits, 1);
    assert_eq!(record.polls, 2);
    assert_eq!(record.slept_secs, 1);
    assert_eq!(record.reports.len(), 3);
    let last = record.reports[2];
    assert_eq!(last.state, ServiceState::Stopped);
    assert_eq!(last.accepted, AcceptedControls { stop: false, pause_continue: false });
    assert_eq!(last.process_id, None);
}

#[test]
fn stop_and_exit_at_the_same_poll_end_by_the_stop_path() {
    // The child is found exited at the poll numbered 2; the Stop arrives
    // just before that poll.
    let record = simulate(&test_service(), 2, &[(2, ControlRequest::Stop)]);
    assert_eq!(record.outcome, Outcome::Completed(StopCause::OperatorRequested));
    assert_eq!(record.kills, 1);
    assert_eq!(record.reports.len(), 3);
    assert_eq!(record.reports[2], ServiceStatusReport::stopped(0));
    let natural = simulate(&test_service(), 2, &[]);
    assert_eq!(natural.outcome, Outcome::Completed(StopCause::Natural));
    assert_eq!(natural.kills, 0);
    assert_eq!(natural.reports[2], record.reports[2]);
}

#[test]
fn pauses_and_continues_before_a_stop_change_nothing() {
    let plain = simulate(&test_service(), 5, &[(3, ControlRequest::Stop)]);
    let deliveries = [
        (0, ControlRequest::Pause),
        (0, ControlRequest::Continue),
        (1, ControlRequest::Pause),
        (1, ControlRequest::Pause),
        (2, ControlRequest::Continue),
        (3, ControlRequest::Pause),
        (3, ControlRequest::Stop),
    ];
    let noisy = simulate(&test_service(), 5, &deliveries);
    assert_eq!(noisy.notices, 6);
    assert_eq!(noisy.outcome, plain.outcome);
    assert_eq!(noisy.outcome, Outcome::Completed(StopCause::OperatorRequested));
    assert_eq!(noisy.kills, 1);
    assert_eq!(noisy.polls, plain.polls);
    assert_eq!(noisy.slept_secs, plain.slept_secs);
    assert_eq!(noisy.reports, plain.reports);
}

#[test]
fn pauses_and_continues_alone_never_stop_the_service() {
    let deliveries = [
        (0, ControlRequest::Pause),
        (1, ControlRequest::Continue),
        (2, ControlRequest::Interrogate),
        (4, ControlRequest::Pause),
    ];
    let record = simulate(&test_service(), 5, &deliveries);
    assert_eq!(record.notices, 3);
    assert_eq!(record.kills, 0);
    assert_eq!(record.outcome, Outcome::Completed(StopCause::Natural));
    assert_eq!(record.polls, 6);
}

#[test]
fn command_that_ends_at_once_is_seen_at_the_first_poll() {
    let record = simulate(&test_service(), 0, &[]);
    assert_eq!(record.polls, 1);
    assert_eq!(record.slept_secs, 0);
    assert_eq!(record.kills, 0);
    assert_eq!(record.outcome, Outcome::Completed(StopCause::Natural));
}
