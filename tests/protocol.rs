use jgrab_client::config::{Config, CHUNK_SIZE, DAEMON_PORT, MAX_RETRIES};
use jgrab_client::retry::{send_message_retrying, Logged, Action, Event, Fatal, Orchestrator, Phase};

fn feed(o: &mut Orchestrator, events: &[Event]) -> Vec<Action> {
    events.iter().map(|e| o.step(*e)).collect()
}

#[test]
fn standard_config_values() {
    let c = Config::standard();
    assert_eq!(c.port, 5002);
    assert_eq!(c.retries, 5);
    assert_eq!(c.liveness_wait_secs, 1);
    assert_eq!(c.settle_secs, 1);
    assert_eq!(c.chunk_size, 1024);
    assert_eq!(DAEMON_PORT, 5002);
    assert_eq!(MAX_RETRIES, 5);
    assert_eq!(CHUNK_SIZE, 1024);
}

#[test]
fn reachable_daemon_forwards_at_once() {
    let mut o = Orchestrator::new(MAX_RETRIES);
    assert_eq!(o.start(), Action::Connect { retry: false });
    assert_eq!(o.step(Event::ConnectOk), Action::Forward);
    assert_eq!(o.phase, Phase::Done);
    assert_eq!(o.step(Event::ConnectFailed), Action::Nothing);
    assert_eq!(o.phase, Phase::Done);
}

#[test]
fn unreachable_daemon_is_launched_then_retried() {
    let mut o = Orchestrator::new(MAX_RETRIES);
    let actions = feed(
        &mut o,
        &[Event::ConnectFailed, Event::Launched, Event::Alive, Event::ConnectOk],
    );
    assert_eq!(
        actions,
        vec![
            Action::Launch,
            Action::CheckLiveness,
            Action::Connect { retry: true },
            Action::Forward
        ]
    );
    assert_eq!(o.phase, Phase::Done);
}

#[test]
fn all_retries_exhausted_is_fatal() {
    let mut o = Orchestrator::new(MAX_RETRIES);
    let mut actions = feed(&mut o, &[Event::ConnectFailed, Event::Launched, Event::Alive]);
    for _ in 0..MAX_RETRIES {
        actions.extend(feed(&mut o, &[Event::ConnectFailed, Event::Alive, Event::Reported]));
    }
    assert_eq!(o.phase, Phase::Failed(Fatal::RetriesExhausted));
    assert_eq!(actions.last(), Some(&Action::Stop(Fatal::RetriesExhausted)));
    let reconnects = actions.iter().filter(|a| **a == Action::Connect { retry: true }).count();
    assert_eq!(reconnects, 5);
    let launches = actions.iter().filter(|a| **a == Action::Launch).count();
    assert_eq!(launches, 1);
    let reports: Vec<Action> = actions
        .iter()
        .filter(|a| matches!(a, Action::ReportFailure { .. }))
        .cloned()
        .collect();
    assert_eq!(
        reports,
        vec![
            Action::ReportFailure { remaining: 5 },
            Action::ReportFailure { remaining: 4 },
            Action::ReportFailure { remaining: 3 },
            Action::ReportFailure { remaining: 2 },
            Action::ReportFailure { remaining: 1 }
        ]
    );
}

#[test]
fn success_on_third_retry_stops_the_loop() {
    let mut o = Orchestrator::new(MAX_RETRIES);
    let mut actions = feed(&mut o, &[Event::ConnectFailed, Event::Launched, Event::Alive]);
    for _ in 0..2 {
        actions.extend(feed(&mut o, &[Event::ConnectFailed, Event::Alive, Event::Reported]));
    }
    actions.push(o.step(Event::ConnectOk));
    assert_eq!(actions.last(), Some(&Action::Forward));
    let reconnects = actions.iter().filter(|a| **a == Action::Connect { retry: true }).count();
    assert_eq!(reconnects, 3);
    assert_eq!(o.step(Event::ConnectFailed), Action::Nothing);
    assert_eq!(o.phase, Phase::Done);
}

#[test]
fn zero_retries_fail_right_after_launch() {
    let mut o = Orchestrator::new(0);
    let actions = feed(&mut o, &[Event::ConnectFailed, Event::Launched, Event::Alive]);
    assert_eq!(actions.last(), Some(&Action::Stop(Fatal::RetriesExhausted)));
}

#[test]
fn daemon_dying_after_launch_is_fatal() {
    let mut o = Orchestrator::new(MAX_RETRIES);
    let actions = feed(
        &mut o,
        &[Event::ConnectFailed, Event::Launched, Event::Exited { code: Some(1) }],
    );
    assert_eq!(actions.last(), Some(&Action::Stop(Fatal::DaemonDied { code: Some(1) })));
    assert_eq!(o.phase, Phase::Failed(Fatal::DaemonDied { code: Some(1) }));
    assert_eq!(o.step(Event::Alive), Action::Nothing);
    assert_eq!(o.step(Event::ConnectFailed), Action::Nothing);
}

#[test]
fn daemon_dying_during_retries_is_fatal() {
    let mut o = Orchestrator::new(MAX_RETRIES);
    feed(&mut o, &[Event::ConnectFailed, Event::Launched, Event::Alive, Event::ConnectFailed]);
    assert_eq!(o.step(Event::Exited { code: None }), Action::Stop(Fatal::DaemonDied { code: None }));
    assert_eq!(o.step(Event::Reported), Action::Nothing);
}

#[test]
fn launch_and_status_failures_are_fatal() {
    let mut o = Orchestrator::new(MAX_RETRIES);
    feed(&mut o, &[Event::ConnectFailed]);
    assert_eq!(o.step(Event::LaunchFailed), Action::Stop(Fatal::LaunchFailed));
    let mut o = Orchestrator::new(MAX_RETRIES);
    feed(&mut o, &[Event::ConnectFailed, Event::Launched]);
    assert_eq!(o.step(Event::StatusError), Action::Stop(Fatal::StatusUnavailable));
}

#[test]
fn events_out_of_place_change_nothing() {
    let mut o = Orchestrator::new(MAX_RETRIES);
    assert_eq!(o.step(Event::Alive), Action::Nothing);
    assert_eq!(o.phase, Phase::FirstAttempt);
    assert_eq!(o.step(Event::ConnectFailed), Action::Launch);
    assert_eq!(o.step(Event::ConnectFailed), Action::Nothing);
    assert_eq!(o.phase, Phase::Launching);
}

struct Scripted {
    answers: Vec<Event>,
    seen: Vec<Action>,
}

impl jgrab_client::retry::World for Scripted {
    fn perform(&mut self, action: Action) -> Event {
        self.seen.push(action);
        if self.answers.is_empty() {
            Event::Reported
        } else {
            self.answers.remove(0)
        }
    }
}

fn scripted(answers: &[Event]) -> Scripted {
    Scripted { answers: answers.to_vec(), seen: Vec::new() }
}

#[test]
fn retrying_send_with_reachable_daemon() {
    let w = scripted(&[Event::ConnectOk]);
    let mut run = Logged::new(w);
    let t = send_message_retrying(MAX_RETRIES, &mut run);
    let w = run.inner;
    assert_eq!(t.actions, vec![Action::Connect { retry: false }]);
    assert_eq!(t.events, vec![Event::ConnectOk]);
    assert_eq!(t.outcome, Action::Forward);
    assert_eq!(t.phase, Phase::Done);
}

#[test]
fn retrying_send_launches_once_and_gives_up_after_five() {
    let mut answers = vec![Event::ConnectFailed, Event::Launched, Event::Alive];
    for _ in 0..5 {
        answers.extend([Event::ConnectFailed, Event::Alive, Event::Reported]);
    }
    answers.push(Event::ConnectOk);
    let w = scripted(&answers);
    let mut run = Logged::new(w);
    let t = send_message_retrying(MAX_RETRIES, &mut run);
    let w = run.inner;
    assert_eq!(t.outcome, Action::Stop(Fatal::RetriesExhausted));
    assert_eq!(t.phase, Phase::Failed(Fatal::RetriesExhausted));
    assert_eq!(t.events.len(), 18);
    assert_eq!(w.seen.iter().filter(|a| **a == Action::Launch).count(), 1);
    assert_eq!(w.seen.iter().filter(|a| **a == Action::Connect { retry: true }).count(), 5);
    assert_eq!(w.answers, vec![Event::ConnectOk]);
}

#[test]
fn retrying_send_stops_when_daemon_dies() {
    let w = scripted(&[Event::ConnectFailed, Event::Launched, Event::Exited { code: Some(3) }, Event::Alive]);
    let mut run = Logged::new(w);
    let t = send_message_retrying(MAX_RETRIES, &mut run);
    let w = run.inner;
    assert_eq!(t.outcome, Action::Stop(Fatal::DaemonDied { code: Some(3) }));
    assert_eq!(w.seen, vec![Action::Connect { retry: false }, Action::Launch, Action::CheckLiveness]);
    assert_eq!(w.answers, vec![Event::Alive]);
}

#[test]
fn retrying_send_stops_on_an_answer_that_does_not_fit() {
    let w = scripted(&[Event::Launched]);
    let mut run = Logged::new(w);
    let t = send_message_retrying(MAX_RETRIES, &mut run);
    let w = run.inner;
    assert_eq!(t.outcome, Action::Nothing);
    assert_eq!(t.phase, Phase::FirstAttempt);
}
