use jgrab_client::command::{select_command, Command};
use jgrab_client::config::{Config, MAX_RETRIES};
use jgrab_client::forward::Exchange;
use jgrab_client::retry::{send_message_retrying, Logged, Action, Event, Fatal, Phase, World};
use jgrab_client::source::Source;

struct Scripted {
    answers: Vec<Event>,
    seen: Vec<Action>,
}

impl World for Scripted {
    fn perform(&mut self, action: Action) -> Event {
        self.seen.push(action);
        if self.answers.is_empty() {
            Event::Reported
        } else {
            self.answers.remove(0)
        }
    }
}

fn strings(a: &[&str]) -> Vec<String> {
    a.iter().map(|s| s.to_string()).collect()
}

#[test]
fn stdin_payload_reaches_a_reachable_daemon_verbatim() {
    assert_eq!(select_command(&strings(&[])), Command::SendStdin);
    let w = Scripted { answers: vec![Event::ConnectOk], seen: Vec::new() };
    let mut run = Logged::new(w);
    let t = send_message_retrying(MAX_RETRIES, &mut run);
    let w = run.inner;
    assert_eq!(t.outcome, Action::Forward);
    assert!(!w.seen.contains(&Action::Launch));
    let mut input = Source::text(b"System.out.println(1);".to_vec());
    let mut sent = Vec::new();
    Exchange::new().send_input(&mut input, Config::standard().chunk_size, &mut sent);
    assert_eq!(sent, b"System.out.println(1);".to_vec());
}

#[test]
fn file_with_arguments_after_launching_the_daemon() {
    let header = match select_command(&strings(&["Hello.java", "foo", "bar"])) {
        Command::SendFileWithArgs { path, header } => {
            assert_eq!(path, "Hello.java");
            header
        }
        other => panic!("unexpected command {:?}", other),
    };
    let w = Scripted {
        answers: vec![Event::ConnectFailed, Event::Launched, Event::Alive, Event::ConnectOk],
        seen: Vec::new(),
    };
    let mut run = Logged::new(w);
    let t = send_message_retrying(MAX_RETRIES, &mut run);
    let w = run.inner;
    assert_eq!(
        w.seen,
        vec![
            Action::Connect { retry: false },
            Action::Launch,
            Action::CheckLiveness,
            Action::Connect { retry: true }
        ]
    );
    assert_eq!(t.outcome, Action::Forward);
    let contents = b"class Hello { public static void main(String[] a) {} }".to_vec();
    let mut input = Source::chain(Source::text(header.into_bytes()), Source::text(contents.clone()));
    let mut sent = Vec::new();
    Exchange::new().send_input(&mut input, 1024, &mut sent);
    let mut expected = b"[foo bar]\n".to_vec();
    expected.extend_from_slice(&contents);
    assert_eq!(sent, expected);
}

#[test]
fn stop_is_selected_without_touching_the_daemon() {
    assert_eq!(select_command(&strings(&["--stop"])), Command::Stop);
    assert_eq!(select_command(&strings(&["-s"])), Command::Stop);
}

#[test]
fn daemon_exiting_within_the_wait_is_fatal_with_its_status() {
    let w = Scripted {
        answers: vec![Event::ConnectFailed, Event::Launched, Event::Exited { code: Some(1) }],
        seen: Vec::new(),
    };
    let mut run = Logged::new(w);
    let t = send_message_retrying(MAX_RETRIES, &mut run);
    let w = run.inner;
    assert_eq!(t.outcome, Action::Stop(Fatal::DaemonDied { code: Some(1) }));
    assert_eq!(t.phase, Phase::Failed(Fatal::DaemonDied { code: Some(1) }));
    assert!(!w.seen.contains(&Action::Connect { retry: true }));
}

#[test]
fn five_failed_retries_are_fatal() {
    let mut answers = vec![Event::ConnectFailed, Event::Launched, Event::Alive];
    for _ in 0..5 {
        answers.extend([Event::ConnectFailed, Event::Alive, Event::Reported]);
    }
    let w = Scripted { answers, seen: Vec::new() };
    let mut run = Logged::new(w);
    let t = send_message_retrying(Config::standard().retries, &mut run);
    let w = run.inner;
    assert_eq!(t.outcome, Action::Stop(Fatal::RetriesExhausted));
    assert_eq!(Config::standard().port, 5002);
    assert!(w.answers.is_empty());
}
