use ficwright::lifecycle::{Action, Lifecycle, Outcome, Phase};
use ficwright::lifecycle::Outcome::{Failed, Succeeded};

fn run(outcomes: &[Outcome]) -> (Lifecycle, Vec<Action>) {
    let mut s = Lifecycle::start();
    let mut actions = Vec::new();
    let (n, a) = s.step(Outcome::Succeeded);
    s = n;
    actions.push(a);
    for o in outcomes {
        let (n, a) = s.step(*o);
        s = n;
        actions.push(a);
    }
    (s, actions)
}

#[test]
fn failed_execution_still_quits_and_stops_once() {
    let (s, actions) = run(&[Succeeded, Succeeded, Succeeded, Failed, Failed, Failed, Succeeded]);
    assert_eq!(
        actions,
        vec![
            Action::StartServer,
            Action::OpenSession,
            Action::Prepare,
            Action::Execute,
            Action::QuitSession,
            Action::StopServer,
            Action::Finish,
            Action::Finish,
        ]
    );
    assert_eq!(s.phase, Phase::Done);
    assert!(s.failed);
    assert_eq!(actions.iter().filter(|a| **a == Action::QuitSession).count(), 1);
    assert_eq!(actions.iter().filter(|a| **a == Action::StopServer).count(), 1);
}

#[test]
fn successful_command_tears_down_and_finishes_clean() {
    let (s, actions) = run(&[Succeeded; 6]);
    assert_eq!(actions[4..], [Action::QuitSession, Action::StopServer, Action::Finish]);
    assert!(!s.failed);
    assert!(!s.server_up && !s.session_open);
}

#[test]
fn server_that_fails_to_start_needs_no_teardown() {
    let (s, actions) = run(&[Failed]);
    assert_eq!(actions, vec![Action::StartServer, Action::Finish]);
    assert!(s.failed);
}

#[test]
fn failed_session_open_stops_the_server() {
    let (s, actions) = run(&[Succeeded, Failed, Succeeded]);
    assert_eq!(
        actions,
        vec![Action::StartServer, Action::OpenSession, Action::StopServer, Action::Finish]
    );
    assert!(s.failed);
}

#[test]
fn failed_preparation_quits_then_stops() {
    let (_, actions) = run(&[Succeeded, Succeeded, Failed, Succeeded, Succeeded]);
    assert_eq!(
        actions[3..],
        [Action::QuitSession, Action::StopServer, Action::Finish]
    );
}
