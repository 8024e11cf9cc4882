//! What holds of every session, on chosen values.

use clipboard_worker::{Command, Failure, Lifecycle, Reply, Session};

fn stores() -> Vec<Command> {
    vec![
        Command::Store("one".to_string()),
        Command::StorePrimary("two".to_string()),
        Command::Store(String::new()),
        Command::StorePrimary("four".to_string()),
        Command::Store("five".to_string()),
    ]
}

#[test]
fn stores_get_no_reply() {
    for supported in [true, false] {
        let mut session = Session::new(supported);
        assert_eq!(session.submit_all(stores()), vec![]);
        assert_eq!(session.step(stores(), Ok(())), vec![]);
        for command in stores() {
            assert!(!command.expects_reply());
            assert_eq!(session.submit(command), None);
        }
        assert_eq!(session.lifecycle(), Lifecycle::Running);
    }
}

#[test]
fn no_commands_get_no_reply() {
    let mut session = Session::new(true);
    assert_eq!(session.submit_all(vec![]), vec![]);
    assert_eq!(session.step(vec![], Ok(())), vec![]);
    assert_eq!(session.lifecycle(), Lifecycle::Running);
}

#[test]
fn every_load_gets_one_reply() {
    let commands = vec![
        Command::Load,
        Command::Store("a".to_string()),
        Command::Load,
        Command::LoadPrimary,
        Command::StorePrimary("b".to_string()),
        Command::LoadPrimary,
        Command::Load,
    ];
    let loads = commands.iter().filter(|command| command.expects_reply()).count();
    assert_eq!(loads, 5);

    let mut session = Session::new(true);
    let empty = Reply::Failed(Failure::Load("selection is empty".to_string()));
    assert_eq!(
        session.submit_all(commands.clone()),
        vec![
            empty.clone(),
            Reply::Text("a".to_string()),
            empty,
            Reply::Text("b".to_string()),
            Reply::Text("a".to_string()),
        ]
    );

    let mut unsupported = Session::new(false);
    assert_eq!(unsupported.submit_all(commands), vec![Reply::Failed(Failure::Unsupported); 5]);
}

#[test]
fn a_command_gets_a_reply_exactly_if_it_expects_one() {
    let commands = vec![
        Command::Store("a".to_string()),
        Command::StorePrimary("b".to_string()),
        Command::Load,
        Command::LoadPrimary,
    ];
    for supported in [true, false] {
        for command in commands.clone() {
            let mut session = Session::new(supported);
            let expected = command.expects_reply();
            assert_eq!(session.submit(command).is_some(), expected);
        }
        let mut session = Session::new(supported);
        assert!(!Command::Exit.expects_reply());
        assert_eq!(session.submit(Command::Exit), None);
    }
}

#[test]
fn nothing_is_handled_after_exit() {
    let mut session = Session::new(true);
    let replies = session.submit_all(vec![
        Command::Store("before".to_string()),
        Command::Load,
        Command::Exit,
        Command::Load,
        Command::Store("after".to_string()),
        Command::LoadPrimary,
        Command::Exit,
    ]);
    assert_eq!(replies, vec![Reply::Text("before".to_string())]);
    assert_eq!(session.lifecycle(), Lifecycle::ExitRequested);
    assert_eq!(session.submit(Command::Load), None);
    assert_eq!(session.lifecycle(), Lifecycle::ExitRequested);
}

#[test]
fn load_before_exit_is_answered() {
    let mut session = Session::new(true);
    let replies = session.step(
        vec![Command::Store("last words".to_string()), Command::Load, Command::Exit],
        Ok(()),
    );
    assert_eq!(replies, vec![Reply::Text("last words".to_string())]);
    assert_eq!(session.lifecycle(), Lifecycle::Terminated);
}

#[test]
fn step_with_exit_terminates_the_worker() {
    let mut session = Session::new(true);
    assert_eq!(session.step(vec![Command::Exit, Command::Load], Ok(())), vec![]);
    assert_eq!(session.lifecycle(), Lifecycle::Terminated);
    assert_eq!(session.step(vec![Command::Load], Ok(())), vec![]);
    assert_eq!(session.step(vec![], Err("gone".to_string())), vec![]);
    assert_eq!(session.lifecycle(), Lifecycle::Terminated);
}

#[test]
fn step_that_delivers_exit_and_fails_reports_the_failure() {
    let mut session = Session::new(true);
    let replies = session.step(vec![Command::Exit], Err("hung up".to_string()));
    assert_eq!(replies, vec![Reply::Failed(Failure::Dispatch("hung up".to_string()))]);
    assert_eq!(session.lifecycle(), Lifecycle::Terminated);
}

#[test]
fn exit_without_support_is_final_too() {
    let mut session = Session::new(false);
    let replies = session.submit_all(vec![Command::Load, Command::Exit, Command::Load]);
    assert_eq!(replies, vec![Reply::Failed(Failure::Unsupported)]);
    assert_eq!(session.lifecycle(), Lifecycle::ExitRequested);
}

#[test]
fn portions_of_the_queue_make_no_difference() {
    let commands = vec![
        Command::Store("a".to_string()),
        Command::Load,
        Command::StorePrimary("b".to_string()),
        Command::LoadPrimary,
        Command::Exit,
        Command::Load,
    ];
    let mut whole = Session::new(true);
    let expected = whole.submit_all(commands.clone());
    for cut in 0..=commands.len() {
        let mut split = Session::new(true);
        let mut replies = split.submit_all(commands[..cut].to_vec());
        replies.extend(split.submit_all(commands[cut..].to_vec()));
        assert_eq!(replies, expected);
        assert_eq!(split.lifecycle(), whole.lifecycle());
    }
}

#[test]
fn new_session_is_running() {
    assert_eq!(Session::new(true).lifecycle(), Lifecycle::Running);
    assert_eq!(Session::new(false).lifecycle(), Lifecycle::Running);
}
