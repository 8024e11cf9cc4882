//! The worker's rules behind a real command queue and a real event loop.

use std::time::Duration;

use clipboard_worker::{Command, Failure, Lifecycle, Reply, Session};
use smithay_client_toolkit::reexports::calloop::channel::{channel, Event, Sender};
use smithay_client_toolkit::reexports::calloop::EventLoop;

/// What the event loop hands to the handler of the queue.
struct Served {
    session: Session,
    replies: Vec<Reply>,
}

fn serve(supported: bool) -> (EventLoop<'static, Served>, Sender<Command>, Served) {
    let event_loop: EventLoop<Served> = EventLoop::try_new().unwrap();
    let (sender, queue) = channel::<Command>();
    event_loop
        .handle()
        .insert_source(queue, |event, _, served: &mut Served| {
            if let Event::Msg(command) = event {
                if let Some(reply) = served.session.submit(command) {
                    served.replies.push(reply);
                }
            }
        })
        .unwrap();
    (event_loop, sender, Served { session: Session::new(supported), replies: Vec::new() })
}

fn step(event_loop: &mut EventLoop<'static, Served>, served: &mut Served) {
    event_loop.dispatch(Some(Duration::ZERO), served).unwrap();
}

#[test]
fn queue_keeps_the_order_of_one_producer() {
    let (mut event_loop, sender, mut served) = serve(true);
    sender.send(Command::Store("a".to_string())).unwrap();
    sender.send(Command::Store("b".to_string())).unwrap();
    sender.send(Command::Load).unwrap();
    step(&mut event_loop, &mut served);
    assert_eq!(served.replies, vec![Reply::Text("b".to_string())]);
    assert_eq!(served.session.lifecycle(), Lifecycle::Running);
}

#[test]
fn queue_serves_commands_sent_between_steps() {
    let (mut event_loop, sender, mut served) = serve(true);
    sender.send(Command::Store("hello".to_string())).unwrap();
    step(&mut event_loop, &mut served);
    assert_eq!(served.replies, vec![]);
    sender.send(Command::Load).unwrap();
    step(&mut event_loop, &mut served);
    assert_eq!(served.replies, vec![Reply::Text("hello".to_string())]);
}

#[test]
fn queue_serves_two_producers() {
    let (mut event_loop, sender, mut served) = serve(true);
    let other = sender.clone();
    sender.send(Command::Store("copied".to_string())).unwrap();
    other.send(Command::StorePrimary("marked".to_string())).unwrap();
    sender.send(Command::Load).unwrap();
    other.send(Command::LoadPrimary).unwrap();
    step(&mut event_loop, &mut served);
    assert_eq!(
        served.replies,
        vec![Reply::Text("copied".to_string()), Reply::Text("marked".to_string())]
    );
}

#[test]
fn commands_queued_behind_exit_are_dropped() {
    let (mut event_loop, sender, mut served) = serve(true);
    sender.send(Command::Store("kept".to_string())).unwrap();
    sender.send(Command::Load).unwrap();
    sender.send(Command::Exit).unwrap();
    sender.send(Command::Store("lost".to_string())).unwrap();
    sender.send(Command::Load).unwrap();
    step(&mut event_loop, &mut served);
    assert_eq!(served.replies, vec![Reply::Text("kept".to_string())]);
    assert_eq!(served.session.lifecycle(), Lifecycle::ExitRequested);
}

#[test]
fn queue_without_selection_support_refuses_loads() {
    let (mut event_loop, sender, mut served) = serve(false);
    sender.send(Command::LoadPrimary).unwrap();
    sender.send(Command::Load).unwrap();
    step(&mut event_loop, &mut served);
    assert_eq!(served.replies, vec![Reply::Failed(Failure::Unsupported); 2]);
}

#[test]
fn closed_queue_does_not_stop_the_worker() {
    let (mut event_loop, sender, mut served) = serve(true);
    sender.send(Command::Store("a".to_string())).unwrap();
    drop(sender);
    step(&mut event_loop, &mut served);
    assert_eq!(served.replies, vec![]);
    assert_eq!(served.session.lifecycle(), Lifecycle::Running);
}
