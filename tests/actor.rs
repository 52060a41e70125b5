use clear_core::link::command_queue;
use clear_core::{
    submit_outcome, ActorAction, ActorEvent, CommandError, ConnectionActor, Message, Phase,
    Settlement,
};

#[test]
fn round_trip_then_exit() {
    let mut a = ConnectionActor::new();
    assert_eq!(a.phase(), Phase::Receiving);
    let (msg, mut waiter) = Message::new(vec![2, b'M', b'0', b'E', b'N', 13]);
    match a.on_event(ActorEvent::Dequeued(Some(msg))) {
        ActorAction::Write(b) => assert_eq!(b, vec![2, b'M', b'0', b'E', b'N', 13]),
        _ => panic!("expected a write"),
    }
    assert!(matches!(a.on_event(ActorEvent::Written(true)), ActorAction::Read));
    assert_eq!(a.phase(), Phase::Reading);
    assert!(matches!(a.on_event(ActorEvent::ReadDone(Some(vec![2, b'M', b'0', b'_']))), ActorAction::Receive));
    assert_eq!(waiter.try_recv().unwrap(), vec![2, b'M', b'0', b'_']);
    assert!(matches!(a.on_event(ActorEvent::Dequeued(None)), ActorAction::Exit));
    assert_eq!(a.phase(), Phase::Closed);
}

#[test]
fn failed_read_drops_the_slot() {
    let mut a = ConnectionActor::new();
    let (msg, mut waiter) = Message::new(vec![2, b'I', b'0', 13]);
    a.on_event(ActorEvent::Dequeued(Some(msg)));
    a.on_event(ActorEvent::Written(true));
    assert!(matches!(a.on_event(ActorEvent::ReadDone(None)), ActorAction::Exit));
    assert!(waiter.try_recv().is_err());
    assert_eq!(a.phase(), Phase::Closed);
}

#[test]
fn failed_write_drops_the_slot() {
    let mut a = ConnectionActor::new();
    let (msg, mut waiter) = Message::new(vec![2, b'O', b'0', b'1', 13]);
    a.on_event(ActorEvent::Dequeued(Some(msg)));
    assert!(matches!(a.on_event(ActorEvent::Written(false)), ActorAction::Exit));
    assert!(waiter.try_recv().is_err());
}

#[test]
fn abandoned_wait_does_not_disturb_the_next_command() {
    let mut a = ConnectionActor::new();
    let (first, waiter) = Message::new(vec![1]);
    drop(waiter);
    a.on_event(ActorEvent::Dequeued(Some(first)));
    a.on_event(ActorEvent::Written(true));
    assert!(matches!(a.on_event(ActorEvent::ReadDone(Some(vec![9]))), ActorAction::Receive));
    let (second, mut w2) = Message::new(vec![2]);
    match a.on_event(ActorEvent::Dequeued(Some(second))) {
        ActorAction::Write(b) => assert_eq!(b, vec![2]),
        _ => panic!("expected a write"),
    }
    a.on_event(ActorEvent::Written(true));
    a.on_event(ActorEvent::ReadDone(Some(vec![7])));
    assert_eq!(w2.try_recv().unwrap(), vec![7]);
}

#[test]
fn commands_are_served_in_queue_order() {
    let (tx, mut rx) = command_queue();
    let mut waiters = Vec::new();
    for k in 0u8..5 {
        let (m, w) = Message::new(vec![k]);
        tx.try_send(m).ok().unwrap();
        waiters.push(w);
    }
    drop(tx);
    let mut a = ConnectionActor::new();
    let mut written = Vec::new();
    loop {
        match a.on_event(ActorEvent::Dequeued(rx.try_recv().ok())) {
            ActorAction::Write(b) => {
                written.push(b[0]);
                a.on_event(ActorEvent::Written(true));
                a.on_event(ActorEvent::ReadDone(Some(vec![b[0] + 100])));
            }
            _ => break,
        }
    }
    assert_eq!(written, vec![0, 1, 2, 3, 4]);
    for (k, mut w) in waiters.into_iter().enumerate() {
        assert_eq!(w.try_recv().unwrap(), vec![k as u8 + 100]);
    }
}

#[test]
fn settle_outcomes() {
    let (mut m, mut w) = Message::new(vec![1]);
    assert!(m.response.is_awaiting());
    assert_eq!(m.settle(Some(vec![5])), Settlement::Delivered);
    assert!(!m.response.is_awaiting());
    assert_eq!(w.try_recv().unwrap(), vec![5]);
    let (mut m, w) = Message::new(vec![1]);
    drop(w);
    assert_eq!(m.settle(Some(vec![5])), Settlement::Orphaned);
    assert!(!m.response.is_awaiting());
    let (mut m, mut w) = Message::new(vec![1]);
    assert_eq!(m.settle(None), Settlement::Dropped);
    assert!(!m.response.is_awaiting());
    assert!(w.try_recv().is_err());
}

#[test]
fn queue_bound_is_one_hundred() {
    let (tx, _rx) = command_queue();
    assert_eq!(tx.max_capacity(), 100);
    assert_eq!(tx.clone().max_capacity(), 100);
}

#[test]
fn submission_outcomes() {
    assert_eq!(submit_outcome(false, None), Err(CommandError::QueueClosed));
    assert_eq!(submit_outcome(false, Some(vec![1])), Err(CommandError::QueueClosed));
    assert_eq!(submit_outcome(true, None), Err(CommandError::ReplyDropped));
    assert_eq!(submit_outcome(true, Some(vec![1, 2])), Ok(vec![1, 2]));
}

#[test]
fn submit_after_actor_stopped_is_queue_closed() {
    let (tx, rx) = command_queue();
    drop(rx);
    let (m, _w) = Message::new(vec![2, b'M', b'0', b'E', b'N', 13]);
    let accepted = tx.try_send(m).is_ok();
    assert_eq!(submit_outcome(accepted, None), Err(CommandError::QueueClosed));
}

#[test]
fn error_descriptions() {
    assert_eq!(CommandError::QueueClosed.describe(), "command queue closed");
    assert_eq!(CommandError::ReplyDropped.describe(), "reply dropped by the connection");
    assert_eq!(CommandError::Decode.describe(), "response could not be decoded");
}
