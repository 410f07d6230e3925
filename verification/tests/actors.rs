use thor::actor::actix::{MyActor, MyMessage};
use thor::actor::{alice, no_handle};
use tokio::sync::{mpsc, oneshot};

#[test]
fn alice_message_new_carries_zero() {
    let (_rx, msg) = alice::Message::new();
    match msg {
        alice::Message::Base { info, .. } => assert_eq!(info, 0),
    }
}

#[test]
fn alice_actor_starts_at_zero() {
    let (_tx, rx) = mpsc::channel::<alice::Message>(1);
    let actor = alice::Actor::new(rx);
    assert_eq!(actor.last_info, 0);
}

#[test]
fn alice_handle_message_answers_previous_info() {
    let (_tx, rx) = mpsc::channel::<alice::Message>(1);
    let mut actor = alice::Actor::new(rx);

    let (answer_tx, mut answer_rx) = oneshot::channel();
    assert_eq!(actor.handle_message(alice::Message::Base { info: 5, responder: answer_tx }), None);
    assert_eq!(answer_rx.try_recv(), Ok(0));
    assert_eq!(actor.last_info, 5);

    let (answer_tx, mut answer_rx) = oneshot::channel();
    actor.handle_message(alice::Message::Base { info: 7, responder: answer_tx });
    assert_eq!(answer_rx.try_recv(), Ok(5));
    assert_eq!(actor.last_info, 7);
}

#[test]
fn alice_handle_message_with_gone_asker_still_stores() {
    let (_tx, rx) = mpsc::channel::<alice::Message>(1);
    let mut actor = alice::Actor::new(rx);
    let (answer_tx, answer_rx) = oneshot::channel();
    drop(answer_rx);
    // The refused answer is the value held before: 0 on a fresh actor.
    assert_eq!(actor.handle_message(alice::Message::Base { info: 9, responder: answer_tx }), Some(0));
    assert_eq!(actor.last_info, 9);
    let (answer_tx, answer_rx) = oneshot::channel();
    drop(answer_rx);
    assert_eq!(actor.handle_message(alice::Message::Base { info: 2, responder: answer_tx }), Some(9));
}

#[test]
fn alice_swap_info_gives_back_previous() {
    let (_tx, rx) = mpsc::channel::<alice::Message>(1);
    let mut actor = alice::Actor::new(rx);
    assert_eq!(actor.swap_info(3), 0);
    assert_eq!(actor.swap_info(4), 3);
    assert_eq!(actor.swap_info(4), 4);
    assert_eq!(actor.last_info, 4);
}

#[test]
fn alice_handle_new_keeps_mailbox_open_while_actor_lives() {
    let (handle, mut actor) = alice::ActorHandle::new();
    assert_eq!(actor.last_info, 0);
    assert_eq!(handle.sender.max_capacity(), 8);
    assert!(!handle.sender.is_closed());

    let copy = handle.clone();
    assert!(copy.sender.same_channel(&handle.sender));

    let (answer_tx, mut answer_rx) = oneshot::channel();
    copy.sender
        .try_send(alice::Message::Base { info: 4, responder: answer_tx })
        .unwrap();
    let msg = actor.receiver.try_recv().unwrap();
    assert_eq!(actor.handle_message(msg), None);
    assert_eq!(answer_rx.try_recv(), Ok(0));
    assert_eq!(actor.last_info, 4);

    drop(actor);
    assert!(handle.sender.is_closed());
}

#[test]
fn no_handle_with_actor_links_handle_and_actor() {
    let (handle, mut actor) = no_handle::ActorHandle::with_actor();
    assert_eq!(actor.last_info, 0);
    assert_eq!(handle.sender.max_capacity(), no_handle::MAILBOX_CAPACITY);
    assert!(!handle.sender.is_closed());

    let (answer_tx, mut answer_rx) = oneshot::channel();
    handle
        .sender
        .try_send(no_handle::Message::Base { info: 11, responder: answer_tx })
        .unwrap();
    let msg = actor.receiver.try_recv().unwrap();
    actor.handle_message(msg);
    assert_eq!(answer_rx.try_recv(), Ok(0));
    assert_eq!(actor.last_info, 11);
}

#[test]
fn actix_message_new_carries_zero() {
    match MyMessage::new() {
        MyMessage::Base { info } => assert_eq!(info, 0),
    }
}

#[test]
fn actix_actor_handle_answers_previous_info() {
    let (_tx, rx) = mpsc::channel::<MyMessage>(1);
    let mut actor = MyActor::new(rx);
    assert_eq!(actor.last_info, 0);
    assert_eq!(actor.handle(MyMessage::Base { info: 42 }), 0);
    assert_eq!(actor.handle(MyMessage::Base { info: 1 }), 42);
    assert_eq!(actor.handle(MyMessage::new()), 1);
    assert_eq!(actor.last_info, 0);
}

#[test]
fn actix_actor_answers_echo_previous_run() {
    // Law: the answers to a run are what was held first, then every value but the last.
    let (_tx, rx) = mpsc::channel::<MyMessage>(1);
    let mut actor = MyActor::new(rx);
    let run = [3usize, 1, 4, 1, 5];
    let answers: Vec<usize> = run.iter().map(|&info| actor.handle(MyMessage::Base { info })).collect();
    assert_eq!(answers, vec![0, 3, 1, 4, 1]);
    assert_eq!(actor.last_info, 5);
}
