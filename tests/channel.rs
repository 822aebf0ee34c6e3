use blocking_channel::{channel, Receiver, Sender};

#[test]
fn ping_pong() {
    let (mut tx, mut rx) = channel();
    tx.send(43);
    assert_eq!(rx.recv().unwrap(), 43);
}

#[test]
fn closed() {
    let (tx, mut rx) = channel::<()>();
    tx.release();
    assert_eq!(rx.recv(), None);
}

#[test]
fn messages_come_out_in_sending_order() {
    let (mut tx, mut rx) = channel();
    for v in [5, 1, 4, 1, 3] {
        tx.send(v);
    }
    for v in [5, 1, 4, 1, 3] {
        assert_eq!(rx.recv(), Some(v));
    }
}

#[test]
fn pending_messages_are_drained_before_closure() {
    let (mut tx, mut rx) = channel();
    tx.send(String::from("a"));
    tx.send(String::from("b"));
    tx.release();
    assert_eq!(rx.recv(), Some(String::from("a")));
    assert_eq!(rx.recv(), Some(String::from("b")));
    assert_eq!(rx.recv(), None);
    assert_eq!(rx.recv(), None);
}

#[test]
fn clone_then_release_one_keeps_channel_open() {
    let (tx, mut rx): (Sender<i32>, Receiver<i32>) = channel();
    let mut second = tx.clone();
    tx.release();
    second.send(7);
    assert_eq!(rx.recv(), Some(7));
    second.release();
    assert_eq!(rx.recv(), None);
}

#[test]
fn every_clone_sends_into_one_queue() {
    let (mut a, mut rx) = channel();
    let mut b = a.clone();
    let mut c = b.clone();
    a.send(1);
    c.send(2);
    b.send(3);
    a.release();
    b.release();
    c.send(4);
    c.release();
    assert_eq!(rx.recv(), Some(1));
    assert_eq!(rx.recv(), Some(2));
    assert_eq!(rx.recv(), Some(3));
    assert_eq!(rx.recv(), Some(4));
    assert_eq!(rx.recv(), None);
}

#[test]
fn send_after_receiver_is_gone_is_accepted() {
    let (mut tx, rx) = channel();
    drop(rx);
    tx.send(1u8);
    tx.send(2u8);
    tx.release();
}
