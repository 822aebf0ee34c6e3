use blocking_channel::{ChannelState, Step};

#[test]
fn fresh_state_is_empty_with_one_sender() {
    let s: ChannelState<u32> = ChannelState::new();
    assert_eq!(s.len(), 0);
    assert_eq!(s.live_senders(), 1);
    assert!(s.must_wait());
}

#[test]
fn empty_state_with_live_sender_waits() {
    let mut s: ChannelState<u32> = ChannelState::new();
    assert!(matches!(s.take(), Step::Wait));
    assert_eq!(s.len(), 0);
    assert_eq!(s.live_senders(), 1);
}

#[test]
fn take_returns_front_then_closes_after_last_sender() {
    let mut s = ChannelState::new();
    s.push(10u32);
    s.push(20u32);
    assert_eq!(s.len(), 2);
    assert!(!s.must_wait());
    assert!(s.remove_sender());
    assert_eq!(s.live_senders(), 0);
    assert!(matches!(s.take(), Step::Item(10)));
    assert!(matches!(s.take(), Step::Item(20)));
    assert!(matches!(s.take(), Step::Closed));
    assert!(matches!(s.take(), Step::Closed));
    assert!(!s.must_wait());
}

#[test]
fn two_senders_need_two_removals_to_close() {
    let mut s: ChannelState<i64> = ChannelState::new();
    s.add_sender();
    assert_eq!(s.live_senders(), 2);
    assert!(!s.remove_sender());
    assert!(matches!(s.take(), Step::Wait));
    assert!(s.must_wait());
    assert!(s.remove_sender());
    assert!(matches!(s.take(), Step::Closed));
}

#[test]
fn send_wakes_a_waiting_receive() {
    let mut s: ChannelState<char> = ChannelState::new();
    assert!(matches!(s.take(), Step::Wait));
    s.push('x');
    assert!(matches!(s.take(), Step::Item('x')));
    assert!(matches!(s.take(), Step::Wait));
}
