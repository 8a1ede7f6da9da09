use lightshow::channel::{EventChannel, SendOutcome, Signal, CAPACITY};

#[test]
fn channel_starts_empty() {
    let mut channel = EventChannel::new();
    assert_eq!(channel.try_receive(), None);
}

#[test]
fn channel_stores_one_signal() {
    let mut channel = EventChannel::new();
    assert_eq!(channel.send(), SendOutcome::Stored);
    assert_eq!(channel.try_receive(), Some(Signal));
}

#[test]
fn channel_is_empty_after_the_signal_was_received() {
    let mut channel = EventChannel::new();
    assert_eq!(channel.send(), SendOutcome::Stored);
    assert_eq!(channel.try_receive(), Some(Signal));
    assert_eq!(channel.try_receive(), None);
    assert_eq!(channel.try_receive(), None);
}

#[test]
fn channel_drops_a_signal_sent_while_full() {
    let mut channel = EventChannel::new();
    assert_eq!(channel.send(), SendOutcome::Stored);
    assert_eq!(channel.send(), SendOutcome::Dropped);
    assert_eq!(channel.send(), SendOutcome::Dropped);
    assert_eq!(channel.try_receive(), Some(Signal));
    assert_eq!(channel.try_receive(), None);
}

#[test]
fn channel_takes_a_signal_again_once_emptied() {
    let mut channel = EventChannel::new();
    for _ in 0..5 {
        assert_eq!(channel.send(), SendOutcome::Stored);
        assert_eq!(channel.send(), SendOutcome::Dropped);
        assert_eq!(channel.try_receive(), Some(Signal));
        assert_eq!(channel.try_receive(), None);
    }
}

#[test]
fn channel_capacity_is_one() {
    assert_eq!(CAPACITY, 1);
}
