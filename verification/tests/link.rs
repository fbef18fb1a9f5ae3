use esp_display::link::{
    receiver_action, watchdog_action, KeepaliveWait, ReceiverAction, WatchdogAction,
    KEEPALIVE_TIMEOUT_SECS, RECEIVE_PACKET_SIZE,
};
use esp_display::stream::start_stream;

#[test]
fn receiver_decisions() {
    assert_eq!(receiver_action(0), ReceiverAction::Keepalive);
    assert_eq!(receiver_action(1), ReceiverAction::KeepaliveAndTimeRequest);
    assert_eq!(receiver_action(2), ReceiverAction::Ignore);
    assert_eq!(receiver_action(0xFF), ReceiverAction::Ignore);
    assert_eq!(RECEIVE_PACKET_SIZE, 256);
}

#[test]
fn watchdog_restarts_only_on_timeout() {
    assert_eq!(watchdog_action(KeepaliveWait::Received), WatchdogAction::Continue);
    assert_eq!(watchdog_action(KeepaliveWait::Closed), WatchdogAction::Continue);
    assert_eq!(watchdog_action(KeepaliveWait::TimedOut), WatchdogAction::Restart);
    assert_eq!(KEEPALIVE_TIMEOUT_SECS, 15);
}

#[test]
fn start_stream_installs_and_announces() {
    let mut slot: Option<&str> = Some("old");
    let packet = start_stream(&mut slot, "new");
    assert_eq!(slot, Some("new"));
    assert_eq!(packet[0], 3);
    assert_eq!(packet[1], 1);
    assert!(packet[2..].iter().all(|b| *b == 0b01010110));
}
