use tracing_analogy::tracker::{ConnectionState, ConnectionTracker};

fn is_disconnected(tracker: &ConnectionTracker<u8>) -> bool {
    matches!(tracker.read(), ConnectionState::Disconnected)
}

fn is_connecting(tracker: &ConnectionTracker<u8>) -> bool {
    matches!(tracker.read(), ConnectionState::Connecting)
}

#[test]
fn tracker_starts_from_the_first_attempt() {
    let down: ConnectionTracker<u8> = ConnectionTracker::new(None);
    assert!(is_disconnected(&down));
    let up: ConnectionTracker<u8> = ConnectionTracker::new(Some(7));
    assert!(matches!(up.read(), ConnectionState::Connected(7)));
}

#[test]
fn state_from_option() {
    assert!(matches!(ConnectionState::<u8>::from_option(None), ConnectionState::Disconnected));
    assert!(matches!(ConnectionState::from_option(Some(3u8)), ConnectionState::Connected(3)));
}

#[test]
fn only_the_first_begin_wins() {
    let mut tracker: ConnectionTracker<u8> = ConnectionTracker::new(None);
    assert!(tracker.try_begin_connect());
    assert!(is_connecting(&tracker));
    for _ in 0..10 {
        assert!(!tracker.try_begin_connect());
        assert!(is_connecting(&tracker));
    }
}

#[test]
fn begin_does_not_win_while_connected() {
    let mut tracker: ConnectionTracker<u8> = ConnectionTracker::new(Some(1));
    assert!(!tracker.try_begin_connect());
    assert!(matches!(tracker.read(), ConnectionState::Connected(1)));
}

#[test]
fn commit_publishes_the_handle() {
    let mut tracker: ConnectionTracker<u8> = ConnectionTracker::new(None);
    assert!(tracker.try_begin_connect());
    tracker.commit(Some(9));
    assert!(matches!(tracker.read(), ConnectionState::Connected(9)));
}

#[test]
fn failed_commit_reopens_the_gate() {
    let mut tracker: ConnectionTracker<u8> = ConnectionTracker::new(None);
    assert!(tracker.try_begin_connect());
    tracker.commit(None);
    assert!(is_disconnected(&tracker));
    assert!(tracker.try_begin_connect());
    assert!(!tracker.try_begin_connect());
}

#[test]
fn invalidate_disconnects_a_connected_tracker() {
    let mut tracker: ConnectionTracker<u8> = ConnectionTracker::new(Some(5));
    tracker.invalidate();
    assert!(is_disconnected(&tracker));
    assert!(tracker.try_begin_connect());
}

#[test]
fn invalidate_leaves_other_states() {
    let mut tracker: ConnectionTracker<u8> = ConnectionTracker::new(None);
    tracker.invalidate();
    assert!(is_disconnected(&tracker));
    assert!(tracker.try_begin_connect());
    tracker.invalidate();
    assert!(is_connecting(&tracker));
}
