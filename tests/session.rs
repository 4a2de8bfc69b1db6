use config_watch::event::EventOps;
use config_watch::session::{
    config_watcher, next, Action, Decision, Input, Phase, Session, SetupError,
    CONFIG_WATCH_DELAY_SECS, RETRY_TIMEOUT_SECS,
};
use std::time::Duration;

fn write() -> EventOps {
    EventOps { create: false, remove: false, write: true, close_write: false }
}

fn create() -> EventOps {
    EventOps { create: true, remove: false, write: false, close_write: false }
}

fn started(delay: Duration) -> Session {
    config_watcher(true, delay).unwrap().start(true).unwrap()
}

/// Feeds inputs in order and counts the notifications sent.
fn feed(s: &mut Session, inputs: &[Input]) -> usize {
    inputs.iter().filter(|i| s.handle(**i)).count()
}

#[test]
fn file_update() {
    let delay = Duration::from_secs(1);
    let mut s = started(delay);
    assert_eq!(s.action(), Action::Receive);
    assert!(!s.handle(Input::Event(create())));
    assert_eq!(s.action(), Action::ReceiveWithin(delay));
    assert!(s.handle(Input::TimedOut));
    assert_eq!(s.phase(), Phase::Idle);
}

#[test]
fn five_writes_notify_once_after_the_last() {
    let delay = Duration::from_secs(1);
    let mut s = started(delay);
    for _ in 0..5 {
        assert!(!s.handle(Input::Event(write())));
        // every event re-arms a full quiet period
        assert_eq!(s.action(), Action::ReceiveWithin(delay));
        assert_eq!(s.phase(), Phase::Draining);
    }
    assert!(s.handle(Input::TimedOut));
    assert_eq!(s.action(), Action::Receive);
}

#[test]
fn recovery_notifies_once_without_file_activity() {
    let mut s = started(Duration::from_secs(1));
    assert!(!s.handle(Input::Disconnected));
    assert_eq!(s.action(), Action::SleepSecs(RETRY_TIMEOUT_SECS));
    assert!(!s.handle(Input::RetryElapsed));
    assert_eq!(s.action(), Action::CreateWatcher);
    assert!(s.handle(Input::WatcherCreated));
    assert_eq!(s.phase(), Phase::Idle);
}

#[test]
fn retries_go_on_after_failures() {
    let mut s = started(Duration::from_secs(1));
    assert!(!s.handle(Input::Disconnected));
    for _ in 0..100 {
        assert_eq!(s.action(), Action::SleepSecs(10));
        assert!(!s.handle(Input::RetryElapsed));
        assert!(!s.handle(Input::WatcherFailed));
    }
    assert_eq!(s.phase(), Phase::Unwatched);
    assert_eq!(feed(&mut s, &[Input::RetryElapsed, Input::WatcherCreated]), 1);
}

#[test]
fn other_event_starts_no_timer() {
    let mut s = started(Duration::from_secs(1));
    assert!(!s.handle(Input::Event(EventOps::other())));
    assert_eq!(s.phase(), Phase::Idle);
    assert_eq!(s.action(), Action::Receive);
    assert!(!s.handle(Input::Garbled));
    assert_eq!(s.action(), Action::Receive);
}

#[test]
fn unsupported_platform_fails_at_once() {
    let r = config_watcher(false, Duration::from_secs(1));
    assert!(matches!(r, Err(SetupError::UnsupportedPlatform)));
}

#[test]
fn initial_watcher_failure_fails_setup() {
    let setup = config_watcher(true, Duration::from_millis(250)).unwrap();
    assert_eq!(setup.quiet_period(), Duration::from_millis(250));
    assert!(matches!(setup.start(false), Err(SetupError::WatcherCreation)));
}

#[test]
fn session_keeps_its_quiet_period() {
    let s = started(Duration::from_millis(300));
    assert_eq!(s.quiet_period(), Duration::from_millis(300));
    assert_eq!(s.phase(), Phase::Idle);
}

#[test]
fn no_relevant_events_no_notifications() {
    let mut s = started(Duration::from_secs(1));
    let inputs = [
        Input::Event(EventOps::other()),
        Input::Garbled,
        Input::TimedOut,
        Input::RetryElapsed,
        Input::WatcherFailed,
        Input::Event(EventOps::other()),
    ];
    assert_eq!(feed(&mut s, &inputs), 0);
    assert_eq!(s.phase(), Phase::Idle);
}

#[test]
fn disconnect_while_draining_drops_the_burst() {
    let mut s = started(Duration::from_secs(1));
    assert_eq!(feed(&mut s, &[Input::Event(write()), Input::Disconnected]), 0);
    assert_eq!(s.phase(), Phase::Unwatched);
}

#[test]
fn any_event_while_draining_extends_the_wait() {
    let mut s = started(Duration::from_secs(1));
    let inputs = [
        Input::Event(write()),
        Input::Event(EventOps::other()),
        Input::Garbled,
        Input::Event(create()),
    ];
    assert_eq!(feed(&mut s, &inputs), 0);
    assert_eq!(s.phase(), Phase::Draining);
    assert!(s.handle(Input::TimedOut));
}

#[test]
fn two_bursts_two_notifications() {
    let mut s = started(Duration::from_secs(1));
    let inputs = [
        Input::Event(write()),
        Input::TimedOut,
        Input::Event(create()),
        Input::Event(write()),
        Input::TimedOut,
    ];
    assert_eq!(feed(&mut s, &inputs), 2);
}

#[test]
fn transition_table() {
    let n = |p, i| next(p, i);
    assert_eq!(n(Phase::Idle, Input::Event(write())), Decision { phase: Phase::Draining, notify: false });
    assert_eq!(n(Phase::Idle, Input::TimedOut), Decision { phase: Phase::Idle, notify: false });
    assert_eq!(n(Phase::Idle, Input::WatcherCreated), Decision { phase: Phase::Idle, notify: false });
    assert_eq!(n(Phase::Draining, Input::TimedOut), Decision { phase: Phase::Idle, notify: true });
    assert_eq!(n(Phase::Unwatched, Input::Event(write())), Decision { phase: Phase::Unwatched, notify: false });
    assert_eq!(n(Phase::Recreating, Input::WatcherFailed), Decision { phase: Phase::Unwatched, notify: false });
    assert_eq!(n(Phase::Recreating, Input::WatcherCreated), Decision { phase: Phase::Idle, notify: true });
}

#[test]
fn relevance_of_each_operation() {
    let none = EventOps::other();
    assert!(!none.is_relevant());
    assert!(EventOps { create: true, ..none }.is_relevant());
    assert!(EventOps { remove: true, ..none }.is_relevant());
    assert!(EventOps { write: true, ..none }.is_relevant());
    assert!(EventOps { close_write: true, ..none }.is_relevant());
}

#[test]
fn default_intervals() {
    assert_eq!(CONFIG_WATCH_DELAY_SECS, 1);
    assert_eq!(RETRY_TIMEOUT_SECS, 10);
}
