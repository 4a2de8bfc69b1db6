//! The watch session: a state machine that turns the inputs of a watch loop
//! (events, timeouts, a dead event channel, retry ticks, creation outcomes)
//! into the next thing to wait for and into reload notifications.
use crate::event::EventOps;
use core::time::Duration;
use vstd::prelude::*;

verus! {

/// Seconds to wait before trying to recreate a watcher whose event channel died.
pub const RETRY_TIMEOUT_SECS: u64 = 10;

/// Default quiet period, in seconds: a burst of changes is over once no event
/// has arrived for this long.
pub const CONFIG_WATCH_DELAY_SECS: u64 = 1;

/// Where the watch loop stands.
#[derive(Clone, Copy, Debug, PartialEq, Eq, Structural)]
pub enum Phase {
    /// A watcher is live; waiting, without a deadline, for its next event.
    Idle,
    /// A burst of changes is in progress; waiting for one quiet period
    /// without events before notifying.
    Draining,
    /// The watcher died; waiting out the retry interval.
    Unwatched,
    /// The retry interval is over; a new watcher is being created.
    Recreating,
}

/// What the watch loop observed while carrying out the last action.
#[derive(Clone, Copy, Debug, PartialEq, Eq, Structural)]
pub enum Input {
    /// An event was received and its operations could be read.
    Event(EventOps),
    /// An event was received whose operations could not be read.
    Garbled,
    /// A bounded wait for the next event ran out.
    TimedOut,
    /// The event channel is closed: the watcher is dead.
    Disconnected,
    /// The retry interval has passed.
    RetryElapsed,
    /// A new watcher was created.
    WatcherCreated,
    /// Creating a new watcher failed.
    WatcherFailed,
}

/// What the watch loop does next.
#[derive(Clone, Copy, Debug, PartialEq, Eq)]
pub enum Action {
    /// Block until the next event arrives or the channel closes.
    Receive,
    /// Wait for the next event for at most the given time.
    ReceiveWithin(Duration),
    /// Sleep for the given number of seconds.
    SleepSecs(u64),
    /// Try to create a watcher for the configured paths.
    CreateWatcher,
}

/// The outcome of one input: the phase that follows, and whether a reload
/// notification is to be sent now.
#[derive(Clone, Copy, Debug, PartialEq, Eq, Structural)]
pub struct Decision {
    pub phase: Phase,
    pub notify: bool,
}

/// The transition table of the watch loop. An input that does not answer
/// the action of the current phase leaves the phase as it is.
pub open spec fn transition(p: Phase, i: Input) -> Decision {
    match (p, i) {
        (Phase::Idle, Input::Event(ops)) => Decision {
            phase: if ops.relevant() { Phase::Draining } else { Phase::Idle },
            notify: false,
        },
        (Phase::Idle, Input::Disconnected) => Decision { phase: Phase::Unwatched, notify: false },
        (Phase::Draining, Input::Event(_)) => Decision { phase: Phase::Draining, notify: false },
        (Phase::Draining, Input::Garbled) => Decision { phase: Phase::Draining, notify: false },
        (Phase::Draining, Input::TimedOut) => Decision { phase: Phase::Idle, notify: true },
        (Phase::Draining, Input::Disconnected) => Decision {
            phase: Phase::Unwatched,
            notify: false,
        },
        (Phase::Unwatched, Input::RetryElapsed) => Decision {
            phase: Phase::Recreating,
            notify: false,
        },
        (Phase::Recreating, Input::WatcherCreated) => Decision { phase: Phase::Idle, notify: true },
        (Phase::Recreating, Input::WatcherFailed) => Decision {
            phase: Phase::Unwatched,
            notify: false,
        },
        _ => Decision { phase: p, notify: false },
    }
}

/// The action that the watch loop carries out in phase `p`.
pub open spec fn action_for(p: Phase, quiet_period: Duration) -> Action {
    match p {
        Phase::Idle => Action::Receive,
        Phase::Draining => Action::ReceiveWithin(quiet_period),
        Phase::Unwatched => Action::SleepSecs(RETRY_TIMEOUT_SECS),
        Phase::Recreating => Action::CreateWatcher,
    }
}

/// Decides the phase that follows `p` on input `i`, and whether to notify.
pub fn next(p: Phase, i: Input) -> (d: Decision)
    ensures
        d == transition(p, i),
{
    let stay = Decision { phase: p, notify: false };
    match p {
        Phase::Idle => match i {
            Input::Event(ops) => {
                if ops.is_relevant() {
                    Decision { phase: Phase::Draining, notify: false }
                } else {
                    stay
                }
            },
            Input::Disconnected => Decision { phase: Phase::Unwatched, notify: false },
            _ => stay,
        },
        Phase::Draining => match i {
            Input::Event(_) | Input::Garbled => stay,
            Input::TimedOut => Decision { phase: Phase::Idle, notify: true },
            Input::Disconnected => Decision { phase: Phase::Unwatched, notify: false },
            _ => stay,
        },
        Phase::Unwatched => match i {
            Input::RetryElapsed => Decision { phase: Phase::Recreating, notify: false },
            _ => stay,
        },
        Phase::Recreating => match i {
            Input::WatcherCreated => Decision { phase: Phase::Idle, notify: true },
            Input::WatcherFailed => Decision { phase: Phase::Unwatched, notify: false },
            _ => stay,
        },
    }
}

/// Why a watch session could not be set up.
#[derive(Clone, Copy, Debug, PartialEq, Eq, Structural)]
pub enum SetupError {
    /// This platform cannot deliver reload notifications.
    UnsupportedPlatform,
    /// The initial watcher could not be created for the configured paths.
    WatcherCreation,
}

/// A session that passed the platform check and awaits its first watcher.
pub struct Setup {
    quiet_period: Duration,
}

impl View for Setup {
    type V = Duration;

    closed spec fn view(&self) -> Duration {
        self.quiet_period
    }
}

/// What a running session is: its phase and its quiet period.
pub struct SessionView {
    pub phase: Phase,
    pub quiet_period: Duration,
}

/// A running watch session. One exists only after the platform check passed
/// and the first watcher was created.
pub struct Session {
    phase: Phase,
    quiet_period: Duration,
}

impl View for Session {
    type V = SessionView;

    closed spec fn view(&self) -> SessionView {
        SessionView { phase: self.phase, quiet_period: self.quiet_period }
    }
}

/// Begins setting up a watch session with quiet period `delay`. Fails at once
/// where the platform cannot deliver reload notifications, so that no watcher
/// is created and no session ever runs there.
pub fn config_watcher(signal_supported: bool, delay: Duration) -> (r: Result<Setup, SetupError>)
    ensures
        signal_supported <==> r is Ok,
        r matches Ok(s) ==> s@ == delay,
        r matches Err(e) ==> e == SetupError::UnsupportedPlatform,
{
    if signal_supported {
        Ok(Setup { quiet_period: delay })
    } else {
        Err(SetupError::UnsupportedPlatform)
    }
}

impl Setup {
    /// Completes the setup once the first watcher has been created, before
    /// any background work starts, or reports that its creation failed.
    pub fn start(self, watcher_created: bool) -> (r: Result<Session, SetupError>)
        ensures
            watcher_created <==> r is Ok,
            r matches Ok(s) ==> s@ == (SessionView { phase: Phase::Idle, quiet_period: self@ }),
            r matches Err(e) ==> e == SetupError::WatcherCreation,
    {
        if watcher_created {
            Ok(Session { phase: Phase::Idle, quiet_period: self.quiet_period })
        } else {
            Err(SetupError::WatcherCreation)
        }
    }

    pub fn quiet_period(&self) -> (r: Duration)
        ensures
            r == self@,
    {
        self.quiet_period
    }
}

impl Session {
    /// What the watch loop is to do now.
    pub fn action(&self) -> (a: Action)
        ensures
            a == action_for(self@.phase, self@.quiet_period),
    {
        match self.phase {
            Phase::Idle => Action::Receive,
            Phase::Draining => Action::ReceiveWithin(self.quiet_period),
            Phase::Unwatched => Action::SleepSecs(RETRY_TIMEOUT_SECS),
            Phase::Recreating => Action::CreateWatcher,
        }
    }

    /// Takes in what the last action observed; returns whether a reload
    /// notification is to be sent now.
    pub fn handle(&mut self, input: Input) -> (notify: bool)
        ensures
            final(self)@ == (SessionView {
                phase: transition(old(self)@.phase, input).phase,
                quiet_period: old(self)@.quiet_period,
            }),
            notify == transition(old(self)@.phase, input).notify,
    {
        let d = next(self.phase, input);
        self.phase = d.phase;
        d.notify
    }

    pub fn phase(&self) -> (p: Phase)
        ensures
            p == self@.phase,
    {
        self.phase
    }

    pub fn quiet_period(&self) -> (q: Duration)
        ensures
            q == self@.quiet_period,
    {
        self.quiet_period
    }
}

} // verus!
