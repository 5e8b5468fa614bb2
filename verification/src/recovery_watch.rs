//! The thread that looks after a HID LCD.

use vstd::prelude::*;
use crate::recovery::RecoveryAction;

verus! {

/// How long the thread sleeps before it looks at the LCD.
pub const WATCH_SLEEP_MS: u64 = 2000;

/// How long the thread waits for the lock of the LCD.
pub const WATCH_LOCK_WAIT_MS: u64 = 2000;

/// What the thread waits for.
#[derive(Clone, Copy, Debug, PartialEq, Eq, Structural)]
pub enum WatchPhase {
    /// Whether to stop, before it sleeps.
    BeforeSleep,
    Sleeping,
    /// Whether to stop, behind its sleep.
    BehindSleep,
    /// For the lock.
    Locking,
    /// For [`check_and_recover_lcd`](crate::aio_controller::HydroShiftLcdController).
    Checking,
    /// Whether to stop, before the daemon is told of a recovery.
    BeforeNotice,
    /// For the notice to be posted.
    Notifying,
    /// For nothing: it is over.
    Over,
}

/// What the thread does next.
#[derive(Clone, Copy, Debug, PartialEq, Eq, Structural)]
pub enum WatchAction {
    /// See whether the thread is to stop.
    PollStop,
    Sleep { ms: u64 },
    TryLock { wait_ms: u64 },
    /// Check the LCD and recover it, and give up the lock.
    Check,
    /// Have the media of the target made anew.
    Notify,
    Exit,
}

/// What came of the last action.
#[derive(Clone, Copy, Debug, PartialEq, Eq, Structural)]
pub enum WatchEvent {
    Stop(bool),
    Slept,
    Locked(bool),
    /// What the check did; nothing if it failed.
    Checked(Option<RecoveryAction>),
    /// The notice was posted, or nobody listens any more.
    Notified,
}

/// The thread that looks after a HID LCD.
#[derive(Clone, Copy, Debug, PartialEq, Eq, Structural)]
pub struct RecoveryWatch {
    /// There is a daemon to tell of a recovery.
    pub notifies: bool,
    pub phase: WatchPhase,
}

impl RecoveryWatch {
    /// The event answers the last action.
    pub open spec fn expects(self, event: WatchEvent) -> bool {
        match self.phase {
            WatchPhase::BeforeSleep | WatchPhase::BehindSleep | WatchPhase::BeforeNotice => event
                is Stop,
            WatchPhase::Sleeping => event is Slept,
            WatchPhase::Locking => event is Locked,
            WatchPhase::Checking => event is Checked,
            WatchPhase::Notifying => event is Notified,
            WatchPhase::Over => false,
        }
    }

    /// The thread in another phase.
    pub open spec fn at(self, phase: WatchPhase) -> RecoveryWatch {
        RecoveryWatch { phase, ..self }
    }

    /// What an event does. A busy LCD and a failed check are left for the next round.
    pub open spec fn turn(self, event: WatchEvent) -> (RecoveryWatch, WatchAction) {
        let again = (self.at(WatchPhase::BeforeSleep), WatchAction::PollStop);
        match (self.phase, event) {
            (WatchPhase::BeforeSleep, WatchEvent::Stop(false)) => (
                self.at(WatchPhase::Sleeping),
                WatchAction::Sleep { ms: WATCH_SLEEP_MS },
            ),
            (WatchPhase::Sleeping, _) => (self.at(WatchPhase::BehindSleep), WatchAction::PollStop),
            (WatchPhase::BehindSleep, WatchEvent::Stop(false)) => (
                self.at(WatchPhase::Locking),
                WatchAction::TryLock { wait_ms: WATCH_LOCK_WAIT_MS },
            ),
            (WatchPhase::Locking, WatchEvent::Locked(true)) => (
                self.at(WatchPhase::Checking),
                WatchAction::Check,
            ),
            (WatchPhase::Locking, _) => again,
            (WatchPhase::Checking, WatchEvent::Checked(Some(RecoveryAction::Recovered))) => {
                if self.notifies {
                    (self.at(WatchPhase::BeforeNotice), WatchAction::PollStop)
                } else {
                    again
                }
            },
            (WatchPhase::Checking, _) => again,
            (WatchPhase::BeforeNotice, WatchEvent::Stop(false)) => (
                self.at(WatchPhase::Notifying),
                WatchAction::Notify,
            ),
            (WatchPhase::BeforeNotice, _) => again,
            (WatchPhase::Notifying, _) => again,
            _ => (self.at(WatchPhase::Over), WatchAction::Exit),
        }
    }

    /// The thread at its start.
    pub open spec fn begin(notifies: bool) -> (RecoveryWatch, WatchAction) {
        (RecoveryWatch { notifies, phase: WatchPhase::BeforeSleep }, WatchAction::PollStop)
    }

    /// Starts the thread. `notifies` says whether there is a daemon to tell of a recovery.
    pub fn start(notifies: bool) -> (started: (RecoveryWatch, WatchAction))
        ensures
            started == RecoveryWatch::begin(notifies),
    {
        (RecoveryWatch { notifies, phase: WatchPhase::BeforeSleep }, WatchAction::PollStop)
    }

    /// Whether an event can be handed to [`RecoveryWatch::resume`].
    pub fn can_take(&self, event: &WatchEvent) -> (can: bool)
        ensures
            can == self.expects(*event),
    {
        match (self.phase, event) {
            (WatchPhase::BeforeSleep, WatchEvent::Stop(_))
            | (WatchPhase::BehindSleep, WatchEvent::Stop(_))
            | (WatchPhase::BeforeNotice, WatchEvent::Stop(_))
            | (WatchPhase::Sleeping, WatchEvent::Slept)
            | (WatchPhase::Locking, WatchEvent::Locked(_))
            | (WatchPhase::Checking, WatchEvent::Checked(_))
            | (WatchPhase::Notifying, WatchEvent::Notified) => true,
            _ => false,
        }
    }

    /// Takes what came of the last action, and gives the next one.
    pub fn resume(&mut self, event: WatchEvent) -> (action: WatchAction)
        requires
            old(self).expects(event),
        ensures
            (*final(self), action) == old(self).turn(event),
    {
        let (phase, action) = match (self.phase, event) {
            (WatchPhase::BeforeSleep, WatchEvent::Stop(false)) => (
                WatchPhase::Sleeping,
                WatchAction::Sleep { ms: WATCH_SLEEP_MS },
            ),
            (WatchPhase::Sleeping, _) => (WatchPhase::BehindSleep, WatchAction::PollStop),
            (WatchPhase::BehindSleep, WatchEvent::Stop(false)) => (
                WatchPhase::Locking,
                WatchAction::TryLock { wait_ms: WATCH_LOCK_WAIT_MS },
            ),
            (WatchPhase::Locking, WatchEvent::Locked(true)) => (
                WatchPhase::Checking,
                WatchAction::Check,
            ),
            (WatchPhase::Checking, WatchEvent::Checked(Some(RecoveryAction::Recovered))) => {
                if self.notifies {
                    (WatchPhase::BeforeNotice, WatchAction::PollStop)
                } else {
                    (WatchPhase::BeforeSleep, WatchAction::PollStop)
                }
            },
            (WatchPhase::BeforeNotice, WatchEvent::Stop(false)) => (
                WatchPhase::Notifying,
                WatchAction::Notify,
            ),
            (WatchPhase::Locking, _)
            | (WatchPhase::Checking, _)
            | (WatchPhase::BeforeNotice, _)
            | (WatchPhase::Notifying, _) => (WatchPhase::BeforeSleep, WatchAction::PollStop),
            _ => (WatchPhase::Over, WatchAction::Exit),
        };
        self.phase = phase;
        action
    }
}

/// The thread behind these events, with its last action.
pub open spec fn watch_run(notifies: bool, events: Seq<WatchEvent>) -> (RecoveryWatch, WatchAction)
    decreases events.len(),
{
    if events.len() == 0 {
        RecoveryWatch::begin(notifies)
    } else {
        watch_run(notifies, events.drop_last()).0.turn(events.last())
    }
}

/// Each of these events answers the action before it.
pub open spec fn watch_events(notifies: bool, events: Seq<WatchEvent>) -> bool
    decreases events.len(),
{
    events.len() > 0 ==> {
        &&& watch_events(notifies, events.drop_last())
        &&& watch_run(notifies, events.drop_last()).0.expects(events.last())
    }
}

/// The daemon is told to make the media anew only if it wants to be, right after a check that
/// recovered the LCD, and not once the thread is to stop.
pub proof fn notice_follows_a_recovery(notifies: bool, events: Seq<WatchEvent>)
    requires
        watch_events(notifies, events),
        watch_run(notifies, events).1 == WatchAction::Notify,
    ensures
        notifies,
        events.len() >= 2,
        events[events.len() - 1] == WatchEvent::Stop(false),
        events[events.len() - 2] == WatchEvent::Checked(Some(RecoveryAction::Recovered)),
{
    watch_keeps_notifies(notifies, events);
    let before = events.drop_last();
    assert(events.len() > 0);
    assert(watch_run(notifies, before).0.phase == WatchPhase::BeforeNotice);
    assert(before.len() > 0);
    watch_keeps_notifies(notifies, before.drop_last());
    assert(before.last() == events[events.len() - 2]);
}

proof fn watch_keeps_notifies(notifies: bool, events: Seq<WatchEvent>)
    ensures
        watch_run(notifies, events).0.notifies == notifies,
    decreases events.len(),
{
    if events.len() > 0 {
        watch_keeps_notifies(notifies, events.drop_last());
    }
}

/// The LCD is checked only with its lock held, behind a sleep, and with no stop asked for between the
/// two.
pub proof fn check_follows_sleep_and_lock(notifies: bool, events: Seq<WatchEvent>)
    requires
        watch_events(notifies, events),
        watch_run(notifies, events).1 == WatchAction::Check,
    ensures
        events.len() >= 4,
        events[events.len() - 1] == WatchEvent::Locked(true),
        events[events.len() - 2] == WatchEvent::Stop(false),
        events[events.len() - 3] == WatchEvent::Slept,
        events[events.len() - 4] == WatchEvent::Stop(false),
{
    let unlocked = events.drop_last();
    assert(watch_run(notifies, unlocked).0.phase == WatchPhase::Locking);
    assert(watch_events(notifies, unlocked));
    let slept = unlocked.drop_last();
    assert(watch_run(notifies, slept).0.phase == WatchPhase::BehindSleep);
    let asleep = slept.drop_last();
    assert(watch_events(notifies, slept));
    assert(watch_run(notifies, asleep).0.phase == WatchPhase::Sleeping);
    assert(watch_run(notifies, asleep.drop_last()).0.phase == WatchPhase::BeforeSleep);
    assert(unlocked.last() == events[events.len() - 2]);
    assert(slept.last() == events[events.len() - 3]);
    assert(asleep.last() == events[events.len() - 4]);
}

/// The phase shows in the last action and in the event before it.
proof fn lemma_watch_shows(notifies: bool, events: Seq<WatchEvent>)
    requires
        watch_events(notifies, events),
    ensures
        ({
            let (watch, last) = watch_run(notifies, events);
            let recovered = events.len() > 0 && events.last() == WatchEvent::Checked(
                Some(RecoveryAction::Recovered),
            );
            let slept = events.len() > 0 && events.last() is Slept;
            &&& watch.notifies == notifies
            &&& match watch.phase {
                WatchPhase::BeforeSleep => last == WatchAction::PollStop && !slept && !(recovered
                    && notifies),
                WatchPhase::Sleeping => last is Sleep,
                WatchPhase::BehindSleep => last == WatchAction::PollStop && slept,
                WatchPhase::Locking => last is TryLock,
                WatchPhase::Checking => last == WatchAction::Check,
                WatchPhase::BeforeNotice => last == WatchAction::PollStop && recovered && notifies,
                WatchPhase::Notifying => last == WatchAction::Notify,
                WatchPhase::Over => last == WatchAction::Exit,
            }
        }),
    decreases events.len(),
{
    if events.len() > 0 {
        lemma_watch_shows(notifies, events.drop_last());
    }
}

/// The thread goes round until it is asked to stop: it sleeps for two seconds, waits two seconds for the
/// lock, and checks the LCD if it gets it. A recovery is told the daemon, if there is one, unless the
/// thread is to stop by then. It exits when it is asked to stop before or behind its sleep, and for no
/// other reason: not because the LCD is busy, nor because a check failed.
pub proof fn watch_goes_round_until_it_is_stopped(notifies: bool, events: Seq<WatchEvent>)
    requires
        watch_events(notifies, events),
        events.len() > 0,
    ensures
        ({
            let action = watch_run(notifies, events).1;
            let last = events[events.len() - 2];
            let behind_sleep = events.len() >= 2 && last is Slept;
            let behind_recovery = events.len() >= 2 && notifies && last == WatchEvent::Checked(
                Some(RecoveryAction::Recovered),
            );
            match events.last() {
                WatchEvent::Stop(true) => action == if behind_recovery {
                    WatchAction::PollStop
                } else {
                    WatchAction::Exit
                },
                WatchEvent::Stop(false) => action == if behind_recovery {
                    WatchAction::Notify
                } else if behind_sleep {
                    WatchAction::TryLock { wait_ms: 2000 }
                } else {
                    WatchAction::Sleep { ms: 2000 }
                },
                WatchEvent::Locked(true) => action == WatchAction::Check,
                WatchEvent::Locked(false) => action == WatchAction::PollStop,
                WatchEvent::Slept | WatchEvent::Checked(_) | WatchEvent::Notified => action
                    == WatchAction::PollStop,
            }
        }),
{
    let front = events.drop_last();
    lemma_watch_shows(notifies, front);
    if front.len() > 0 {
        assert(front.last() == events[events.len() - 2]);
    }
}

/// The thread takes the answer to its last action, and once it has left, nothing.
pub proof fn watch_takes_the_answer(notifies: bool, events: Seq<WatchEvent>, event: WatchEvent)
    requires
        watch_events(notifies, events),
    ensures
        watch_run(notifies, events).0.expects(event) == match watch_run(notifies, events).1 {
            WatchAction::PollStop => event is Stop,
            WatchAction::Sleep { .. } => event is Slept,
            WatchAction::TryLock { .. } => event is Locked,
            WatchAction::Check => event is Checked,
            WatchAction::Notify => event is Notified,
            WatchAction::Exit => false,
        },
        watch_run(notifies, Seq::empty()).1 == WatchAction::PollStop,
{
    lemma_watch_shows(notifies, events);
}

} // verus!
