use vstd::prelude::*;

verus! {

/// The state word of a parker.
#[derive(Debug, Clone, Copy, PartialEq, Eq, Structural)]
pub enum ParkState {
    /// Nothing pending, nobody asleep.
    Idle,
    /// A notification arrived and was not consumed yet.
    Notified,
    /// The parking thread committed to waiting on the condition variable.
    Sleeping,
}

/// What `park` tells the parking thread to do.
#[derive(Debug, Clone, Copy, PartialEq, Eq, Structural)]
pub enum ParkAction {
    /// A notification was consumed: return at once.
    Return,
    /// Wait on the condition variable, until the deadline if there is one.
    Sleep(Option<u64>),
}

/// What to do after the condition variable let the sleeper go.
#[derive(Debug, Clone, Copy, PartialEq, Eq, Structural)]
pub enum WakeAction {
    /// A notification was consumed: return.
    Return,
    /// The deadline passed: return, reporting a timeout.
    TimedOut,
    /// The wakeup was spurious: wait again, for the remaining time if any.
    Wait(Option<u64>),
}

pub open spec fn after_notify(s: ParkState) -> ParkState {
    ParkState::Notified
}

/// A notify must signal the condition variable exactly when the other side
/// is asleep.
pub open spec fn notify_signals(s: ParkState) -> bool {
    s == ParkState::Sleeping
}

pub open spec fn park_action(s: ParkState, deadline: Option<u64>) -> ParkAction {
    if s == ParkState::Notified {
        ParkAction::Return
    } else {
        ParkAction::Sleep(deadline)
    }
}

pub open spec fn after_park(s: ParkState) -> ParkState {
    if s == ParkState::Notified {
        ParkState::Idle
    } else {
        ParkState::Sleeping
    }
}

/// The deadline `dur` after `now`, saturating at the largest instant.
pub open spec fn deadline_of(now: u64, dur: Option<u64>) -> Option<u64> {
    match dur {
        Some(d) => Some(
            if now + d > u64::MAX {
                u64::MAX
            } else {
                (now + d) as u64
            },
        ),
        None => None,
    }
}

pub open spec fn wake_action(s: ParkState, deadline: Option<u64>, now: u64) -> WakeAction {
    if s == ParkState::Notified {
        WakeAction::Return
    } else {
        match deadline {
            Some(until) => if now >= until {
                WakeAction::TimedOut
            } else {
                WakeAction::Wait(Some((until - now) as u64))
            },
            None => WakeAction::Wait(None),
        }
    }
}

pub open spec fn after_wake(s: ParkState, deadline: Option<u64>, now: u64) -> ParkState {
    match wake_action(s, deadline, now) {
        WakeAction::Wait(_) => s,
        _ => ParkState::Idle,
    }
}

/// The decisions of a thread parker: a notification that arrives while
/// nobody sleeps is kept as `Notified`, so that a later `park` returns at
/// once; one that arrives while the other side sleeps asks for a signal.
///
/// The caller holds the parker under the mutex that pairs with the condition
/// variable for every transition into or out of `Sleeping`.
#[derive(Debug)]
pub struct ThreadNotify {
    state: ParkState,
}

impl ThreadNotify {
    pub closed spec fn state(&self) -> ParkState {
        self.state
    }

    pub fn new() -> (r: ThreadNotify)
        ensures
            r.state() == ParkState::Idle,
    {
        ThreadNotify { state: ParkState::Idle }
    }

    /// Discards any earlier notification; to be called right before a fresh
    /// wait loop.
    pub fn clear(&mut self)
        ensures
            final(self).state() == ParkState::Idle,
    {
        self.state = ParkState::Idle;
    }

    /// The current state word.
    pub fn current_state(&self) -> (r: ParkState)
        ensures
            r == self.state(),
    {
        self.state
    }

    /// Whether a notification is pending.
    pub fn is_notified(&self) -> (r: bool)
        ensures
            r == (self.state() == ParkState::Notified),
    {
        match self.state {
            ParkState::Notified => true,
            _ => false,
        }
    }

    /// Records a notification. Returns `true` when the condition variable
    /// must be signalled, because the other side is asleep.
    pub fn notify(&mut self) -> (signal: bool)
        ensures
            final(self).state() == after_notify(old(self).state()),
            signal == notify_signals(old(self).state()),
    {
        let signal = match self.state {
            ParkState::Sleeping => true,
            _ => false,
        };
        self.state = ParkState::Notified;
        signal
    }

    /// Starts a wait with no deadline.
    pub fn park(&mut self) -> (r: ParkAction)
        requires
            old(self).state() != ParkState::Sleeping,
        ensures
            final(self).state() == after_park(old(self).state()),
            r == park_action(old(self).state(), None),
    {
        self.park_timeout(0, None)
    }

    /// Starts a wait at instant `now` that lasts at most `dur`: consumes a
    /// pending notification and returns at once, or commits to sleeping
    /// until the deadline.
    pub fn park_timeout(&mut self, now: u64, dur: Option<u64>) -> (r: ParkAction)
        requires
            old(self).state() != ParkState::Sleeping,
        ensures
            final(self).state() == after_park(old(self).state()),
            r == park_action(old(self).state(), deadline_of(now, dur)),
    {
        match self.state {
            ParkState::Notified => {
                self.state = ParkState::Idle;
                ParkAction::Return
            },
            _ => {
                self.state = ParkState::Sleeping;
                let deadline = match dur {
                    Some(d) => Some(now.saturating_add(d)),
                    None => None,
                };
                ParkAction::Sleep(deadline)
            },
        }
    }

    /// Decides, at instant `now`, what a sleeper let go by the condition
    /// variable does: return on a notification, time out once the deadline
    /// passed, else wait again for the time that remains.
    pub fn wake_up(&mut self, deadline: Option<u64>, now: u64) -> (r: WakeAction)
        requires
            old(self).state() != ParkState::Idle,
        ensures
            final(self).state() == after_wake(old(self).state(), deadline, now),
            r == wake_action(old(self).state(), deadline, now),
    {
        match self.state {
            ParkState::Notified => {
                self.state = ParkState::Idle;
                WakeAction::Return
            },
            _ => match deadline {
                Some(until) => if now >= until {
                    self.state = ParkState::Idle;
                    WakeAction::TimedOut
                } else {
                    WakeAction::Wait(Some(until - now))
                },
                None => WakeAction::Wait(None),
            },
        }
    }
}

/// No notification is lost between one `notify` and one `park` on a
/// cleared parker, in either order: notified first, `park` returns at once;
/// parked first, `notify` asks for the signal, and the sleeper, once let go,
/// returns.
pub proof fn lemma_no_missed_wakeup(deadline: Option<u64>, now: u64)
    ensures
        park_action(after_notify(ParkState::Idle), deadline) == ParkAction::Return,
        after_park(after_notify(ParkState::Idle)) == ParkState::Idle,
        park_action(ParkState::Idle, deadline) == ParkAction::Sleep(deadline),
        notify_signals(after_park(ParkState::Idle)),
        wake_action(after_notify(after_park(ParkState::Idle)), deadline, now) == WakeAction::Return,
        after_wake(after_notify(after_park(ParkState::Idle)), deadline, now) == ParkState::Idle,
{
}

/// A sleeper that is never notified is let go with a timeout once its
/// deadline has passed, and until then waits exactly for the time left.
pub proof fn lemma_sleep_times_out(until: u64, now: u64)
    ensures
        now >= until ==> wake_action(ParkState::Sleeping, Some(until), now) == WakeAction::TimedOut
            && after_wake(ParkState::Sleeping, Some(until), now) == ParkState::Idle,
        now < until ==> wake_action(ParkState::Sleeping, Some(until), now) == WakeAction::Wait(
            Some((until - now) as u64),
        ),
{
}

} // verus!
