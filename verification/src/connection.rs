//! Whether the bound controller is present, when it was last seen active and
//! when its loss was first noticed.
//!
//! Times are milliseconds on the host's monotonic clock.

use vstd::prelude::*;

verus! {

/// How long the loop waits between two presence checks.
pub const CONNECTION_CHECK_INTERVAL_MS: u64 = 1000;

/// How long the loop sleeps before it looks again while the controller is gone.
pub const DISCONNECTED_SLEEP_MS: u64 = 100;

/// How long the loop sleeps at the end of an ordinary tick.
pub const TICK_SLEEP_MS: u64 = 4;

/// The time that passed from `earlier` to `later`, and zero where `later` is
/// not after `earlier`.
pub open spec fn elapsed_between(earlier: u64, later: u64) -> int {
    if later >= earlier {
        later - earlier
    } else {
        0
    }
}

/// The time that passed from `earlier` to `later` on a clock that never runs
/// backwards.
pub fn elapsed_ms(earlier: u64, later: u64) -> (elapsed: u64)
    ensures
        elapsed == elapsed_between(earlier, later),
{
    if later >= earlier {
        later - earlier
    } else {
        0
    }
}

/// Connection status of the bound controller.
#[derive(Clone, Copy, Debug, PartialEq, Eq)]
pub struct ConnectionState {
    /// Whether the controller is taken to be present.
    pub connected: bool,
    /// When the loop last ran with the controller, or reconnected to it.
    pub last_activity: u64,
    /// When the loss of the controller was noticed, while it is gone.
    pub connection_lost_at: Option<u64>,
}

impl ConnectionState {
    /// A loss time is recorded exactly while the controller is gone.
    pub open spec fn wf(self) -> bool {
        self.connected <==> self.connection_lost_at is None
    }

    /// The status of a controller that was just bound at `now`.
    pub open spec fn fresh(now: u64) -> ConnectionState {
        ConnectionState { connected: true, last_activity: now, connection_lost_at: None }
    }

    /// The status after the loss of the controller was noticed at `now`.
    pub open spec fn lost(self, now: u64) -> ConnectionState {
        ConnectionState { connected: false, connection_lost_at: Some(now), ..self }
    }

    /// The status after the controller was found again at `now`.
    pub open spec fn restored(self, now: u64) -> ConnectionState {
        ConnectionState { connected: true, last_activity: now, connection_lost_at: None }
    }

    /// The status after the loop ran at `now`.
    pub open spec fn touched(self, now: u64) -> ConnectionState {
        ConnectionState { last_activity: now, ..self }
    }

    /// The status of a controller that was just bound at `now`.
    pub fn new(now: u64) -> (state: Self)
        ensures
            state == Self::fresh(now),
            state.wf(),
    {
        ConnectionState { connected: true, last_activity: now, connection_lost_at: None }
    }

    /// Records that the controller was found gone at `now`.
    pub fn mark_lost(&mut self, now: u64)
        ensures
            *final(self) == old(self).lost(now),
            final(self).wf(),
    {
        self.connected = false;
        self.connection_lost_at = Some(now);
    }

    /// Records that the controller was found again at `now`.
    pub fn mark_restored(&mut self, now: u64)
        ensures
            *final(self) == old(self).restored(now),
            final(self).wf(),
    {
        self.connected = true;
        self.connection_lost_at = None;
        self.last_activity = now;
    }

    /// Records that the loop ran at `now`.
    pub fn touch(&mut self, now: u64)
        ensures
            *final(self) == old(self).touched(now),
            old(self).wf() ==> final(self).wf(),
    {
        self.last_activity = now;
    }
}

} // verus!
