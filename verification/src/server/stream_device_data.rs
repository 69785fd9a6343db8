//! The poll-driven push adapter: one streaming session's state machine.
//!
//! The delivery mechanism repeatedly asks whether the next snapshot is
//! ready, while the desired behaviour is push-like: emit once eagerly,
//! then no more than once per refresh interval, with never more than one
//! refresh computation in flight. The decisions stand here as functions
//! from session state to next state and action; the caller performs the
//! actions (spawning the refresh task, sleeping the interval, resuming
//! the parked consumer) with whatever scheduler it runs on.

use vstd::prelude::*;

use crate::server::utils::DeviceEntry;

verus! {

/// One streaming session's state: whether a refresh computation is in
/// flight, whether any cycle has completed yet, the single-slot buffer
/// of the last computed snapshot, and whether a consumer's continuation
/// is parked awaiting a result.
pub struct SessionState {
    pub is_working: bool,
    pub did_prepare_any_data: bool,
    pub device_data: Option<Vec<DeviceEntry>>,
    pub has_waker: bool,
}

/// What the caller must do after a poll: start a refresh task (sleeping
/// the refresh interval first unless this is the session's first cycle),
/// and deliver the taken snapshot if one was ready.
pub struct PollAction {
    pub start_refresh: bool,
    pub sleep_first: bool,
    pub output: Option<Vec<DeviceEntry>>,
}

/// The session state one poll leaves behind: the continuation is parked,
/// the result slot is emptied, and a refresh is in flight (the one just
/// started, or the one that already was).
pub open spec fn polled(s: SessionState) -> SessionState {
    SessionState {
        is_working: true,
        did_prepare_any_data: s.did_prepare_any_data,
        device_data: None,
        has_waker: true,
    }
}

/// A poll starts a refresh exactly when none is in flight.
pub open spec fn poll_starts_refresh(s: SessionState) -> bool {
    !s.is_working
}

/// The session state a completed refresh leaves behind: the snapshot
/// fills the result slot, the session has completed a cycle, the parked
/// continuation has been taken, and no refresh is in flight any more.
pub open spec fn refresh_completed(s: SessionState, data: Vec<DeviceEntry>) -> SessionState {
    SessionState {
        is_working: false,
        did_prepare_any_data: true,
        device_data: Some(data),
        has_waker: false,
    }
}

impl SessionState {
    /// A fresh session: idle, no cycle completed, nothing buffered,
    /// nobody parked.
    pub fn new() -> (s: SessionState)
        ensures
            !s.is_working,
            !s.did_prepare_any_data,
            s.device_data is None,
            !s.has_waker,
    {
        SessionState {
            is_working: false,
            did_prepare_any_data: false,
            device_data: None,
            has_waker: false,
        }
    }

    /// One poll. The consumer's continuation is always (re)parked first.
    /// If the session is idle, a refresh is started, sleeping the
    /// interval first on every cycle but the session's first. The result
    /// slot is taken (and so cleared: each snapshot is delivered exactly
    /// once) and handed back, full or not.
    pub fn on_poll(&mut self) -> (action: PollAction)
        ensures
            *final(self) == polled(*old(self)),
            action.start_refresh == poll_starts_refresh(*old(self)),
            action.sleep_first == old(self).did_prepare_any_data,
            action.output == old(self).device_data,
    {
        self.has_waker = true;
        let output = self.device_data.take();
        let start_refresh = !self.is_working;
        self.is_working = true;
        let sleep_first = self.did_prepare_any_data;
        PollAction { start_refresh, sleep_first, output }
    }

    /// A refresh task finished assembling a snapshot: buffer it, record
    /// that a cycle completed, hand the refresh flag back, and say
    /// whether a parked consumer must be resumed (its continuation is
    /// taken, so it is resumed at most once per cycle).
    pub fn on_refresh_done(&mut self, data: Vec<DeviceEntry>) -> (wake: bool)
        ensures
            *final(self) == refresh_completed(*old(self), data),
            wake == old(self).has_waker,
    {
        self.did_prepare_any_data = true;
        self.device_data = Some(data);
        let wake = self.has_waker;
        self.has_waker = false;
        self.is_working = false;
        wake
    }

    /// Session teardown: drop the parked continuation so no vanished
    /// consumer is ever resumed. An in-flight refresh is left to run to
    /// completion and have its result discarded.
    pub fn on_disconnect(&mut self)
        ensures
            final(self).has_waker == false,
            final(self).is_working == old(self).is_working,
            final(self).did_prepare_any_data == old(self).did_prepare_any_data,
            final(self).device_data == old(self).device_data,
    {
        self.has_waker = false;
    }
}

/// How many refresh tasks a run of `n` back-to-back polls starts, no
/// refresh completing in between.
pub open spec fn refreshes_started(s: SessionState, n: nat) -> nat
    decreases n,
{
    if n == 0 {
        0
    } else {
        (if poll_starts_refresh(s) {
            1nat
        } else {
            0nat
        }) + refreshes_started(polled(s), (n - 1) as nat)
    }
}

/// Law: however many polls hit a session before its refresh completes,
/// at most one refresh task is started — none when one is already in
/// flight, exactly one from idle.
pub proof fn lemma_poll_burst_starts_at_most_one_refresh(s: SessionState, n: nat)
    requires
        n >= 1,
    ensures
        refreshes_started(s, n) == if s.is_working {
            0nat
        } else {
            1nat
        },
    decreases n,
{
    if n == 1 {
        assert(refreshes_started(polled(s), 0) == 0);
    } else {
        lemma_poll_burst_starts_at_most_one_refresh(polled(s), (n - 1) as nat);
        assert(!poll_starts_refresh(polled(s)));
    }
}

/// Law: on a fresh session the first poll starts a refresh that skips
/// the interval sleep, so the first snapshot comes without waiting a
/// full refresh interval; once that refresh completes, its snapshot sits
/// ready in the slot, and the next poll both takes it and starts a
/// refresh that does sleep the full interval first — so a second,
/// distinct snapshot cannot be ready before the interval has elapsed.
pub proof fn lemma_first_cycle_eager_then_rate_limited(fresh: SessionState, data: Vec<DeviceEntry>)
    requires
        !fresh.is_working,
        !fresh.did_prepare_any_data,
        fresh.device_data is None,
    ensures
        poll_starts_refresh(fresh),
        !fresh.did_prepare_any_data,
        refresh_completed(polled(fresh), data).device_data == Some(data),
        poll_starts_refresh(refresh_completed(polled(fresh), data)),
        refresh_completed(polled(fresh), data).did_prepare_any_data,
        polled(refresh_completed(polled(fresh), data)).device_data is None,
{
}

} // verus!
