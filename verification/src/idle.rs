//! The idle-state tracker: a deterministic state machine that reconciles raw
//! input-activity signals (push notifications or polled idle-seconds) into an
//! Active/Idle status with change detection.
//!
//! All timestamps and durations are in milliseconds. The tracker never reads
//! a clock; every operation takes the caller's notion of `now`.

use vstd::prelude::*;

verus! {

/// State of the idle tracker.
pub struct Tracker {
    /// Timestamp of the most recent known user input, in ms.
    pub last_input_time: u64,
    /// Whether the user is currently considered idle.
    pub is_idle: bool,
    /// Latched change flag: set by every state-altering call, cleared by a
    /// status read, so each status object reports a change exactly once.
    pub is_changed: bool,
    /// Inactivity threshold in ms.
    pub idle_timeout: u64,
    /// Timestamp of the most recent activity resumption, used only by the
    /// reactive protocol to avoid resurrecting a stale pre-idle timestamp.
    pub idle_end: Option<u64>,
}

/// A pushed idle-notify signal, as the compositor reports it.
#[derive(Clone, Copy, PartialEq, Eq, Structural, Debug)]
pub enum IdleEvent {
    Idled,
    Resumed,
}

/// A reconciled status, as reported to callers.
#[derive(Clone, Copy, PartialEq, Eq, Structural, Debug)]
pub enum Status {
    Idle { changed: bool, last_input_time: u64, duration: u64 },
    Active { changed: bool, last_input_time: u64 },
}

pub open spec fn status_changed(s: Status) -> bool {
    match s {
        Status::Idle { changed, .. } => changed,
        Status::Active { changed, .. } => changed,
    }
}

pub open spec fn status_is_idle(s: Status) -> bool {
    match s {
        Status::Idle { .. } => true,
        Status::Active { .. } => false,
    }
}

pub open spec fn status_last_input(s: Status) -> u64 {
    match s {
        Status::Idle { last_input_time, .. } => last_input_time,
        Status::Active { last_input_time, .. } => last_input_time,
    }
}

pub open spec fn status_duration(s: Status) -> u64 {
    match s {
        Status::Idle { duration, .. } => duration,
        Status::Active { .. } => 0,
    }
}

/// The status derived from tracker state `t` at time `now`, before the
/// change latch is cleared.
pub open spec fn status_of(t: Tracker, now: u64) -> Status {
    if t.is_idle {
        Status::Idle {
            changed: t.is_changed,
            last_input_time: t.last_input_time,
            duration: (now - t.last_input_time) as u64,
        }
    } else {
        Status::Active { changed: t.is_changed, last_input_time: t.last_input_time }
    }
}

/// State after a status read: only the change latch is cleared.
pub open spec fn after_read(t: Tracker) -> Tracker {
    Tracker { is_changed: false, ..t }
}

/// State after a push-protocol idle notification: idle is set without
/// touching `last_input_time`.
pub open spec fn marked_idle(t: Tracker) -> Tracker {
    Tracker { is_idle: true, is_changed: true, ..t }
}

/// State after a push-protocol resume notification at `now`.
pub open spec fn marked_not_idle(t: Tracker, now: u64) -> Tracker {
    Tracker {
        last_input_time: now,
        is_idle: false,
        is_changed: true,
        idle_end: Some(now),
        ..t
    }
}

/// The idle threshold in whole seconds, as the polled protocol compares it.
pub open spec fn timeout_secs(t: Tracker) -> u64 {
    t.idle_timeout / 1000
}

/// State after a polled-idle-seconds update: `last_input_time` is
/// back-computed, and idleness flips when `seconds_since_input` crosses the
/// threshold (a tie counts as idle).
pub open spec fn polled(t: Tracker, now: u64, seconds_since_input: u32) -> Tracker {
    let t2 = Tracker { last_input_time: (now - seconds_since_input * 1000) as u64, ..t };
    if t.is_idle && (seconds_since_input as u64) < timeout_secs(t) {
        Tracker { is_idle: false, is_changed: true, ..t2 }
    } else if !t.is_idle && (seconds_since_input as u64) >= timeout_secs(t) {
        Tracker { is_idle: true, is_changed: true, ..t2 }
    } else {
        t2
    }
}

/// The clamped `last_input_time` used by the reactive protocol: no earlier
/// than `now - idle_timeout`, and no earlier than the last resumption.
pub open spec fn clamped_last(t: Tracker, now: u64) -> u64 {
    let floor: u64 = if now >= t.idle_timeout { (now - t.idle_timeout) as u64 } else { 0 };
    let raised: u64 = if t.last_input_time >= floor { t.last_input_time } else { floor };
    match t.idle_end {
        Some(e) => if raised < e { e } else { raised },
        None => raised,
    }
}

/// State after a reactive update: while active, `last_input_time` is clamped;
/// while idle, nothing changes.
pub open spec fn reactive(t: Tracker, now: u64) -> Tracker {
    if !t.is_idle {
        Tracker { last_input_time: clamped_last(t, now), ..t }
    } else {
        t
    }
}

impl Tracker {
    /// A fresh tracker's state: active, unlatched, with `last_input_time`
    /// set to `now`.
    pub open spec fn spec_new(now: u64, idle_timeout: u64) -> Tracker {
        Tracker {
            last_input_time: now,
            is_idle: false,
            is_changed: false,
            idle_timeout,
            idle_end: None,
        }
    }

    /// A fresh tracker: active, unlatched, with `last_input_time` set to `now`.
    pub fn new(now: u64, idle_timeout: u64) -> (t: Tracker)
        ensures
            t == Tracker::spec_new(now, idle_timeout),
    {
        Tracker {
            last_input_time: now,
            is_idle: false,
            is_changed: false,
            idle_timeout,
            idle_end: None,
        }
    }

    fn set_idle(&mut self, is_idle: bool)
        ensures
            *final(self) == (Tracker { is_idle, is_changed: true, ..*old(self) }),
    {
        self.is_idle = is_idle;
        self.is_changed = true;
    }

    /// Push protocol: the native channel reported that input resumed at `now`.
    pub fn mark_not_idle(&mut self, now: u64)
        ensures
            *final(self) == marked_not_idle(*old(self), now),
    {
        self.last_input_time = now;
        self.set_idle(false);
        self.idle_end = Some(now);
    }

    /// Push protocol: the native channel reported that the user went idle.
    /// `last_input_time` is deliberately left untouched.
    pub fn mark_idle(&mut self, _now: u64)
        ensures
            *final(self) == marked_idle(*old(self)),
    {
        self.set_idle(true);
    }

    fn get_status(&mut self, now: u64) -> (r: Status)
        requires
            old(self).is_idle ==> now >= old(self).last_input_time,
        ensures
            *final(self) == after_read(*old(self)),
            r == status_of(*old(self), now),
    {
        let result = if self.is_idle {
            Status::Idle {
                changed: self.is_changed,
                last_input_time: self.last_input_time,
                duration: now - self.last_input_time,
            }
        } else {
            Status::Active { changed: self.is_changed, last_input_time: self.last_input_time }
        };
        self.is_changed = false;
        result
    }

    /// Polled protocol: the native channel only exposes seconds since the
    /// last input. Back-computes `last_input_time`, flips idleness across the
    /// threshold (a tie counts as idle), and derives a status.
    pub fn get_with_last_input(&mut self, now: u64, seconds_since_input: u32) -> (r: Status)
        requires
            (seconds_since_input as u64) * 1000 <= now,
        ensures
            *final(self) == after_read(polled(*old(self), now, seconds_since_input)),
            r == status_of(polled(*old(self), now, seconds_since_input), now),
    {
        let time_since_input: u64 = (seconds_since_input as u64) * 1000;
        self.last_input_time = now - time_since_input;

        let threshold: u64 = self.idle_timeout / 1000;
        if self.is_idle && (seconds_since_input as u64) < threshold {
            self.set_idle(false);
        } else if !self.is_idle && (seconds_since_input as u64) >= threshold {
            self.set_idle(true);
        }
        self.get_status(now)
    }

    /// Reactive protocol: no fresh input signal is available this tick, but a
    /// status must still be produced. While active, `last_input_time` is
    /// clamped to be no earlier than `now - idle_timeout` and no earlier than
    /// the last resumption.
    pub fn get_reactive(&mut self, now: u64) -> (r: Status)
        requires
            old(self).is_idle ==> now >= old(self).last_input_time,
        ensures
            *final(self) == after_read(reactive(*old(self), now)),
            r == status_of(reactive(*old(self), now), now),
    {
        if !self.is_idle {
            let floor: u64 = if now >= self.idle_timeout { now - self.idle_timeout } else { 0 };
            if self.last_input_time < floor {
                self.last_input_time = floor;
            }
            if let Some(idle_end) = self.idle_end {
                if self.last_input_time < idle_end {
                    self.last_input_time = idle_end;
                }
            }
        }
        self.get_status(now)
    }
}

/// Push-protocol law: after `mark_idle`, the first status read reports
/// `Idle` with `changed` set; a second consecutive read without further
/// calls reports `Idle` with `changed` clear and a duration that has not
/// decreased.
pub proof fn lemma_push_idle_reads(t: Tracker, now1: u64, now2: u64)
    requires
        now1 >= t.last_input_time,
        now2 >= now1,
    ensures
        status_is_idle(status_of(marked_idle(t), now1)),
        status_changed(status_of(marked_idle(t), now1)),
        status_is_idle(status_of(after_read(marked_idle(t)), now2)),
        !status_changed(status_of(after_read(marked_idle(t)), now2)),
        status_duration(status_of(after_read(marked_idle(t)), now2))
            >= status_duration(status_of(marked_idle(t), now1)),
{
}

/// Polled-protocol boundary law: while active, reporting exactly the
/// threshold in seconds transitions to idle (a tie counts as idle), and one
/// second less stays active.
pub proof fn lemma_polled_boundary(t: Tracker, now: u64)
    requires
        !t.is_idle,
        1 <= timeout_secs(t) <= u32::MAX,
    ensures
        polled(t, now, timeout_secs(t) as u32).is_idle,
        !polled(t, now, (timeout_secs(t) - 1) as u32).is_idle,
{
}

/// Reactive-clamp law: after a resumption at `t0`, a reactive read before
/// the timeout elapses keeps `last_input_time == t0`; a later read clamps it
/// to `now - idle_timeout`, which never falls before the resumption.
pub proof fn lemma_reactive_clamp(t: Tracker, t0: u64)
    requires
        t.idle_timeout >= 1000,
        t0 + t.idle_timeout + 1000 <= u64::MAX,
    ensures
        ({
            let t1 = after_read(marked_not_idle(t, t0));
            let n1 = (t0 + t.idle_timeout - 1000) as u64;
            let r1 = reactive(t1, n1);
            &&& !r1.is_idle
            &&& r1.last_input_time == t0
        }),
        ({
            let t1 = after_read(marked_not_idle(t, t0));
            let n1 = (t0 + t.idle_timeout - 1000) as u64;
            let t2 = after_read(reactive(t1, n1));
            let n2 = (t0 + t.idle_timeout + 1000) as u64;
            let r2 = reactive(t2, n2);
            &&& !r2.is_idle
            &&& r2.last_input_time == n2 - t.idle_timeout
            &&& r2.last_input_time >= t0
        }),
{
}

/// Change-latch law: a status read clears the latch, so the next status
/// derived without an intervening state-altering call reports no change;
/// every state-altering call sets the latch again.
pub proof fn lemma_change_latch(t: Tracker, now: u64)
    ensures
        !status_changed(status_of(after_read(t), now)),
        status_changed(status_of(marked_idle(after_read(t)), now)),
        status_changed(status_of(marked_not_idle(after_read(t), now), now)),
{
}

} // verus!
