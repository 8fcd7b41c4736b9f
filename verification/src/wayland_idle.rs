//! The idle-notify consumer: compositor-pushed Idled/Resumed events feed
//! the idle tracker's push protocol, and a reactive status is derived once
//! per tick.
//!
//! Driving the event connection, the background pump thread and its stop
//! channel live outside the library. The pump hands each dispatch round's
//! events (with the tick's clock reading) to [`IdleWatcher::run_iteration`]
//! and publishes the resulting status into [`IdleWatcherRunner`], a model
//! of the mutually-exclusive shared cell: the worker publishes, the
//! foreground reader only copies the latest value out. A reader therefore
//! observes a state change no earlier than the publish that follows it —
//! staleness is bounded by the pump's tick interval.

use vstd::prelude::*;
use crate::idle::IdleEvent;
use crate::idle::Status;
use crate::idle::Tracker;
use crate::idle::after_read;
use crate::idle::marked_idle;
use crate::idle::marked_not_idle;
use crate::idle::reactive;
use crate::idle::status_is_idle;
use crate::idle::status_of;

verus! {

/// One tracker step for one pushed event at the tick's clock reading.
pub open spec fn apply_idle_event(t: Tracker, e: IdleEvent, now: u64) -> Tracker {
    match e {
        IdleEvent::Idled => marked_idle(t),
        IdleEvent::Resumed => marked_not_idle(t, now),
    }
}

/// The tracker after a whole dispatch round, applied in arrival order.
pub open spec fn fold_idle_events(t: Tracker, evs: Seq<IdleEvent>, now: u64) -> Tracker
    decreases evs.len(),
{
    if evs.len() == 0 {
        t
    } else {
        fold_idle_events(apply_idle_event(t, evs[0], now), evs.drop_first(), now)
    }
}

/// Folding a round keeps `last_input_time` at its old value or moves it to
/// `now`, and never touches the timeout.
pub proof fn lemma_fold_idle_bounds(t: Tracker, evs: Seq<IdleEvent>, now: u64)
    ensures
        fold_idle_events(t, evs, now).last_input_time == t.last_input_time || fold_idle_events(
            t,
            evs,
            now,
        ).last_input_time == now,
        fold_idle_events(t, evs, now).idle_timeout == t.idle_timeout,
    decreases evs.len(),
{
    if evs.len() > 0 {
        lemma_fold_idle_bounds(apply_idle_event(t, evs[0], now), evs.drop_first(), now);
    }
}

/// The idle tracker as fed by the compositor's idle-notify events.
pub struct WatcherState {
    pub idle_state: Tracker,
}

impl WatcherState {
    /// A fresh tracker at `now` with the given timeout in ms.
    pub fn new(now: u64, idle_timeout: u64) -> (r: Self)
        ensures
            r.idle_state == Tracker::spec_new(now, idle_timeout),
    {
        WatcherState { idle_state: Tracker::new(now, idle_timeout) }
    }

    /// Apply one pushed event at the tick's clock reading.
    pub fn apply(&mut self, event: IdleEvent, now: u64)
        ensures
            final(self).idle_state == apply_idle_event(old(self).idle_state, event, now),
    {
        match event {
            IdleEvent::Idled => self.idle_state.mark_idle(now),
            IdleEvent::Resumed => self.idle_state.mark_not_idle(now),
        }
    }
}

/// The idle-notify watcher driven once per pump tick.
pub struct IdleWatcher {
    pub watcher_state: WatcherState,
}

impl IdleWatcher {
    /// A fresh watcher; the idle-notify subscription with this timeout is
    /// made outside the library.
    pub fn new(timeout: u32, now: u64) -> (r: Self)
        ensures
            r.watcher_state.idle_state == Tracker::spec_new(now, timeout as u64),
    {
        IdleWatcher { watcher_state: WatcherState::new(now, timeout as u64) }
    }

    /// Consume one dispatch round's events at the tick's clock reading and
    /// derive the tick's status through the reactive protocol.
    pub fn run_iteration(&mut self, events: Vec<IdleEvent>, now: u64) -> (r: Status)
        requires
            now >= old(self).watcher_state.idle_state.last_input_time,
        ensures
            ({
                let folded = fold_idle_events(old(self).watcher_state.idle_state, events@, now);
                &&& final(self).watcher_state.idle_state == after_read(reactive(folded, now))
                &&& r == status_of(reactive(folded, now), now)
            }),
    {
        let ghost t0 = self.watcher_state.idle_state;
        let ghost orig = events@;
        let mut pending = events;
        let ghost mut done: int = 0;
        proof {
            assert(pending@ =~= orig.subrange(done, orig.len() as int));
        }
        while pending.len() > 0
            invariant
                0 <= done <= orig.len(),
                pending@ =~= orig.subrange(done, orig.len() as int),
                fold_idle_events(t0, orig, now) == fold_idle_events(
                    self.watcher_state.idle_state,
                    orig.subrange(done, orig.len() as int),
                    now,
                ),
            decreases pending.len(),
        {
            proof {
                assert(pending@[0] == orig[done]);
                assert(orig.subrange(done, orig.len() as int).drop_first() =~= orig.subrange(
                    done + 1,
                    orig.len() as int,
                ));
            }
            let ev = pending.remove(0);
            self.watcher_state.apply(ev, now);
            proof {
                done = done + 1;
            }
        }
        proof {
            assert(orig.subrange(done, orig.len() as int) =~= Seq::<IdleEvent>::empty());
            assert(fold_idle_events(t0, orig, now) == self.watcher_state.idle_state);
            lemma_fold_idle_bounds(t0, orig, now);
        }
        self.watcher_state.idle_state.get_reactive(now)
    }
}

/// The pump's shared cell. The background worker publishes the status of
/// each tick; the foreground reader only copies the latest value out, so it
/// observes a state change no earlier than the publish that follows it.
pub struct IdleWatcherRunner {
    pub current_idle_status: Option<Status>,
}

impl IdleWatcherRunner {
    /// An empty cell: nothing published yet.
    pub fn new() -> (r: Self)
        ensures
            r.current_idle_status is None,
    {
        IdleWatcherRunner { current_idle_status: None }
    }

    /// The worker publishes one tick's status.
    pub fn publish(&mut self, status: Status)
        ensures
            final(self).current_idle_status == Some(status),
    {
        self.current_idle_status = Some(status);
    }

    /// The foreground reader copies the latest published status out; the
    /// cell is unchanged, so repeated reads agree until the next publish.
    pub fn read(&self) -> (r: Option<Status>)
        ensures
            r == self.current_idle_status,
    {
        self.current_idle_status
    }
}

/// An idle decision from the latest published status: idle iff the pump's
/// last word was an idle one; nothing published yet counts as active.
pub fn is_idle_from_status(status: &Option<Status>) -> (r: bool)
    ensures
        r == match *status {
            Some(s) => status_is_idle(s),
            None => false,
        },
{
    match status {
        Some(Status::Idle { .. }) => true,
        Some(Status::Active { .. }) => false,
        None => false,
    }
}

} // verus!
