//! The compositor-protocol watcher's toplevel tracking: a table of
//! window-handle id to `{app_id, title}` plus the currently activated
//! handle, built incrementally from the foreign-toplevel event stream.
//!
//! Driving the event connection happens outside the library; the events of
//! one dispatch round are handed to
//! [`WaylandWindowWatcherInner::run_iteration`] in arrival order. A
//! manager "finished" event means the compositor tore the protocol down;
//! that is fatal for this backend instance and every later iteration
//! reports it.

use vstd::prelude::*;
use crate::ActiveWindowData;
use crate::WatcherError;
use crate::linux_desktop::DesktopInfo;
use crate::linux_desktop::LinuxDesktopInfo;
use crate::linux_desktop::cache_hit;
use crate::linux_desktop::cached_info;
use crate::linux_desktop::lookup_enrichment;
use crate::linux_desktop::miss_outcome;
use crate::simple_cache::CacheConfig;
use crate::simple_cache::SimpleCache;

verus! {

/// The protocol's "activated" state byte.
pub const ACTIVATED_STATE: u8 = 2;

/// One tracked toplevel window.
pub struct ToplevelWindow {
    pub id: u64,
    pub app_id: String,
    pub title: String,
}

/// One event of the foreign-toplevel stream, with the protocol id of the
/// handle it concerns.
pub enum ToplevelEvent {
    /// A new toplevel handle appeared.
    Created { id: u64 },
    /// The handle's title changed.
    Title { id: u64, title: String },
    /// The handle's application id changed.
    AppId { id: u64, app_id: String },
    /// The handle's state array changed; it activates the window when it
    /// holds the "activated" byte.
    State { id: u64, state: Vec<u8> },
    /// The handle's changes for this round are complete.
    Done { id: u64 },
    /// The window was closed.
    Closed { id: u64 },
    /// The compositor tore down the toplevel manager.
    Finished,
}

/// The mathematical view of one tracked window.
pub struct WindowModel {
    pub id: u64,
    pub app_id: Seq<char>,
    pub title: Seq<char>,
}

/// The mathematical view of the tracker.
pub struct ToplevelModel {
    pub windows: Seq<WindowModel>,
    pub current: Option<u64>,
    pub finished: bool,
}

impl ToplevelModel {
    /// Ids are unique.
    pub open spec fn wf(self) -> bool {
        forall|i: int, j: int|
            0 <= i < j < self.windows.len() ==> self.windows[i].id != self.windows[j].id
    }

    pub open spec fn has_id(self, id: u64) -> bool {
        exists|i: int| 0 <= i < self.windows.len() && self.windows[i].id == id
    }

    pub open spec fn id_index(self, id: u64) -> int {
        choose|i: int| 0 <= i < self.windows.len() && self.windows[i].id == id
    }
}

/// A just-created window entry: placeholders until the compositor sends the
/// real title and app id.
pub open spec fn fresh_window(id: u64) -> WindowModel {
    WindowModel { id, app_id: "unknown"@, title: "unknown"@ }
}

/// One step of the toplevel state machine. Events about unknown handles
/// change nothing — a closed-versus-event race is benign.
pub open spec fn step(m: ToplevelModel, e: ToplevelEvent) -> ToplevelModel {
    match e {
        ToplevelEvent::Created { id } => if m.has_id(id) {
            ToplevelModel { windows: m.windows.update(m.id_index(id), fresh_window(id)), ..m }
        } else {
            ToplevelModel { windows: m.windows.push(fresh_window(id)), ..m }
        },
        ToplevelEvent::Title { id, title } => if m.has_id(id) {
            ToplevelModel {
                windows: m.windows.update(
                    m.id_index(id),
                    WindowModel { title: title@, ..m.windows[m.id_index(id)] },
                ),
                ..m
            }
        } else {
            m
        },
        ToplevelEvent::AppId { id, app_id } => if m.has_id(id) {
            ToplevelModel {
                windows: m.windows.update(
                    m.id_index(id),
                    WindowModel { app_id: app_id@, ..m.windows[m.id_index(id)] },
                ),
                ..m
            }
        } else {
            m
        },
        ToplevelEvent::State { id, state } => if m.has_id(id) && state@.contains(ACTIVATED_STATE) {
            ToplevelModel { current: Some(id), ..m }
        } else {
            m
        },
        ToplevelEvent::Done { id: _ } => m,
        ToplevelEvent::Closed { id } => if m.has_id(id) {
            ToplevelModel { windows: m.windows.remove(m.id_index(id)), ..m }
        } else {
            m
        },
        ToplevelEvent::Finished => ToplevelModel { finished: true, ..m },
    }
}

/// The state after a whole dispatch round, applied in arrival order.
pub open spec fn fold_events(m: ToplevelModel, evs: Seq<ToplevelEvent>) -> ToplevelModel
    decreases evs.len(),
{
    if evs.len() == 0 {
        m
    } else {
        fold_events(step(m, evs[0]), evs.drop_first())
    }
}

/// Stepping preserves well-formedness.
pub proof fn lemma_step_wf(m: ToplevelModel, e: ToplevelEvent)
    requires
        m.wf(),
    ensures
        step(m, e).wf(),
{
    match e {
        ToplevelEvent::Created { id } => {
            if !m.has_id(id) {
                let out = m.windows.push(fresh_window(id));
                assert forall|i: int, j: int| 0 <= i < j < out.len() implies out[i].id
                    != out[j].id by {
                    if j == out.len() - 1 {
                        assert(out[i] == m.windows[i]);
                    }
                }
            }
        },
        _ => {},
    }
}

/// The toplevel tracker.
pub struct ToplevelState {
    pub windows: Vec<ToplevelWindow>,
    pub current_window_id: Option<u64>,
    pub finished: bool,
}

impl ToplevelState {
    pub open spec fn model(self) -> ToplevelModel {
        ToplevelModel {
            windows: self.windows@.map_values(
                |w: ToplevelWindow| WindowModel { id: w.id, app_id: w.app_id@, title: w.title@ },
            ),
            current: self.current_window_id,
            finished: self.finished,
        }
    }

    pub open spec fn wf(self) -> bool {
        self.model().wf()
    }

    /// An empty tracker.
    pub fn new() -> (r: Self)
        ensures
            r.model().windows =~= Seq::<WindowModel>::empty(),
            r.model().current is None,
            !r.model().finished,
            r.wf(),
    {
        ToplevelState { windows: Vec::new(), current_window_id: None, finished: false }
    }

    fn find_index(&self, id: u64) -> (r: Option<usize>)
        requires
            self.wf(),
        ensures
            match r {
                Some(i) => i < self.windows@.len() && self.model().windows[i as int].id == id
                    && i as int == self.model().id_index(id),
                None => !self.model().has_id(id),
            },
    {
        let n = self.windows.len();
        let mut i: usize = 0;
        while i < n
            invariant
                n == self.windows@.len(),
                i <= n,
                self.wf(),
                forall|j: int| 0 <= j < i ==> self.model().windows[j].id != id,
            decreases n - i,
        {
            if self.windows[i].id == id {
                proof {
                    let mm = self.model();
                    assert(mm.windows[i as int].id == id);
                    let ci = mm.id_index(id);
                    assert(0 <= ci < mm.windows.len() && mm.windows[ci].id == id);
                    assert(ci == i as int);
                }
                return Some(i);
            }
            i += 1;
        }
        None
    }

    /// Apply one event of the stream.
    pub fn apply_event(&mut self, event: ToplevelEvent)
        requires
            old(self).wf(),
        ensures
            final(self).wf(),
            final(self).model() == step(old(self).model(), event),
    {
        proof {
            lemma_step_wf(old(self).model(), event);
        }
        let ghost m0 = self.model();
        let ghost ev = event;
        match event {
            ToplevelEvent::Created { id } => {
                let fresh = ToplevelWindow {
                    id,
                    app_id: String::from_str("unknown"),
                    title: String::from_str("unknown"),
                };
                match self.find_index(id) {
                    Some(i) => {
                        self.windows.set(i, fresh);
                        proof {
                            assert(self.model().windows =~= m0.windows.update(
                                m0.id_index(id),
                                fresh_window(id),
                            ));
                        }
                    },
                    None => {
                        self.windows.push(fresh);
                        proof {
                            assert(self.model().windows =~= m0.windows.push(fresh_window(id)));
                        }
                    },
                }
                proof {
                    assert(self.model() == step(m0, ev));
                }
            },
            ToplevelEvent::Title { id, title } => {
                match self.find_index(id) {
                    Some(i) => {
                        let ghost widx = i as int;
                        let updated = ToplevelWindow {
                            id: self.windows[i].id,
                            app_id: self.windows[i].app_id.clone(),
                            title,
                        };
                        self.windows.set(i, updated);
                        proof {
                            assert(self.model().windows =~= m0.windows.update(
                                widx,
                                WindowModel { title: title@, ..m0.windows[widx] },
                            ));
                            assert(self.model() == step(m0, ev));
                        }
                    },
                    None => {
                        proof {
                            assert(self.model() == step(m0, ev));
                        }
                    },
                }
            },
            ToplevelEvent::AppId { id, app_id } => {
                match self.find_index(id) {
                    Some(i) => {
                        let ghost widx = i as int;
                        let updated = ToplevelWindow {
                            id: self.windows[i].id,
                            app_id,
                            title: self.windows[i].title.clone(),
                        };
                        self.windows.set(i, updated);
                        proof {
                            assert(self.model().windows =~= m0.windows.update(
                                widx,
                                WindowModel { app_id: app_id@, ..m0.windows[widx] },
                            ));
                            assert(self.model() == step(m0, ev));
                        }
                    },
                    None => {
                        proof {
                            assert(self.model() == step(m0, ev));
                        }
                    },
                }
            },
            ToplevelEvent::State { id, state } => {
                let mut activated = false;
                let n = state.len();
                let mut k: usize = 0;
                while k < n
                    invariant
                        n == state@.len(),
                        k <= n,
                        activated == state@.subrange(0, k as int).contains(ACTIVATED_STATE),
                    decreases n - k,
                {
                    let ghost pre = state@.subrange(0, k as int);
                    proof {
                        assert(state@.subrange(0, k + 1).drop_last() =~= pre);
                    }
                    if state[k] == ACTIVATED_STATE {
                        activated = true;
                    }
                    proof {
                        let post = state@.subrange(0, k + 1);
                        if activated {
                            if state@[k as int] == ACTIVATED_STATE {
                                assert(post[k as int] == ACTIVATED_STATE);
                                assert(post.contains(ACTIVATED_STATE));
                            } else {
                                let w = choose|w: int| 0 <= w < pre.len() && pre[w]
                                    == ACTIVATED_STATE;
                                assert(post[w] == ACTIVATED_STATE);
                                assert(post.contains(ACTIVATED_STATE));
                            }
                        } else {
                            if post.contains(ACTIVATED_STATE) {
                                let w = choose|w: int| 0 <= w < post.len() && post[w]
                                    == ACTIVATED_STATE;
                                if w < k {
                                    assert(pre[w] == ACTIVATED_STATE);
                                    assert(pre.contains(ACTIVATED_STATE));
                                }
                            }
                        }
                    }
                    k += 1;
                }
                proof {
                    assert(state@.subrange(0, n as int) =~= state@);
                }
                let present = match self.find_index(id) {
                    Some(_) => true,
                    None => false,
                };
                if present && activated {
                    self.current_window_id = Some(id);
                }
                proof {
                    assert(self.model() == step(m0, ev));
                }
            },
            ToplevelEvent::Done { id: _ } => {
                proof {
                    assert(self.model() == step(m0, ev));
                }
            },
            ToplevelEvent::Closed { id } => {
                match self.find_index(id) {
                    Some(i) => {
                        let ghost widx = i as int;
                        self.windows.remove(i);
                        proof {
                            assert(self.model().windows =~= m0.windows.remove(widx));
                            assert(self.model() == step(m0, ev));
                        }
                    },
                    None => {
                        proof {
                            assert(self.model() == step(m0, ev));
                        }
                    },
                }
            },
            ToplevelEvent::Finished => {
                self.finished = true;
                proof {
                    assert(self.model() == step(m0, ev));
                }
            },
        }
    }
}

/// The Wayland watcher's reconciled state: the toplevel tracker plus the
/// shared metadata cache and provider.
pub struct WaylandWindowWatcherInner {
    pub toplevel_state: ToplevelState,
    pub desktop_info_cache: SimpleCache<DesktopInfo>,
    pub linux_desktop_info: LinuxDesktopInfo,
    pub last_window: Option<ActiveWindowData>,
}

impl WaylandWindowWatcherInner {
    /// A fresh watcher. Connecting to the compositor and binding the
    /// protocol happen outside the library, before this is called.
    pub fn new(cache_config: CacheConfig, provider: LinuxDesktopInfo) -> (r: Self)
        ensures
            r.toplevel_state.wf(),
            r.toplevel_state.model().windows =~= Seq::<WindowModel>::empty(),
            r.toplevel_state.model().current is None,
            !r.toplevel_state.model().finished,
            r.desktop_info_cache.wf(),
            r.desktop_info_cache.entries().len() == 0,
            r.desktop_info_cache.spec_config() == cache_config,
            r.last_window is None,
    {
        WaylandWindowWatcherInner {
            toplevel_state: ToplevelState::new(),
            desktop_info_cache: SimpleCache::new(cache_config),
            linux_desktop_info: provider,
            last_window: None,
        }
    }

    /// Apply one dispatch round's events and report the activated window,
    /// enriched with metadata keyed by its app id. A torn-down protocol is
    /// fatal; an unknown or vanished current window is a per-poll failure.
    pub fn run_iteration(&mut self, events: Vec<ToplevelEvent>, now: u64) -> (r: Result<
        ActiveWindowData,
        WatcherError,
    >)
        requires
            old(self).toplevel_state.wf(),
            old(self).desktop_info_cache.wf(),
            old(self).desktop_info_cache.stamps_at_most(now),
        ensures
            final(self).toplevel_state.wf(),
            final(self).desktop_info_cache.wf(),
            final(self).desktop_info_cache.stamps_at_most(now),
            final(self).desktop_info_cache.spec_config() == old(
                self,
            ).desktop_info_cache.spec_config(),
            final(self).toplevel_state.model() == fold_events(
                old(self).toplevel_state.model(),
                events@,
            ),
            ({
                let fm = fold_events(old(self).toplevel_state.model(), events@);
                &&& fm.finished ==> (r matches Err(e) && e is ProtocolFinished)
                &&& !fm.finished && fm.current is None ==> r is Err
                &&& match fm.current {
                    Some(id) => !fm.finished ==> {
                        &&& !fm.has_id(id) ==> r is Err
                        &&& fm.has_id(id) ==> match r {
                            Ok(w) => ({
                                let win = fm.windows[fm.id_index(id)];
                                &&& w.window_title@ == win.title
                                &&& w.app_identifier matches Some(a) && a@ == win.app_id
                                &&& final(self).last_window == Some(w)
                                &&& (cache_hit(old(self).desktop_info_cache, win.app_id, now)
                                    ==> w.process_path == cached_info(
                                    old(self).desktop_info_cache,
                                    win.app_id,
                                ).process_path && w.app_name == cached_info(
                                    old(self).desktop_info_cache,
                                    win.app_id,
                                ).app_name)
                                &&& (!cache_hit(old(self).desktop_info_cache, win.app_id, now)
                                    ==> miss_outcome(
                                    w.process_path,
                                    w.app_name,
                                    old(self).desktop_info_cache,
                                    final(self).desktop_info_cache,
                                    win.app_id,
                                ))
                            }),
                            Err(_) => false,
                        }
                    },
                    None => true,
                }
            }),
            r is Err ==> final(self).last_window == old(self).last_window,
    {
        let ghost m0 = self.toplevel_state.model();
        let ghost orig = events@;
        let mut pending = events;
        let ghost mut done: int = 0;
        proof {
            assert(orig.subrange(0, orig.len() as int) =~= orig);
            assert(pending@ =~= orig.subrange(done, orig.len() as int));
        }
        while pending.len() > 0
            invariant
                0 <= done <= orig.len(),
                pending@ =~= orig.subrange(done, orig.len() as int),
                self.toplevel_state.wf(),
                fold_events(m0, orig) == fold_events(
                    self.toplevel_state.model(),
                    orig.subrange(done, orig.len() as int),
                ),
                self.desktop_info_cache == old(self).desktop_info_cache,
                self.linux_desktop_info == old(self).linux_desktop_info,
                self.last_window == old(self).last_window,
            decreases pending.len(),
        {
            proof {
                assert(pending@[0] == orig[done]);
                assert(orig.subrange(done, orig.len() as int).drop_first() =~= orig.subrange(
                    done + 1,
                    orig.len() as int,
                ));
            }
            let ev = pending.remove(0);
            self.toplevel_state.apply_event(ev);
            proof {
                done = done + 1;
            }
        }
        proof {
            assert(orig.subrange(done, orig.len() as int) =~= Seq::<ToplevelEvent>::empty());
            assert(fold_events(m0, orig) == self.toplevel_state.model());
        }

        if self.toplevel_state.finished {
            return Err(WatcherError::ProtocolFinished);
        }
        let current_id = match self.toplevel_state.current_window_id {
            Some(id) => id,
            None => {
                return Err(
                    WatcherError::CallFailed(String::from_str("current window is unknown")),
                );
            },
        };
        let widx = match self.toplevel_state.find_index(current_id) {
            Some(i) => i,
            None => {
                return Err(
                    WatcherError::CallFailed(
                        String::from_str("current window is not found by its id"),
                    ),
                );
            },
        };
        let app_id = self.toplevel_state.windows[widx].app_id.clone();
        let title = self.toplevel_state.windows[widx].title.clone();
        let (process_path, app_name) = lookup_enrichment(
            &mut self.desktop_info_cache,
            &self.linux_desktop_info,
            &app_id,
            now,
        );
        let snapshot = ActiveWindowData {
            window_title: title,
            app_identifier: Some(app_id),
            process_path,
            app_name,
        };
        self.last_window = Some(snapshot.clone());
        Ok(snapshot)
    }

    /// The latest published snapshot; an error until the first successful
    /// iteration.
    pub fn current_window_data(&self) -> (r: Result<ActiveWindowData, WatcherError>)
        ensures
            match self.last_window {
                Some(w) => r matches Ok(got) && got == w,
                None => r is Err,
            },
    {
        match &self.last_window {
            Some(w) => Ok(w.clone()),
            None => Err(WatcherError::CallFailed(String::from_str("no iteration completed yet"))),
        }
    }
}

/// The generic Wayland watcher: the toplevel tracker driven inline per
/// poll, plus the idle-notify pump's published status.
pub struct WaylandWindowWatcher {
    pub inner: WaylandWindowWatcherInner,
    pub idle_watcher: crate::wayland_idle::IdleWatcherRunner,
}

impl WaylandWindowWatcher {
    /// A fresh watcher; the compositor connection, the protocol bindings
    /// and the idle pump thread are set up outside the library.
    pub fn new(cache_config: CacheConfig, provider: LinuxDesktopInfo) -> (r: Self)
        ensures
            r.inner.toplevel_state.wf(),
            r.inner.toplevel_state.model().windows =~= Seq::<WindowModel>::empty(),
            r.inner.toplevel_state.model().current is None,
            !r.inner.toplevel_state.model().finished,
            r.inner.desktop_info_cache.wf(),
            r.inner.desktop_info_cache.entries().len() == 0,
            r.inner.desktop_info_cache.spec_config() == cache_config,
            r.inner.last_window is None,
            r.idle_watcher.current_idle_status is None,
    {
        WaylandWindowWatcher {
            inner: WaylandWindowWatcherInner::new(cache_config, provider),
            idle_watcher: crate::wayland_idle::IdleWatcherRunner::new(),
        }
    }

    /// The idle decision the pump last published; nothing published yet
    /// counts as active.
    pub fn is_idle(&self) -> (r: bool)
        ensures
            r == match self.idle_watcher.current_idle_status {
                Some(s) => crate::idle::status_is_idle(s),
                None => false,
            },
    {
        let status = self.idle_watcher.read();
        crate::wayland_idle::is_idle_from_status(&status)
    }
}

} // verus!
