//! The X11 polling watcher.
//!
//! Per poll, the X server is asked (through the window-manager atoms,
//! interned once per connection) for the active window, its name and its
//! owning process id; the process table then resolves the executable path.
//! Idle time comes from the screensaver extension's ms-since-input counter.
//! The connection, the atom queries and the process lookup happen outside
//! the library — the connection re-established lazily when a prior check
//! shows it errored — and their plain results are handed to
//! [`LinuxWindowManager::apply_window_query`].

use vstd::prelude::*;
use crate::ActiveWindowData;
use crate::WatcherError;
use crate::config::WatcherConfig;

verus! {

/// The X11 watcher's reconciled state.
pub struct LinuxWindowManager {
    /// Inactivity threshold in ms.
    pub idle_timeout: u64,
    /// The snapshot produced by the most recent handled query.
    pub last_window: Option<ActiveWindowData>,
    /// The ms-since-input reading of the most recent idle query.
    pub last_idle_millis: Option<u64>,
}

impl LinuxWindowManager {
    /// A fresh watcher; the connection is established lazily outside the
    /// library on the first poll.
    pub fn new(config: WatcherConfig) -> (r: Self)
        ensures
            r.idle_timeout == config.idle_timeout,
            r.last_window is None,
            r.last_idle_millis is None,
    {
        LinuxWindowManager {
            idle_timeout: config.idle_timeout,
            last_window: None,
            last_idle_millis: None,
        }
    }

    /// Reconcile one active-window query: the window name with the
    /// executable path resolved for its process id. A window without a
    /// resolvable process is a per-poll failure, never a silent default.
    pub fn apply_window_query(&mut self, window_name: String, process_name: Option<String>) -> (r:
        Result<ActiveWindowData, WatcherError>)
        ensures
            final(self).idle_timeout == old(self).idle_timeout,
            final(self).last_idle_millis == old(self).last_idle_millis,
            match process_name {
                Some(path) => r matches Ok(w) && {
                    &&& w.window_title == window_name
                    &&& w.process_path == Some(path)
                    &&& w.app_identifier is None
                    &&& w.app_name is None
                    &&& final(self).last_window == Some(w)
                },
                None => r is Err && *final(self) == *old(self),
            },
    {
        let path = match process_name {
            Some(p) => p,
            None => {
                return Err(
                    WatcherError::CallFailed(
                        String::from_str("failed to get process name: process name is missing"),
                    ),
                );
            },
        };
        let snapshot = ActiveWindowData {
            window_title: window_name,
            process_path: Some(path),
            app_identifier: None,
            app_name: None,
        };
        self.last_window = Some(snapshot.clone());
        Ok(snapshot)
    }

    /// Record the ms-since-input reading of one idle query.
    pub fn note_idle_millis(&mut self, idle_millis: u64)
        ensures
            *final(self) == (LinuxWindowManager {
                last_idle_millis: Some(idle_millis),
                ..*old(self)
            }),
    {
        self.last_idle_millis = Some(idle_millis);
    }

    /// The user is idle iff the ms-since-input reading exceeds the
    /// threshold.
    pub fn is_idle_from_millis(&self, idle_millis: u64) -> (r: bool)
        ensures
            r == (idle_millis > self.idle_timeout),
    {
        idle_millis > self.idle_timeout
    }

    /// The latest published snapshot; an error until the first query.
    pub fn current_window_data(&self) -> (r: Result<ActiveWindowData, WatcherError>)
        ensures
            match self.last_window {
                Some(w) => r matches Ok(got) && got == w,
                None => r is Err,
            },
    {
        match &self.last_window {
            Some(w) => Ok(w.clone()),
            None => Err(WatcherError::CallFailed(String::from_str("no window query handled yet"))),
        }
    }

    /// The latest idle decision; an error until the first idle reading.
    pub fn current_idle(&self) -> (r: Result<bool, WatcherError>)
        ensures
            match self.last_idle_millis {
                Some(ms) => r matches Ok(b) && b == (ms > self.idle_timeout),
                None => r is Err,
            },
    {
        match self.last_idle_millis {
            Some(ms) => Ok(self.is_idle_from_millis(ms)),
            None => Err(WatcherError::CallFailed(String::from_str("no idle reading yet"))),
        }
    }
}

} // verus!
