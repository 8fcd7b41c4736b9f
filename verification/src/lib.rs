//! Reports the currently focused desktop window and the user's idle state
//! across desktop environments. The platform-native channels (session bus,
//! compositor protocols, OS APIs) are driven outside this crate; this library
//! holds the verified core: the idle-state tracker, the TTL metadata cache,
//! each backend's reconciliation logic, and the backend-selection facade.

use vstd::prelude::*;

pub mod config;
pub mod gnome;
pub mod idle;
pub mod kde;
pub mod wayland_idle;
pub mod wayland_wlr;
pub mod linux_desktop;
pub mod macos;
pub mod simple_cache;
pub mod utils;
pub mod win;
pub mod windows_desktop;
pub mod x11;

verus! {

/// A snapshot of the focused window at a single point in time.
#[derive(Debug)]
pub struct ActiveWindowData {
    /// Display text of the focused window; empty if none is focused.
    pub window_title: String,
    /// Resolved executable path, when metadata lookup found one.
    pub process_path: Option<String>,
    /// Platform identifier of the owning application (resource class or path).
    pub app_identifier: Option<String>,
    /// Human-readable application name, when metadata lookup found one.
    pub app_name: Option<String>,
}

pub fn clone_opt_string(o: &Option<String>) -> (r: Option<String>)
    ensures
        r == *o,
{
    match o {
        Some(s) => Some(s.clone()),
        None => None,
    }
}

impl Clone for ActiveWindowData {
    fn clone(&self) -> (r: Self)
        ensures
            r == *self,
    {
        ActiveWindowData {
            window_title: self.window_title.clone(),
            process_path: clone_opt_string(&self.process_path),
            app_identifier: clone_opt_string(&self.app_identifier),
            app_name: clone_opt_string(&self.app_name),
        }
    }
}

/// Why a watcher operation failed. Recoverable conditions are returned to
/// the caller; the facade itself never retries.
#[derive(Debug)]
pub enum WatcherError {
    /// The running session does not match the backend's target platform;
    /// the composition root falls back to the next candidate.
    EnvironmentMismatch(String),
    /// One native call failed; the backend itself stays usable.
    CallFailed(String),
    /// The remote endpoint (extension or injected script) stopped
    /// responding; the caller may choose to reconstruct the backend.
    EndpointGone,
    /// The compositor tore down the toplevel protocol; unrecoverable for
    /// this backend instance.
    ProtocolFinished,
    /// Backend construction failed after its bounded retries.
    ConstructionFailed(String),
    /// Every candidate backend failed to construct; fatal.
    NoBackend,
}

impl Clone for WatcherError {
    fn clone(&self) -> (r: Self)
        ensures
            r == *self,
    {
        match self {
            WatcherError::EnvironmentMismatch(m) => WatcherError::EnvironmentMismatch(m.clone()),
            WatcherError::CallFailed(m) => WatcherError::CallFailed(m.clone()),
            WatcherError::EndpointGone => WatcherError::EndpointGone,
            WatcherError::ProtocolFinished => WatcherError::ProtocolFinished,
            WatcherError::ConstructionFailed(m) => WatcherError::ConstructionFailed(m.clone()),
            WatcherError::NoBackend => WatcherError::NoBackend,
        }
    }
}

/// The contract every platform backend implements: report the focused
/// window and the idle state, each as a result that never silently
/// defaults.
pub trait WindowManager {
    fn get_active_window_data(&mut self) -> Result<ActiveWindowData, WatcherError>;

    fn is_idle(&mut self) -> Result<bool, WatcherError>;
}

/// One constructed platform backend. The native channels that feed each
/// backend's state are driven outside the library; a poll through the
/// facade reads the backend's latest reconciled state.
pub enum Backend {
    Gnome(gnome::GnomeWindowWatcher),
    Kde(kde::KdeWindowManager),
    Wayland(wayland_wlr::WaylandWindowWatcher),
    X11(x11::LinuxWindowManager),
    Windows(win::WindowsWindowManager),
    Macos(macos::MacosManger),
}

/// The snapshot a backend's reader returns: its latest published one, an
/// error while none was published yet. The KDE record always reads as a
/// snapshot, empty until the first callback.
pub open spec fn published_window(backend: Backend, r: Result<
    ActiveWindowData,
    WatcherError,
>) -> bool {
    match backend {
        Backend::Gnome(b) => match b.last_window {
            Some(w) => r == Ok::<ActiveWindowData, WatcherError>(w),
            None => r is Err,
        },
        Backend::Kde(b) => match r {
            Ok(w) => {
                &&& w.window_title == b.interface.active_window.caption
                &&& w.app_identifier == Some(b.interface.active_window.resource_name)
                &&& w.process_path == b.interface.active_window.process_path
                &&& w.app_name == b.interface.active_window.app_name
            },
            Err(_) => false,
        },
        Backend::Wayland(b) => match b.inner.last_window {
            Some(w) => r == Ok::<ActiveWindowData, WatcherError>(w),
            None => r is Err,
        },
        Backend::X11(b) => match b.last_window {
            Some(w) => r == Ok::<ActiveWindowData, WatcherError>(w),
            None => r is Err,
        },
        Backend::Windows(b) => match b.last_window {
            Some(w) => r == Ok::<ActiveWindowData, WatcherError>(w),
            None => r is Err,
        },
        Backend::Macos(b) => match b.last_window {
            Some(w) => r == Ok::<ActiveWindowData, WatcherError>(w),
            None => r is Err,
        },
    }
}

/// The idle decision a backend's reader returns: derived from its latest
/// idle reading, an error while none arrived yet. The pump-fed backends
/// read their published cell, with nothing published counting as active.
pub open spec fn published_idle(backend: Backend, r: Result<bool, WatcherError>) -> bool {
    match backend {
        Backend::Gnome(b) => match b.last_idle_millis {
            Some(ms) => r == Ok::<bool, WatcherError>(ms > b.idle_timeout),
            None => r is Err,
        },
        Backend::Kde(b) => r == Ok::<bool, WatcherError>(
            match b.idle_watcher.current_idle_status {
                Some(s) => idle::status_is_idle(s),
                None => false,
            },
        ),
        Backend::Wayland(b) => r == Ok::<bool, WatcherError>(
            match b.idle_watcher.current_idle_status {
                Some(s) => idle::status_is_idle(s),
                None => false,
            },
        ),
        Backend::X11(b) => match b.last_idle_millis {
            Some(ms) => r == Ok::<bool, WatcherError>(ms > b.idle_timeout),
            None => r is Err,
        },
        Backend::Windows(b) => match b.last_idle_millis {
            Some(ms) => r == Ok::<bool, WatcherError>(ms > b.idle_timeout),
            None => r is Err,
        },
        Backend::Macos(b) => match b.last_idle_millis {
            Some(ms) => r == Ok::<bool, WatcherError>(ms > b.idle_timeout),
            None => r is Err,
        },
    }
}

impl Backend {
    /// The backend's latest window snapshot.
    pub fn current_window_data(&self) -> (r: Result<ActiveWindowData, WatcherError>)
        ensures
            published_window(*self, r),
    {
        match self {
            Backend::Gnome(b) => b.current_window_data(),
            Backend::Kde(b) => Ok(b.get_active_window_data()),
            Backend::Wayland(b) => b.inner.current_window_data(),
            Backend::X11(b) => b.current_window_data(),
            Backend::Windows(b) => b.current_window_data(),
            Backend::Macos(b) => b.current_window_data(),
        }
    }

    /// The backend's latest idle decision.
    pub fn current_idle(&self) -> (r: Result<bool, WatcherError>)
        ensures
            published_idle(*self, r),
    {
        match self {
            Backend::Gnome(b) => b.current_idle(),
            Backend::Kde(b) => Ok(b.is_idle()),
            Backend::Wayland(b) => Ok(b.is_idle()),
            Backend::X11(b) => b.current_idle(),
            Backend::Windows(b) => b.current_idle(),
            Backend::Macos(b) => b.current_idle(),
        }
    }
}

/// The first candidate that constructed successfully, if any.
pub open spec fn first_ready(s: Seq<Result<Backend, WatcherError>>) -> Option<Backend>
    decreases s.len(),
{
    if s.len() == 0 {
        None
    } else {
        match s[0] {
            Ok(b) => Some(b),
            Err(_) => first_ready(s.drop_first()),
        }
    }
}

/// The cross-platform facade: the first backend whose construction
/// succeeded, behind the common contract.
pub struct GenericWindowManager {
    pub inner: Backend,
}

impl GenericWindowManager {
    /// Select a backend from construction attempts tried in priority
    /// order: the first success wins; each failure triggers fallback to
    /// the next candidate; with no success the construction fails with
    /// [`WatcherError::NoBackend`].
    pub fn new(candidates: Vec<Result<Backend, WatcherError>>) -> (r: Result<
        GenericWindowManager,
        WatcherError,
    >)
        ensures
            match first_ready(candidates@) {
                Some(b) => r matches Ok(g) && g.inner == b,
                None => r matches Err(e) && e is NoBackend,
            },
    {
        let ghost orig = candidates@;
        let mut pending = candidates;
        proof {
            assert(pending@ =~= orig.subrange(0, orig.len() as int));
        }
        let ghost mut done: int = 0;
        while pending.len() > 0
            invariant
                orig == candidates@,
                0 <= done <= orig.len(),
                pending@ =~= orig.subrange(done, orig.len() as int),
                first_ready(orig) == first_ready(orig.subrange(done, orig.len() as int)),
            decreases pending.len(),
        {
            proof {
                assert(pending@[0] == orig[done]);
                assert(orig.subrange(done, orig.len() as int).drop_first() =~= orig.subrange(
                    done + 1,
                    orig.len() as int,
                ));
            }
            let candidate = pending.remove(0);
            let ghost taken = candidate;
            match candidate {
                Ok(backend) => {
                    proof {
                        let sub = orig.subrange(done, orig.len() as int);
                        assert(sub[0] == taken);
                        assert(first_ready(sub) == Some(backend));
                        assert(first_ready(orig) == Some(backend));
                    }
                    return Ok(GenericWindowManager { inner: backend });
                },
                Err(_) => {},
            }
            proof {
                done = done + 1;
            }
        }
        proof {
            assert(orig.subrange(done, orig.len() as int) =~= Seq::<
                Result<Backend, WatcherError>,
            >::empty());
        }
        Err(WatcherError::NoBackend)
    }
}

impl WindowManager for GenericWindowManager {
    /// Delegate to the selected backend's latest reconciled snapshot.
    fn get_active_window_data(&mut self) -> Result<ActiveWindowData, WatcherError> {
        self.inner.current_window_data()
    }

    /// Delegate to the selected backend's latest idle decision.
    fn is_idle(&mut self) -> Result<bool, WatcherError> {
        self.inner.current_idle()
    }
}

} // verus!
