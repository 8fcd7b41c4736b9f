//! The GNOME-style session-bus watcher (pull variant).
//!
//! Per poll, the shell is asked over the session bus for the focused
//! window's `{title, wm_class}` as a JSON payload; a "No window in focus"
//! error counts as success with an empty result; an "Object does not exist
//! at path" error means the shell extension disappeared and is reported
//! distinctly so the caller can reconstruct the backend. The bus call itself
//! happens outside the library; its outcome is handed to
//! [`GnomeWindowWatcher::handle_window_reply`], which holds the verified
//! reconciliation: payload decoding, last-seen tracking, and cache-then-
//! provider metadata enrichment.
//!
//! Enrichment policy: positive lookups are cached; negative lookups are not
//! cached, so metadata can appear later (e.g. after an application install).

use vstd::prelude::*;
use crate::ActiveWindowData;
use crate::WatcherError;
use crate::config::GnomeDbusConfig;
use crate::config::WatcherConfig;
use crate::linux_desktop::DesktopInfo;
use crate::linux_desktop::LinuxDesktopInfo;
use crate::linux_desktop::cache_hit;
use crate::linux_desktop::cached_info;
use crate::linux_desktop::lookup_enrichment;
use crate::linux_desktop::miss_outcome;
use crate::simple_cache::CacheEntry;
use crate::simple_cache::SimpleCache;
use crate::utils::is_substring;
use crate::utils::str_eq;

verus! {

/// What one remote window-data call came back with: a reply payload, or the
/// message of the call error.
pub enum RemoteCallOutcome {
    Reply(String),
    CallError(String),
}

/// What serde_json extracts from a window-data payload: the string fields
/// "title" and "wm_class" of a JSON object, when the payload is such an
/// object; a function of the payload text alone.
pub uninterp spec fn window_payload_fields(s: Seq<char>) -> Option<(Seq<char>, Seq<char>)>;

/// Relies on serde_json::from_str and serde_json::Value's accessors: parses
/// the payload and extracts its "title" and "wm_class" string fields.
#[verifier::external_body]
fn decode_window_payload(s: &str) -> (r: Option<(String, String)>)
    ensures
        match r {
            Some(p) => window_payload_fields(s@) == Some((p.0@, p.1@)),
            None => window_payload_fields(s@) is None,
        },
{
    let v: serde_json::Value = serde_json::from_str(s).ok()?;
    let title = v.get("title")?.as_str()?.to_string();
    let wm_class = v.get("wm_class")?.as_str()?.to_string();
    Some((title, wm_class))
}

/// The call error reports that no window is focused.
pub open spec fn msg_no_window(m: Seq<char>) -> bool {
    is_substring(m, "No window in focus"@)
}

/// The call error reports that the remote object is gone.
pub open spec fn msg_endpoint_gone(m: Seq<char>) -> bool {
    is_substring(m, "Object does not exist at path"@)
}

/// The `{title, wm_class}` pair a call outcome amounts to, when it amounts
/// to one: a decoded payload, or the empty pair for a "no window in focus"
/// error.
pub open spec fn outcome_window(outcome: RemoteCallOutcome) -> Option<(Seq<char>, Seq<char>)> {
    match outcome {
        RemoteCallOutcome::Reply(s) => window_payload_fields(s@),
        RemoteCallOutcome::CallError(m) => if msg_no_window(m@) {
            Some((""@, ""@))
        } else {
            None
        },
    }
}

/// Turn a raw call outcome into the focused window's `(title, wm_class)`.
/// An unfocused-window error becomes an empty pair; a vanished endpoint
/// becomes [`WatcherError::EndpointGone`]; any other failure, a malformed
/// payload included, becomes [`WatcherError::CallFailed`].
pub fn interpret_window_reply(outcome: RemoteCallOutcome) -> (r: Result<
    (String, String),
    WatcherError,
>)
    ensures
        match outcome_window(outcome) {
            Some(p) => r matches Ok(d) && d.0@ == p.0 && d.1@ == p.1,
            None => r is Err,
        },
        match outcome {
            RemoteCallOutcome::Reply(s) => window_payload_fields(s@) is None ==> (r matches Err(e)
                && e matches WatcherError::CallFailed(m)
                && m@ == "remote window data is not the expected JSON: "@ + s@),
            RemoteCallOutcome::CallError(m) => !msg_no_window(m@) ==> {
                &&& msg_endpoint_gone(m@) ==> (r matches Err(e) && e is EndpointGone)
                &&& !msg_endpoint_gone(m@) ==> (r matches Err(e) && e matches
                    WatcherError::CallFailed(mm) && mm@ == m@)
            },
        },
{
    match outcome {
        RemoteCallOutcome::Reply(s) => match decode_window_payload(s.as_str()) {
            Some(p) => Ok(p),
            None => Err(
                WatcherError::CallFailed(
                    String::from_str("remote window data is not the expected JSON: ").concat(
                        s.as_str(),
                    ),
                ),
            ),
        },
        RemoteCallOutcome::CallError(m) => {
            if crate::utils::str_contains(m.as_str(), "No window in focus") {
                proof {
                    reveal_strlit("");
                    assert(""@ =~= Seq::<char>::empty());
                }
                Ok((String::new(), String::new()))
            } else if crate::utils::str_contains(m.as_str(), "Object does not exist at path") {
                Err(WatcherError::EndpointGone)
            } else {
                Err(WatcherError::CallFailed(m))
            }
        },
    }
}

/// The GNOME-style watcher's reconciled state.
pub struct GnomeWindowWatcher {
    /// Title last seen from the shell.
    pub last_title: String,
    /// Window class last seen from the shell.
    pub last_app_id: String,
    /// Inactivity threshold in ms.
    pub idle_timeout: u64,
    /// Metadata cache keyed by window class.
    pub desktop_info_cache: SimpleCache<DesktopInfo>,
    /// The desktop-entry provider behind the cache.
    pub linux_desktop_info: LinuxDesktopInfo,
    /// The session-bus endpoints the caller drives.
    pub gnome_dbus_config: GnomeDbusConfig,
    /// The snapshot produced by the most recent handled reply.
    pub last_window: Option<ActiveWindowData>,
    /// The idle-time reading from the most recent idle query, in ms.
    pub last_idle_millis: Option<u64>,
}

impl GnomeWindowWatcher {
    /// A fresh watcher over an already-loaded desktop-entry list. The
    /// environment probe, the bus connection, the warm-up query and its
    /// bounded retries happen outside the library, before this is called.
    pub fn new(config: WatcherConfig, provider: LinuxDesktopInfo) -> (r: Self)
        ensures
            r.last_title@ == Seq::<char>::empty(),
            r.last_app_id@ == Seq::<char>::empty(),
            r.idle_timeout == config.idle_timeout,
            r.desktop_info_cache.wf(),
            r.desktop_info_cache.entries() =~= Seq::<CacheEntry<DesktopInfo>>::empty(),
            r.desktop_info_cache.spec_config() == config.cache_config,
            r.gnome_dbus_config == config.gnome_dbus_config,
            r.last_window is None,
            r.last_idle_millis is None,
    {
        GnomeWindowWatcher {
            last_title: String::new(),
            last_app_id: String::new(),
            idle_timeout: config.idle_timeout,
            desktop_info_cache: SimpleCache::new(config.cache_config),
            linux_desktop_info: provider,
            gnome_dbus_config: config.gnome_dbus_config,
            last_window: None,
            last_idle_millis: None,
        }
    }

    /// Reconcile one window-data call outcome at time `now`: decode it,
    /// update the last-seen window, enrich it with metadata (cache first,
    /// provider on miss; positives cached, negatives not), and publish the
    /// snapshot. Interpretation failures change nothing and are returned.
    pub fn handle_window_reply(&mut self, outcome: RemoteCallOutcome, now: u64) -> (r: Result<
        ActiveWindowData,
        WatcherError,
    >)
        requires
            old(self).desktop_info_cache.wf(),
            old(self).desktop_info_cache.stamps_at_most(now),
        ensures
            final(self).desktop_info_cache.wf(),
            final(self).desktop_info_cache.stamps_at_most(now),
            final(self).desktop_info_cache.spec_config() == old(
                self,
            ).desktop_info_cache.spec_config(),
            final(self).idle_timeout == old(self).idle_timeout,
            final(self).last_idle_millis == old(self).last_idle_millis,
            outcome_window(outcome) is None ==> r is Err && *final(self) == *old(self),
            // The vanished-endpoint condition keeps its distinguished error
            // here too, so a caller can decide to reconstruct the backend.
            match outcome {
                RemoteCallOutcome::CallError(m) => (!msg_no_window(m@) && msg_endpoint_gone(m@))
                    ==> (r matches Err(e) && e is EndpointGone),
                RemoteCallOutcome::Reply(_) => true,
            },
            match outcome_window(outcome) {
                Some(p) => {
                    &&& final(self).last_title@ == p.0
                    &&& final(self).last_app_id@ == p.1
                    &&& match r {
                        Ok(w) => {
                            &&& w.window_title@ == p.0
                            &&& w.app_identifier matches Some(id) && id@ == p.1
                            &&& final(self).last_window == Some(w)
                        },
                        Err(_) => false,
                    }
                },
                None => r is Err,
            },
            // Cache hit: the snapshot carries the cached metadata and the
            // cache itself is untouched. Cache miss (or expired entry): the
            // provider decides; a negative lookup leaves the metadata empty
            // and is not cached, a positive one is cached.
            match outcome_window(outcome) {
                Some(p) => ({
                    let cache = old(self).desktop_info_cache;
                    &&& cache_hit(cache, p.1, now) ==> ({
                        let info = cached_info(cache, p.1);
                        &&& final(self).desktop_info_cache == cache
                        &&& match r {
                            Ok(w) => w.process_path == info.process_path && w.app_name
                                == info.app_name,
                            Err(_) => false,
                        }
                    })
                    &&& !cache_hit(cache, p.1, now) ==> match r {
                        Ok(w) => miss_outcome(
                            w.process_path,
                            w.app_name,
                            cache,
                            final(self).desktop_info_cache,
                            p.1,
                        ),
                        Err(_) => false,
                    }
                }),
                None => true,
            },
    {
        let decoded = match interpret_window_reply(outcome) {
            Ok(p) => p,
            Err(e) => {
                return Err(e);
            },
        };
        let (title, wm_class) = decoded;
        if !str_eq(wm_class.as_str(), self.last_app_id.as_str()) || !str_eq(
            title.as_str(),
            self.last_title.as_str(),
        ) {
            self.last_app_id = wm_class;
            self.last_title = title;
        }

        let (process_path, app_name) = lookup_enrichment(
            &mut self.desktop_info_cache,
            &self.linux_desktop_info,
            &self.last_app_id,
            now,
        );

        let snapshot = ActiveWindowData {
            window_title: self.last_title.clone(),
            app_identifier: Some(self.last_app_id.clone()),
            process_path,
            app_name,
        };
        self.last_window = Some(snapshot.clone());
        Ok(snapshot)
    }

    /// Record the idle-time reading of one idle query, in ms.
    pub fn note_idle_millis(&mut self, idle_millis: u64)
        ensures
            *final(self) == (GnomeWindowWatcher {
                last_idle_millis: Some(idle_millis),
                ..*old(self)
            }),
    {
        self.last_idle_millis = Some(idle_millis);
    }

    /// The user is idle iff the reported idle time exceeds the threshold.
    pub fn is_idle_from_millis(&self, idle_millis: u64) -> (r: bool)
        ensures
            r == (idle_millis > self.idle_timeout),
    {
        idle_millis > self.idle_timeout
    }

    /// The latest published snapshot; an error until the first successful
    /// reply has been handled.
    pub fn current_window_data(&self) -> (r: Result<ActiveWindowData, WatcherError>)
        ensures
            match self.last_window {
                Some(w) => r matches Ok(got) && got == w,
                None => r is Err,
            },
    {
        match &self.last_window {
            Some(w) => Ok(w.clone()),
            None => Err(WatcherError::CallFailed(String::from_str("no window data handled yet"))),
        }
    }

    /// The latest idle decision; an error until the first idle reading.
    pub fn current_idle(&self) -> (r: Result<bool, WatcherError>)
        ensures
            match self.last_idle_millis {
                Some(ms) => r matches Ok(b) && b == (ms > self.idle_timeout),
                None => r is Err,
            },
    {
        match self.last_idle_millis {
            Some(ms) => Ok(self.is_idle_from_millis(ms)),
            None => Err(WatcherError::CallFailed(String::from_str("no idle reading yet"))),
        }
    }
}

} // verus!
