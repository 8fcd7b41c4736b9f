//! The Windows polling watcher.
//!
//! Per poll, the OS is asked for the foreground window handle, its owning
//! process and image path, and the window text; idle time is the system
//! "last input tick" compared against the uptime counter, saturating at the
//! largest tick delta rather than overflowing. Those native calls happen
//! outside the library; their plain results are handed to
//! [`WindowsWindowManager::apply_window_query`], which holds the verified
//! reconciliation: cache-then-provider name enrichment and the snapshot.

use vstd::prelude::*;
use crate::ActiveWindowData;
use crate::WatcherError;
use crate::simple_cache::CacheConfig;
use crate::simple_cache::CacheEntry;
use crate::simple_cache::SimpleCache;
use crate::simple_cache::entry_fresh;
use crate::utils::default_cache_config;
use crate::windows_desktop::WindowsAppInfo;
use crate::windows_desktop::WindowsDesktopInfo;

verus! {

/// The idle duration in ticks (ms): the distance from the last input tick
/// to the current tick counter, saturated at the largest 32-bit value.
pub fn idle_time_from_ticks(tick_count: u64, last_input_tick: u32) -> (r: u64)
    requires
        tick_count >= last_input_tick as u64,
    ensures
        tick_count - last_input_tick > u32::MAX ==> r == u32::MAX as u64,
        tick_count - last_input_tick <= u32::MAX ==> r == tick_count - last_input_tick as u64,
{
    let duration = tick_count - (last_input_tick as u64);
    if duration > u32::MAX as u64 {
        u32::MAX as u64
    } else {
        duration
    }
}

/// The metadata cache holds a valid name for `key` at `now`.
pub open spec fn name_cache_hit(c: SimpleCache<WindowsAppInfo>, key: Seq<char>, now: u64) -> bool {
    c.has_key(key) && entry_fresh(c.entries()[c.key_index(key)], now, c.spec_config().ttl)
}

/// The name the cache holds for `key` (meaningful when it has the key).
pub open spec fn cached_name(c: SimpleCache<WindowsAppInfo>, key: Seq<char>) -> WindowsAppInfo {
    c.entries()[c.key_index(key)].value
}

/// What a cache miss may leave behind: either the provider found no product
/// name — the snapshot carries none and the cache has not grown — or it
/// found one, which the cache now holds under `key` (unless a zero ttl
/// makes every entry expire on insertion). Negative lookups are not cached.
pub open spec fn name_miss_outcome(
    app_name: Option<String>,
    before: SimpleCache<WindowsAppInfo>,
    after: SimpleCache<WindowsAppInfo>,
    key: Seq<char>,
) -> bool {
    ||| (app_name is None && after.entries().len() <= before.entries().len())
    ||| (exists|info: WindowsAppInfo|
        app_name == Some(info.app_name) && (after.has_key(key) || before.spec_config().ttl == 0))
}

/// The Windows watcher's reconciled state.
pub struct WindowsWindowManager {
    /// Inactivity threshold in ms.
    pub idle_timeout: u64,
    /// Product-name cache keyed by the executable path.
    pub desktop_info_cache: SimpleCache<WindowsAppInfo>,
    /// The PE version-resource provider behind the cache.
    pub windows_desktop_info: WindowsDesktopInfo,
    /// The snapshot produced by the most recent handled query.
    pub last_window: Option<ActiveWindowData>,
    /// The idle duration of the most recent idle query, in ms.
    pub last_idle_millis: Option<u64>,
}

impl WindowsWindowManager {
    /// A fresh watcher; with no cache tuning given, the stock one is used.
    pub fn new(idle_timeout: u64, cache_config: Option<CacheConfig>) -> (r: Self)
        ensures
            r.idle_timeout == idle_timeout,
            r.desktop_info_cache.wf(),
            r.desktop_info_cache.entries().len() == 0,
            cache_config matches Some(c) ==> r.desktop_info_cache.spec_config() == c,
            cache_config is None ==> r.desktop_info_cache.spec_config().ttl == 60000
                && r.desktop_info_cache.spec_config().max_size == 1000,
            r.last_window is None,
            r.last_idle_millis is None,
    {
        let config = match cache_config {
            Some(c) => c,
            None => default_cache_config(),
        };
        WindowsWindowManager {
            idle_timeout,
            desktop_info_cache: SimpleCache::new(config),
            windows_desktop_info: WindowsDesktopInfo::new(),
            last_window: None,
            last_idle_millis: None,
        }
    }

    /// Reconcile one foreground-window query at time `now`: resolve the
    /// application name for the executable path (cache first, the PE
    /// version resource of `image_bytes` on miss; positives cached,
    /// negatives not) and publish the snapshot.
    pub fn apply_window_query(
        &mut self,
        process_path: String,
        title: String,
        image_bytes: Option<&[u8]>,
        now: u64,
    ) -> (r: ActiveWindowData)
        requires
            old(self).desktop_info_cache.wf(),
            old(self).desktop_info_cache.stamps_at_most(now),
        ensures
            final(self).desktop_info_cache.wf(),
            final(self).desktop_info_cache.stamps_at_most(now),
            final(self).desktop_info_cache.spec_config() == old(
                self,
            ).desktop_info_cache.spec_config(),
            final(self).idle_timeout == old(self).idle_timeout,
            r.window_title == title,
            r.app_identifier == Some(process_path),
            r.process_path == Some(process_path),
            final(self).last_window == Some(r),
            name_cache_hit(old(self).desktop_info_cache, process_path@, now) ==> {
                &&& final(self).desktop_info_cache == old(self).desktop_info_cache
                &&& r.app_name == Some(
                    cached_name(old(self).desktop_info_cache, process_path@).app_name,
                )
            },
            !name_cache_hit(old(self).desktop_info_cache, process_path@, now) ==> name_miss_outcome(
                r.app_name,
                old(self).desktop_info_cache,
                final(self).desktop_info_cache,
                process_path@,
            ),
    {
        let cached = match self.desktop_info_cache.get(&process_path, now) {
            Some(info) => Some(info.clone()),
            None => None,
        };
        let app_name = match cached {
            Some(info) => Some(info.app_name),
            None => {
                let found = match image_bytes {
                    Some(bytes) => self.windows_desktop_info.product_name_from_image(bytes),
                    None => None,
                };
                match found {
                    Some(info) => {
                        let name = info.app_name.clone();
                        let ghost mid = self.desktop_info_cache;
                        let ghost stored = info;
                        let cache_key = process_path.clone();
                        let ghost gkey = cache_key;
                        self.desktop_info_cache.set(cache_key, info, now);
                        proof {
                            let k = gkey@;
                            let newe = CacheEntry { key: gkey, value: stored, timestamp: now };
                            let ins = mid.inserted_entries(gkey, stored, now);
                            let idx: int = if mid.has_key(k) {
                                mid.key_index(k)
                            } else {
                                mid.entries().len() as int
                            };
                            assert(ins[idx] == newe);
                            let fin = self.desktop_info_cache.entries();
                            if ins.len() > mid.spec_config().max_size {
                                if mid.spec_config().ttl >= 1 {
                                    let pred = |e: CacheEntry<WindowsAppInfo>| entry_fresh(
                                        e,
                                        now,
                                        mid.spec_config().ttl,
                                    );
                                    assert(pred(newe));
                                    ins.lemma_filter_contains(pred, idx);
                                    let j = choose|j: int|
                                        0 <= j < ins.filter(pred).len() && ins.filter(pred)[j]
                                            == newe;
                                    assert(fin[j] == newe);
                                    assert(self.desktop_info_cache.has_key(k));
                                }
                            } else {
                                assert(fin[idx] == newe);
                                assert(self.desktop_info_cache.has_key(k));
                            }
                        }
                        Some(name)
                    },
                    None => None,
                }
            },
        };
        let snapshot = ActiveWindowData {
            window_title: title,
            app_identifier: Some(process_path.clone()),
            process_path: Some(process_path),
            app_name,
        };
        self.last_window = Some(snapshot.clone());
        snapshot
    }

    /// Record the idle duration of one idle query, in ms.
    pub fn note_idle_millis(&mut self, idle_millis: u64)
        ensures
            *final(self) == (WindowsWindowManager {
                last_idle_millis: Some(idle_millis),
                ..*old(self)
            }),
    {
        self.last_idle_millis = Some(idle_millis);
    }

    /// The user is idle iff the idle duration exceeds the threshold.
    pub fn is_idle_from_millis(&self, idle_millis: u64) -> (r: bool)
        ensures
            r == (idle_millis > self.idle_timeout),
    {
        idle_millis > self.idle_timeout
    }

    /// The latest published snapshot; an error until the first query.
    pub fn current_window_data(&self) -> (r: Result<ActiveWindowData, WatcherError>)
        ensures
            match self.last_window {
                Some(w) => r matches Ok(got) && got == w,
                None => r is Err,
            },
    {
        match &self.last_window {
            Some(w) => Ok(w.clone()),
            None => Err(WatcherError::CallFailed(String::from_str("no window query handled yet"))),
        }
    }

    /// The latest idle decision; an error until the first idle reading.
    pub fn current_idle(&self) -> (r: Result<bool, WatcherError>)
        ensures
            match self.last_idle_millis {
                Some(ms) => r matches Ok(b) && b == (ms > self.idle_timeout),
                None => r is Err,
            },
    {
        match self.last_idle_millis {
            Some(ms) => Ok(self.is_idle_from_millis(ms)),
            None => Err(WatcherError::CallFailed(String::from_str("no idle reading yet"))),
        }
    }
}

} // verus!
