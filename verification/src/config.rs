//! Watcher configuration: idle thresholds, cache tuning, and the session-bus
//! endpoints used for window and idle queries. All durations are in ms.

use vstd::prelude::*;
use crate::simple_cache::CacheConfig;

verus! {

/// The session-bus endpoints the GNOME-style watcher calls.
pub struct GnomeDbusConfig {
    /// The bus service name for window data calls.
    pub window_service: String,
    /// The bus object path for window data calls.
    pub window_path: String,
    /// The bus interface for window data calls.
    pub window_interface: String,
    /// The bus method name for window data calls.
    pub window_method: String,
    /// The bus service name for idle time calls.
    pub idle_service: String,
    /// The bus object path for idle time calls.
    pub idle_path: String,
    /// The bus interface for idle time calls.
    pub idle_interface: String,
    /// The bus method name for idle time calls.
    pub idle_method: String,
}

impl Clone for GnomeDbusConfig {
    fn clone(&self) -> (r: Self)
        ensures
            r == *self,
    {
        GnomeDbusConfig {
            window_service: self.window_service.clone(),
            window_path: self.window_path.clone(),
            window_interface: self.window_interface.clone(),
            window_method: self.window_method.clone(),
            idle_service: self.idle_service.clone(),
            idle_path: self.idle_path.clone(),
            idle_interface: self.idle_interface.clone(),
            idle_method: self.idle_method.clone(),
        }
    }
}

impl Default for GnomeDbusConfig {
    /// The stock GNOME shell endpoints.
    fn default() -> (r: Self)
        ensures
            r.window_service@ == "org.gnome.Shell"@,
            r.window_path@ == "/org/gnome/shell/extensions/WhatawhatFocusedWindow"@,
            r.window_interface@ == "org.gnome.shell.extensions.WhatawhatFocusedWindow"@,
            r.window_method@ == "Get"@,
            r.idle_service@ == "org.gnome.Shell"@,
            r.idle_path@ == "/org/gnome/Mutter/IdleMonitor/Core"@,
            r.idle_interface@ == "org.gnome.Mutter.IdleMonitor"@,
            r.idle_method@ == "GetIdletime"@,
    {
        GnomeDbusConfig {
            window_service: String::from_str("org.gnome.Shell"),
            window_path: String::from_str("/org/gnome/shell/extensions/WhatawhatFocusedWindow"),
            window_interface: String::from_str(
                "org.gnome.shell.extensions.WhatawhatFocusedWindow",
            ),
            window_method: String::from_str("Get"),
            idle_service: String::from_str("org.gnome.Shell"),
            idle_path: String::from_str("/org/gnome/Mutter/IdleMonitor/Core"),
            idle_interface: String::from_str("org.gnome.Mutter.IdleMonitor"),
            idle_method: String::from_str("GetIdletime"),
        }
    }
}

/// How often, and with what pause, session-bus backend construction is
/// retried before failing permanently. Steady-state polling never retries.
pub struct RetryPolicy {
    pub attempts: u32,
    pub backoff_millis: u64,
}

impl Default for RetryPolicy {
    fn default() -> (r: Self)
        ensures
            r.attempts == 3,
            r.backoff_millis == 3000,
    {
        RetryPolicy { attempts: 3, backoff_millis: 3000 }
    }
}

/// Top-level watcher configuration.
pub struct WatcherConfig {
    /// Inactivity threshold for the idle watcher, in ms.
    pub idle_timeout: u64,
    /// Tuning for the metadata cache shared by the backends.
    pub cache_config: CacheConfig,
    /// Whether the caller runs on the platform's required privileged thread;
    /// when false, the macOS backend spawns a helper process instead.
    pub am_on_main_thread: bool,
    /// The cadence of the background idle pump, in ms.
    pub idle_check_interval: u64,
    /// Session-bus endpoints for the GNOME-style watcher.
    pub gnome_dbus_config: GnomeDbusConfig,
}

impl Clone for WatcherConfig {
    fn clone(&self) -> (r: Self)
        ensures
            r == *self,
    {
        WatcherConfig {
            idle_timeout: self.idle_timeout,
            cache_config: self.cache_config.clone(),
            am_on_main_thread: self.am_on_main_thread,
            idle_check_interval: self.idle_check_interval,
            gnome_dbus_config: self.gnome_dbus_config.clone(),
        }
    }
}

impl Default for WatcherConfig {
    fn default() -> (r: Self)
        ensures
            r.idle_timeout == 1000,
            r.cache_config.ttl == 600000,
            r.cache_config.max_size == 100,
            r.am_on_main_thread == true,
            r.idle_check_interval == 1000,
    {
        WatcherConfig {
            idle_timeout: 1000,
            cache_config: CacheConfig { ttl: 600000, max_size: 100 },
            am_on_main_thread: true,
            idle_check_interval: 1000,
            gnome_dbus_config: GnomeDbusConfig::default(),
        }
    }
}

} // verus!
