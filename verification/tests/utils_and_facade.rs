use whatawhat_watcher::Backend;
use whatawhat_watcher::GenericWindowManager;
use whatawhat_watcher::WatcherError;
use whatawhat_watcher::WindowManager;
use whatawhat_watcher::config::{GnomeDbusConfig, RetryPolicy, WatcherConfig};
use whatawhat_watcher::utils::{
    default_cache_config, is_gnome, is_wayland, is_x11, parse_i8_decimal, str_contains,
    str_contains_char, str_eq, u64_to_string,
};
use whatawhat_watcher::x11::LinuxWindowManager;

#[test]
fn substring_search_matches_anywhere() {
    assert!(str_contains("No window in focus", "No window in focus"));
    assert!(str_contains("error: No window in focus today", "No window in focus"));
    assert!(!str_contains("No window", "No window in focus"));
    assert!(str_contains("anything", ""));
    assert!(!str_contains("", "x"));
}

#[test]
fn string_equality_is_exact() {
    assert!(str_eq("x11", "x11"));
    assert!(!str_eq("x11", "X11"));
    assert!(!str_eq("x11", "x1"));
    assert!(str_eq("", ""));
}

#[test]
fn char_search_finds_single_characters() {
    assert!(str_contains_char("FOO=bar", '='));
    assert!(!str_contains_char("/usr/bin/kate", '='));
}

#[test]
fn decimal_rendering_is_exact() {
    assert_eq!(u64_to_string(0), String::from("0"));
    assert_eq!(u64_to_string(7), String::from("7"));
    assert_eq!(u64_to_string(12345), String::from("12345"));
    assert_eq!(u64_to_string(18446744073709551615), String::from("18446744073709551615"));
}

#[test]
fn decimal_parsing_is_exact() {
    assert_eq!(parse_i8_decimal("5"), Some(5));
    assert_eq!(parse_i8_decimal("6"), Some(6));
    assert_eq!(parse_i8_decimal("127"), Some(127));
    assert_eq!(parse_i8_decimal("128"), None);
    assert_eq!(parse_i8_decimal(""), None);
    assert_eq!(parse_i8_decimal("5a"), None);
    assert_eq!(parse_i8_decimal("-5"), None);
}

#[test]
fn gnome_probe_prefers_the_override_variable() {
    assert!(is_gnome(Some("GNOME"), None));
    assert!(is_gnome(None, Some("ubuntu:GNOME")));
    assert!(!is_gnome(Some("KDE"), Some("GNOME")));
    assert!(!is_gnome(None, None));
}

#[test]
fn wayland_probe_needs_display_and_session_type() {
    assert!(is_wayland(Some("wayland-0"), Some("Wayland")));
    assert!(!is_wayland(None, Some("wayland")));
    assert!(!is_wayland(Some("wayland-0"), Some("x11")));
    assert!(!is_wayland(Some("wayland-0"), None));
}

#[test]
fn x11_probe_needs_exact_session_type_and_no_wayland_display() {
    assert!(is_x11(None, Some("x11")));
    assert!(!is_x11(Some("wayland-0"), Some("x11")));
    assert!(!is_x11(None, Some("X11")));
    assert!(!is_x11(None, None));
}

#[test]
fn stock_configuration_values() {
    let config = WatcherConfig::default();
    assert_eq!(config.idle_timeout, 1000);
    assert_eq!(config.cache_config.ttl, 600000);
    assert_eq!(config.cache_config.max_size, 100);
    assert!(config.am_on_main_thread);

    let cache = default_cache_config();
    assert_eq!(cache.ttl, 60000);
    assert_eq!(cache.max_size, 1000);

    let retry = RetryPolicy::default();
    assert_eq!(retry.attempts, 3);
    assert_eq!(retry.backoff_millis, 3000);

    let dbus = GnomeDbusConfig::default();
    assert_eq!(dbus.window_service, String::from("org.gnome.Shell"));
    assert_eq!(dbus.window_method, String::from("Get"));
    assert_eq!(dbus.idle_method, String::from("GetIdletime"));
    assert_eq!(dbus.idle_interface, String::from("org.gnome.Mutter.IdleMonitor"));
}

#[test]
fn facade_selects_the_first_ready_backend() {
    let mut x11 = LinuxWindowManager::new(WatcherConfig::default());
    let _ = x11
        .apply_window_query(String::from("term"), Some(String::from("/usr/bin/term")))
        .unwrap();
    x11.note_idle_millis(2000);

    let candidates: Vec<Result<Backend, WatcherError>> = vec![
        Err(WatcherError::EnvironmentMismatch(String::from("not a GNOME session"))),
        Ok(Backend::X11(x11)),
    ];
    let mut facade = GenericWindowManager::new(candidates).expect("one candidate was ready");
    let snapshot = facade.get_active_window_data().expect("the backend has data");
    assert_eq!(snapshot.window_title, String::from("term"));
    assert_eq!(facade.is_idle().unwrap(), true);
}

#[test]
fn facade_fails_when_every_candidate_failed() {
    let candidates: Vec<Result<Backend, WatcherError>> = vec![
        Err(WatcherError::EnvironmentMismatch(String::from("wrong display server"))),
        Err(WatcherError::ConstructionFailed(String::from("bus connection refused"))),
    ];
    match GenericWindowManager::new(candidates) {
        Err(WatcherError::NoBackend) => {},
        _ => panic!("an aggregate failure is expected"),
    }
}
