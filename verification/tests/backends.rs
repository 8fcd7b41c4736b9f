use whatawhat_watcher::WatcherError;
use whatawhat_watcher::config::WatcherConfig;
use whatawhat_watcher::gnome::{GnomeWindowWatcher, RemoteCallOutcome, interpret_window_reply};
use whatawhat_watcher::idle::IdleEvent;
use whatawhat_watcher::kde::{
    KdeWindowManager, kwin_major_version, kwin_script_object_path, parse_kwin_major_version,
};
use whatawhat_watcher::linux_desktop::{
    LinuxDesktopInfo, desktop_info_from_entry_parts, process_command,
};
use whatawhat_watcher::macos::MacosManger;
use whatawhat_watcher::macos::create_osascript_command;
use whatawhat_watcher::wayland_idle::{IdleWatcher, IdleWatcherRunner, is_idle_from_status};
use whatawhat_watcher::wayland_wlr::{ToplevelEvent, WaylandWindowWatcherInner};
use whatawhat_watcher::win::{WindowsWindowManager, idle_time_from_ticks};
use whatawhat_watcher::x11::LinuxWindowManager;

fn test_config() -> WatcherConfig {
    WatcherConfig::default()
}

fn empty_provider() -> LinuxDesktopInfo {
    LinuxDesktopInfo::from_entries(Vec::new())
}

#[test]
fn gnome_scenario_two_polls_with_stub_payload() {
    let mut watcher = GnomeWindowWatcher::new(test_config(), empty_provider());
    let payload = String::from("{\"title\":\"Terminal\",\"wm_class\":\"org.gnome.Terminal\"}");

    let first = watcher
        .handle_window_reply(RemoteCallOutcome::Reply(payload.clone()), 0)
        .expect("first poll must succeed");
    assert_eq!(first.window_title, String::from("Terminal"));
    assert_eq!(first.app_identifier, Some(String::from("org.gnome.Terminal")));
    assert_eq!(first.app_name, None);
    assert_eq!(first.process_path, None);

    let second = watcher
        .handle_window_reply(RemoteCallOutcome::Reply(payload), 1)
        .expect("second poll must succeed");
    assert_eq!(second.window_title, String::from("Terminal"));
    assert_eq!(second.app_name, None);
    // Negative lookups are not cached, so metadata can appear later.
    assert_eq!(watcher.desktop_info_cache.len(), 0);
}

#[test]
fn gnome_no_window_in_focus_is_an_empty_snapshot() {
    let mut watcher = GnomeWindowWatcher::new(test_config(), empty_provider());
    let outcome = RemoteCallOutcome::CallError(String::from(
        "org.gnome.gjs.JSError.Error: No window in focus",
    ));
    let snapshot = watcher.handle_window_reply(outcome, 0).expect("must not propagate");
    assert_eq!(snapshot.window_title, String::from(""));
    assert_eq!(snapshot.app_identifier, Some(String::from("")));
}

#[test]
fn gnome_vanished_endpoint_is_reported_distinctly() {
    let mut watcher = GnomeWindowWatcher::new(test_config(), empty_provider());
    let outcome = RemoteCallOutcome::CallError(String::from(
        "org.freedesktop.DBus.Error.UnknownObject: Object does not exist at path \
         /org/gnome/shell/extensions/WhatawhatFocusedWindow",
    ));
    match watcher.handle_window_reply(outcome, 0) {
        Err(WatcherError::EndpointGone) => {},
        other => panic!("expected the endpoint-gone error, got {:?}", other.is_ok()),
    }
}

#[test]
fn gnome_malformed_payload_is_a_call_failure() {
    let outcome = RemoteCallOutcome::Reply(String::from("not json at all"));
    match interpret_window_reply(outcome) {
        Err(WatcherError::CallFailed(msg)) => {
            assert!(msg.contains("not the expected JSON"));
        },
        _ => panic!("expected a call failure"),
    }
}

#[test]
fn gnome_other_call_errors_propagate() {
    let outcome = RemoteCallOutcome::CallError(String::from("connection reset"));
    match interpret_window_reply(outcome) {
        Err(WatcherError::CallFailed(msg)) => assert_eq!(msg, String::from("connection reset")),
        _ => panic!("expected a call failure"),
    }
}

#[test]
fn gnome_idle_compares_strictly() {
    let mut watcher = GnomeWindowWatcher::new(test_config(), empty_provider());
    assert!(watcher.current_idle().is_err());
    watcher.note_idle_millis(1000);
    assert_eq!(watcher.current_idle().unwrap(), false);
    watcher.note_idle_millis(1001);
    assert_eq!(watcher.current_idle().unwrap(), true);
}

#[test]
fn toplevel_stream_builds_and_activates_window() {
    let mut inner = WaylandWindowWatcherInner::new(test_config().cache_config, empty_provider());
    let events = vec![
        ToplevelEvent::Created { id: 1 },
        ToplevelEvent::Title { id: 1, title: String::from("Editor") },
        ToplevelEvent::AppId { id: 1, app_id: String::from("org.kde.kate") },
        ToplevelEvent::State { id: 1, state: vec![2] },
        ToplevelEvent::Done { id: 1 },
    ];
    let snapshot = inner.run_iteration(events, 0).expect("an activated window must be reported");
    assert_eq!(snapshot.window_title, String::from("Editor"));
    assert_eq!(snapshot.app_identifier, Some(String::from("org.kde.kate")));
}

#[test]
fn toplevel_without_activation_is_a_poll_failure() {
    let mut inner = WaylandWindowWatcherInner::new(test_config().cache_config, empty_provider());
    let events = vec![ToplevelEvent::Created { id: 1 }];
    assert!(inner.run_iteration(events, 0).is_err());
}

#[test]
fn toplevel_close_of_unknown_window_is_benign_but_current_may_dangle() {
    let mut inner = WaylandWindowWatcherInner::new(test_config().cache_config, empty_provider());
    let events = vec![
        ToplevelEvent::Created { id: 1 },
        ToplevelEvent::State { id: 1, state: vec![0, 2] },
        ToplevelEvent::Closed { id: 7 },
        ToplevelEvent::Closed { id: 1 },
    ];
    // The activated window was closed: the current pointer dangles and the
    // poll fails without tearing the backend down.
    assert!(inner.run_iteration(events, 0).is_err());
}

#[test]
fn toplevel_manager_finished_is_fatal() {
    let mut inner = WaylandWindowWatcherInner::new(test_config().cache_config, empty_provider());
    match inner.run_iteration(vec![ToplevelEvent::Finished], 0) {
        Err(WatcherError::ProtocolFinished) => {},
        _ => panic!("a torn-down protocol must be surfaced"),
    }
    // And it stays fatal on the next iteration.
    match inner.run_iteration(Vec::new(), 1) {
        Err(WatcherError::ProtocolFinished) => {},
        _ => panic!("the protocol stays torn down"),
    }
}

#[test]
fn idle_notify_events_drive_the_tracker() {
    let mut watcher = IdleWatcher::new(5000, 0);
    let status = watcher.run_iteration(vec![IdleEvent::Idled], 1000);
    match status {
        whatawhat_watcher::idle::Status::Idle { changed, .. } => assert!(changed),
        _ => panic!("expected idle"),
    }
    let status = watcher.run_iteration(Vec::new(), 2000);
    match status {
        whatawhat_watcher::idle::Status::Idle { changed, duration, .. } => {
            assert!(!changed);
            assert_eq!(duration, 2000);
        },
        _ => panic!("expected idle"),
    }
    let status = watcher.run_iteration(vec![IdleEvent::Resumed], 3000);
    match status {
        whatawhat_watcher::idle::Status::Active { changed, last_input_time } => {
            assert!(changed);
            assert_eq!(last_input_time, 3000);
        },
        _ => panic!("expected active"),
    }
}

#[test]
fn pump_cell_reader_sees_changes_only_after_publish() {
    let mut watcher = IdleWatcher::new(5000, 0);
    let mut cell = IdleWatcherRunner::new();

    // Nothing published yet: the reader reports active.
    assert_eq!(is_idle_from_status(&cell.read()), false);

    // The user goes idle, but the pump has not ticked yet: the reader's
    // view is unchanged — staleness is bounded by the tick, never zero.
    let status = watcher.run_iteration(vec![IdleEvent::Idled], 1000);
    assert_eq!(is_idle_from_status(&cell.read()), false);

    // The pump publishes: now, and only now, the reader sees the change.
    cell.publish(status);
    assert_eq!(is_idle_from_status(&cell.read()), true);
}

#[test]
fn kde_callback_updates_the_shared_record() {
    let mut manager = KdeWindowManager::new(test_config(), empty_provider());
    manager.interface.notify_active_window(
        String::from("kate - notes.txt"),
        String::from("org.kde.kate"),
        String::from("kate"),
        4242,
        0,
    );
    let snapshot = manager.get_active_window_data();
    assert_eq!(snapshot.window_title, String::from("kate - notes.txt"));
    assert_eq!(snapshot.app_identifier, Some(String::from("kate")));
    assert_eq!(snapshot.app_name, None);
}

#[test]
fn kde_idle_follows_the_published_status() {
    let mut manager = KdeWindowManager::new(test_config(), empty_provider());
    assert_eq!(manager.is_idle(), false);
    let mut idle = IdleWatcher::new(1000, 0);
    let status = idle.run_iteration(vec![IdleEvent::Idled], 500);
    manager.idle_watcher.publish(status);
    assert_eq!(manager.is_idle(), true);
}

#[test]
fn kwin_version_is_parsed_from_support_information() {
    let info = "Version\n=======\nKWin version: 5.27.8\nQt Version: 5.15.10\n";
    assert_eq!(parse_kwin_major_version(info), Some(5));
    assert_eq!(parse_kwin_major_version("KWin version: 6.0.1"), Some(6));
    assert_eq!(parse_kwin_major_version("KWin version: 42"), Some(42));
    assert_eq!(parse_kwin_major_version("no version line here"), None);
    assert_eq!(parse_kwin_major_version("KWin version: "), None);
    // The prefix must start its line.
    assert_eq!(parse_kwin_major_version("xKWin version: 5.27.8"), None);
}

#[test]
fn kwin_major_version_prefers_the_environment() {
    assert_eq!(kwin_major_version(Some("6"), "KWin version: 5.27.8"), 6);
    assert_eq!(kwin_major_version(None, "KWin version: 5.27.8"), 5);
    assert_eq!(kwin_major_version(Some("not a number"), "KWin version: 6.1"), 6);
    assert_eq!(kwin_major_version(None, "nothing useful"), 5);
}

#[test]
fn kwin_script_path_depends_on_major_version() {
    assert_eq!(kwin_script_object_path(5, 7), String::from("/7"));
    assert_eq!(kwin_script_object_path(6, 12), String::from("/Scripting/Script12"));
}

#[test]
fn windows_idle_ticks_saturate() {
    assert_eq!(idle_time_from_ticks(5000, 1000), 4000);
    let big = u32::MAX as u64 + 5000;
    assert_eq!(idle_time_from_ticks(big, 10), u32::MAX as u64);
}

#[test]
fn windows_query_builds_snapshot_without_metadata() {
    let mut manager = WindowsWindowManager::new(1000, None);
    let snapshot = manager.apply_window_query(
        String::from("C:\\Windows\\System32\\cmd.exe"),
        String::from("Command Prompt"),
        None,
        0,
    );
    assert_eq!(snapshot.window_title, String::from("Command Prompt"));
    assert_eq!(snapshot.app_identifier, Some(String::from("C:\\Windows\\System32\\cmd.exe")));
    assert_eq!(snapshot.process_path, Some(String::from("C:\\Windows\\System32\\cmd.exe")));
    assert_eq!(snapshot.app_name, None);
    assert!(manager.current_window_data().is_ok());
}

#[test]
fn windows_product_name_rejects_malformed_image() {
    let mut manager = WindowsWindowManager::new(1000, None);
    let garbage = vec![0u8, 1, 2, 3, 4, 5, 6, 7];
    let snapshot = manager.apply_window_query(
        String::from("C:\\broken.exe"),
        String::from("Broken"),
        Some(&garbage),
        0,
    );
    assert_eq!(snapshot.app_name, None);
}

#[test]
fn windows_idle_compares_strictly() {
    let mut manager = WindowsWindowManager::new(1000, None);
    assert!(manager.current_idle().is_err());
    manager.note_idle_millis(1000);
    assert_eq!(manager.current_idle().unwrap(), false);
    manager.note_idle_millis(1001);
    assert_eq!(manager.current_idle().unwrap(), true);
}

#[test]
fn macos_script_output_feeds_the_snapshot() {
    let mut manager = MacosManger::new(test_config());
    assert!(manager.current_window_data().is_err());
    manager
        .handle_script_output("{\"app\":\"Safari\",\"unixId\":42,\"title\":\"Apple\"}")
        .expect("a well-formed line must be accepted");
    assert_eq!(manager.current_pid(), Some(42));
    let snapshot = manager
        .complete_snapshot(Some(String::from("/Applications/Safari.app/Safari")))
        .expect("a report was loaded");
    assert_eq!(snapshot.window_title, String::from("Apple"));
    assert_eq!(snapshot.app_name, Some(String::from("Safari")));
    assert_eq!(snapshot.process_path, Some(String::from("/Applications/Safari.app/Safari")));
    assert_eq!(snapshot.app_identifier, None);
}

#[test]
fn macos_script_output_without_title_counts_as_empty() {
    let mut manager = MacosManger::new(test_config());
    manager
        .handle_script_output("{\"app\":\"Finder\",\"unixId\":7}")
        .expect("a missing title is not an error");
    let snapshot = manager.complete_snapshot(None).expect("a report was loaded");
    assert_eq!(snapshot.window_title, String::from(""));
}

#[test]
fn macos_malformed_script_output_is_rejected() {
    let mut manager = MacosManger::new(test_config());
    assert!(manager.handle_script_output("garbage").is_err());
    assert!(manager.complete_snapshot(None).is_err());
}

#[test]
fn macos_command_splices_the_interval() {
    let command = create_osascript_command(3);
    assert!(command.contains("delay(3)"));
    assert!(command.starts_with("#!/usr/bin/osascript -l JavaScript"));
    assert!(command.contains("runCollector()"));
    let slower = create_osascript_command(17);
    assert!(slower.contains("delay(17)"));
}

#[test]
fn x11_query_requires_a_resolvable_process() {
    let mut manager = LinuxWindowManager::new(test_config());
    assert!(manager.apply_window_query(String::from("term"), None).is_err());
    let snapshot = manager
        .apply_window_query(String::from("term"), Some(String::from("/usr/bin/term")))
        .expect("a resolvable process yields a snapshot");
    assert_eq!(snapshot.window_title, String::from("term"));
    assert_eq!(snapshot.process_path, Some(String::from("/usr/bin/term")));
    assert_eq!(snapshot.app_identifier, None);
    assert_eq!(snapshot.app_name, None);
}

#[test]
fn x11_idle_compares_strictly() {
    let mut manager = LinuxWindowManager::new(test_config());
    assert!(manager.current_idle().is_err());
    manager.note_idle_millis(1001);
    assert_eq!(manager.current_idle().unwrap(), true);
}

#[test]
fn desktop_info_combines_name_and_command() {
    let info = desktop_info_from_entry_parts(
        Some(String::from("Kate")),
        vec![String::from("env"), String::from("X=1"), String::from("/usr/bin/kate")],
    );
    assert_eq!(info.app_name, Some(String::from("Kate")));
    assert_eq!(info.process_path, Some(String::from("/usr/bin/kate")));
}

#[test]
fn process_command_skips_env_and_assignments() {
    assert_eq!(
        process_command(vec![
            String::from("env"),
            String::from("FOO=bar"),
            String::from("/usr/bin/kate"),
            String::from("--flag"),
        ]),
        Some(String::from("/usr/bin/kate"))
    );
    assert_eq!(process_command(vec![String::from("env"), String::from("A=b")]), None);
    assert_eq!(process_command(Vec::new()), None);
}

#[test]
fn empty_desktop_database_finds_nothing() {
    let provider = empty_provider();
    assert!(provider.get_extra_info("org.gnome.Terminal").is_none());
    assert!(provider.get_extra_info("caf\u{e9}").is_none());
}
