//! The macOS polling watcher.
//!
//! Two drivers share one interface: (a) a scripting snippet compiled once
//! and executed per poll in-process — only safe on the platform's required
//! main thread — and (b) a long-lived helper process running the same
//! snippet in a loop, emitting one JSON line per tick, which a background
//! thread reads and republishes into a shared cell. Script compilation,
//! execution, the helper process and its reader thread live outside the
//! library; each emitted JSON line is handed to
//! [`MacosManger::handle_script_output`]. Idle time comes from the
//! system's HID event source, converted to ms outside the library.

use vstd::prelude::*;
use crate::ActiveWindowData;
use crate::WatcherError;
use crate::config::WatcherConfig;
use crate::utils::dec_rep;
use crate::utils::u64_to_string;

verus! {

/// The first part of the helper snippet, up to the collection interval.
pub const OSASCRIPT_HEAD: &'static str = "#!/usr/bin/osascript -l JavaScript

// adapted from:
// https://gist.github.com/EvanLovely/cb01eafb0d61515c835ecd56f6ac199a

function getApp() {
  var seApp = Application(\"System Events\")
  var oProcess = seApp.processes.whose({ frontmost: true })[0]
  var appName = oProcess.displayedName()

  var url = undefined,
    incognito = undefined,
    title = undefined

  switch (appName) {
    case \"Safari\":
      url = Application(appName).documents[0].url()
      title = Application(appName).documents[0].name()
      break
    case \"Google Chrome\":
    case \"Google Chrome Canary\":
    case \"Chromium\":
    case \"Brave Browser\":
      const activeWindow = Application(appName).windows[0]
      const activeTab = activeWindow.activeTab()

      url = activeTab.url()
      title = activeTab.name()
      incognito = activeWindow.mode() === \"incognito\"
      break
    case \"Firefox\":
    case \"Firefox Developer Edition\":
      title = Application(appName).windows[0].name()
      break
    default:
      mainWindow = oProcess
        .windows()
        .find((w) => w.attributes.byName(\"AXMain\").value() === true)

      if (mainWindow) {
        title = mainWindow.attributes.byName(\"AXTitle\").value()
      }
  }

  return JSON.stringify({
    app: appName,
    unixId: oProcess.unixId(),
    url,
    title,
    incognito,
  })
}

function runCollector() {
  while (true) {
    console.log(getApp())
    delay(";

/// The last part of the helper snippet, after the collection interval.
pub const OSASCRIPT_TAIL: &'static str = ")
  }
}

runCollector()
";

/// The helper snippet with the collection interval, in whole seconds,
/// spliced into its delay call.
pub fn create_osascript_command(collection_interval_secs: u64) -> (r: String)
    ensures
        r@ == OSASCRIPT_HEAD@ + dec_rep(collection_interval_secs as int) + OSASCRIPT_TAIL@,
{
    let mut s = String::from_str(OSASCRIPT_HEAD);
    let digits = u64_to_string(collection_interval_secs);
    s.append(digits.as_str());
    s.append(OSASCRIPT_TAIL);
    s
}

/// What the snippet reports for one tick, decoded from its JSON line.
pub struct AppInfo {
    /// The frontmost process's unix process id.
    pub unix_id: u32,
    /// The frontmost application's displayed name.
    pub app: String,
    /// The focused window's title; empty when none was found.
    pub title: String,
}

impl Clone for AppInfo {
    fn clone(&self) -> (r: Self)
        ensures
            r == *self,
    {
        AppInfo { unix_id: self.unix_id, app: self.app.clone(), title: self.title.clone() }
    }
}

/// What serde_json extracts from one snippet line: the "unixId" number and
/// the "app" and "title" string fields of a JSON object, when the line is
/// such an object (a missing or null title counts as empty); a function of
/// the line's text alone.
pub uninterp spec fn app_info_fields(s: Seq<char>) -> Option<(u32, Seq<char>, Seq<char>)>;

/// Relies on serde_json::from_str and serde_json::Value's accessors:
/// parses one emitted line and extracts its "unixId", "app" and "title"
/// fields.
#[verifier::external_body]
fn decode_app_info_line(s: &str) -> (r: Option<AppInfo>)
    ensures
        match r {
            Some(info) => app_info_fields(s@) == Some((info.unix_id, info.app@, info.title@)),
            None => app_info_fields(s@) is None,
        },
{
    let v: serde_json::Value = serde_json::from_str(s).ok()?;
    let unix_id = u32::try_from(v.get("unixId")?.as_u64()?).ok()?;
    let app = v.get("app")?.as_str()?.to_string();
    let title = v.get("title").and_then(|t| t.as_str()).unwrap_or("").to_string();
    Some(AppInfo { unix_id, app, title })
}

/// The macOS watcher's reconciled state.
pub struct MacosManger {
    /// Inactivity threshold in ms.
    pub idle_timeout: u64,
    /// Whether the in-process driver may be used.
    pub am_on_main_thread: bool,
    /// The cadence of the helper process, in ms.
    pub idle_check_interval: u64,
    /// The shared cell the script output is republished into.
    pub current_app_info: Option<AppInfo>,
    /// The HID idle reading of the most recent idle query, in ms.
    pub last_idle_millis: Option<u64>,
    /// The snapshot produced by the most recent completed poll.
    pub last_window: Option<ActiveWindowData>,
}

impl MacosManger {
    /// A fresh watcher; the script compilation or the helper process and
    /// its reader thread are set up outside the library.
    pub fn new(config: WatcherConfig) -> (r: Self)
        ensures
            r.idle_timeout == config.idle_timeout,
            r.am_on_main_thread == config.am_on_main_thread,
            r.idle_check_interval == config.idle_check_interval,
            r.current_app_info is None,
            r.last_idle_millis is None,
            r.last_window is None,
    {
        MacosManger {
            idle_timeout: config.idle_timeout,
            am_on_main_thread: config.am_on_main_thread,
            idle_check_interval: config.idle_check_interval,
            current_app_info: None,
            last_idle_millis: None,
            last_window: None,
        }
    }

    /// Record the HID idle reading of one idle query, in ms.
    pub fn note_idle_millis(&mut self, idle_millis: u64)
        ensures
            *final(self) == (MacosManger { last_idle_millis: Some(idle_millis), ..*old(self) }),
    {
        self.last_idle_millis = Some(idle_millis);
    }

    /// The latest idle decision; an error until the first idle reading.
    pub fn current_idle(&self) -> (r: Result<bool, WatcherError>)
        ensures
            match self.last_idle_millis {
                Some(ms) => r matches Ok(b) && b == (ms > self.idle_timeout),
                None => r is Err,
            },
    {
        match self.last_idle_millis {
            Some(ms) => Ok(self.is_idle_from_millis(ms)),
            None => Err(WatcherError::CallFailed(String::from_str("no idle reading yet"))),
        }
    }

    /// Decode one line of script output and republish it into the cell.
    /// A malformed line changes nothing and is a per-poll failure.
    pub fn handle_script_output(&mut self, line: &str) -> (r: Result<(), WatcherError>)
        ensures
            match app_info_fields(line@) {
                Some(f) => {
                    &&& r is Ok
                    &&& match final(self).current_app_info {
                        Some(info) => info.unix_id == f.0 && info.app@ == f.1 && info.title@
                            == f.2,
                        None => false,
                    }
                    &&& final(self).last_window == old(self).last_window
                },
                None => r is Err && *final(self) == *old(self),
            },
    {
        match decode_app_info_line(line) {
            Some(info) => {
                self.current_app_info = Some(info);
                Ok(())
            },
            None => Err(
                WatcherError::CallFailed(
                    String::from_str("script output is not the expected JSON"),
                ),
            ),
        }
    }

    /// The process id the metadata lookup needs, from the latest report.
    pub fn current_pid(&self) -> (r: Option<u32>)
        ensures
            match self.current_app_info {
                Some(info) => r == Some(info.unix_id),
                None => r is None,
            },
    {
        match &self.current_app_info {
            Some(info) => Some(info.unix_id),
            None => None,
        }
    }

    /// Complete one poll: combine the latest report with the executable
    /// path resolved for its process id, and publish the snapshot. With
    /// nothing reported yet, this is a failure, never a silent default.
    pub fn complete_snapshot(&mut self, process_path: Option<String>) -> (r: Result<
        ActiveWindowData,
        WatcherError,
    >)
        ensures
            match old(self).current_app_info {
                Some(info) => r matches Ok(w) && {
                    &&& w.window_title == info.title
                    &&& w.app_identifier is None
                    &&& w.app_name == Some(info.app)
                    &&& w.process_path == process_path
                    &&& final(self).last_window == Some(w)
                    &&& final(self).current_app_info == old(self).current_app_info
                },
                None => r is Err && *final(self) == *old(self),
            },
    {
        let info = match &self.current_app_info {
            Some(info) => info.clone(),
            None => {
                return Err(WatcherError::CallFailed(String::from_str("no app info was loaded")));
            },
        };
        let snapshot = ActiveWindowData {
            window_title: info.title,
            app_identifier: None,
            process_path,
            app_name: Some(info.app),
        };
        self.last_window = Some(snapshot.clone());
        Ok(snapshot)
    }

    /// The user is idle iff the HID idle time exceeds the threshold.
    pub fn is_idle_from_millis(&self, idle_millis: u64) -> (r: bool)
        ensures
            r == (idle_millis > self.idle_timeout),
    {
        idle_millis > self.idle_timeout
    }

    /// The latest published snapshot; an error until the first completed
    /// poll.
    pub fn current_window_data(&self) -> (r: Result<ActiveWindowData, WatcherError>)
        ensures
            match self.last_window {
                Some(w) => r matches Ok(got) && got == w,
                None => r is Err,
            },
    {
        match &self.last_window {
            Some(w) => Ok(w.clone()),
            None => Err(WatcherError::CallFailed(String::from_str("no poll completed yet"))),
        }
    }
}

} // verus!
