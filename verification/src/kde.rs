//! The KDE-style session-bus watcher (push variant).
//!
//! KWin exposes no toplevel protocol, so a helper script is injected into
//! the compositor under a fixed name; the script calls back into a locally
//! hosted bus interface whenever focus changes, and that callback updates a
//! shared "current active window" record, resolving enrichment metadata at
//! callback time. A poll only reads the record. Idle detection is delegated
//! entirely to the idle-notify pump.
//!
//! Script loading/unloading, the bus connections and the callback plumbing
//! live outside the library; the callback's payload is handed to
//! [`ActiveWindowInterface::notify_active_window`]. Unloading the script on
//! teardown is best-effort: its failure is logged, never propagated.

use vstd::prelude::*;
use crate::ActiveWindowData;
use crate::clone_opt_string;
use crate::config::WatcherConfig;
use crate::idle::Status;
use crate::linux_desktop::DesktopInfo;
use crate::linux_desktop::LinuxDesktopInfo;
use crate::linux_desktop::cache_hit;
use crate::linux_desktop::cached_info;
use crate::linux_desktop::lookup_enrichment;
use crate::linux_desktop::miss_outcome;
use crate::simple_cache::SimpleCache;
use crate::utils::dec_rep;
use crate::utils::u64_to_string;
use crate::wayland_idle::IdleWatcherRunner;
use crate::wayland_idle::is_idle_from_status;

verus! {

/// The fixed name the helper script is registered under.
pub const KWIN_SCRIPT_NAME: &'static str = "whatawhat-lib";

/// The object path a loaded script is started at: KWin before major
/// version 6 exposes it at "/{number}", version 6 and later at
/// "/Scripting/Script{number}".
pub fn kwin_script_object_path(major_version: i8, script_number: i32) -> (r: String)
    requires
        script_number >= 0,
    ensures
        major_version < 6 ==> r@ == "/"@ + dec_rep(script_number as int),
        major_version >= 6 ==> r@ == "/Scripting/Script"@ + dec_rep(script_number as int),
{
    let digits = u64_to_string(script_number as u64);
    if major_version < 6 {
        String::from_str("/").concat(digits.as_str())
    } else {
        String::from_str("/Scripting/Script").concat(digits.as_str())
    }
}

/// The line prefix that marks KWin's version in its support information.
pub const KWIN_VERSION_PREFIX: &'static str = "KWin version: ";

/// An ASCII whitespace character, as the support information uses them.
pub open spec fn is_space(c: char) -> bool {
    c == ' ' || c == '\t' || c == '\n' || c == '\r'
}

/// The first position at or after `i` where a line starts with `p`.
pub open spec fn find_line_prefix_from(s: Seq<char>, p: Seq<char>, i: int) -> Option<int>
    decreases s.len() + 1 - i,
{
    if i < 0 || i + p.len() > s.len() {
        None
    } else if (i == 0 || s[i - 1] == '\n') && s.subrange(i, i + p.len()) == p {
        Some(i)
    } else {
        find_line_prefix_from(s, p, i + 1)
    }
}

/// The position of the line break at or after `j`, or the text's end.
pub open spec fn line_end_from(s: Seq<char>, j: int) -> int
    decreases s.len() - j,
{
    if j < 0 || j >= s.len() {
        j
    } else if s[j] == '\n' {
        j
    } else {
        line_end_from(s, j + 1)
    }
}

/// The position after the last non-space character before `j`.
pub open spec fn token_end(rest: Seq<char>, j: int) -> int
    decreases j,
{
    if j <= 0 {
        0
    } else if is_space(rest[j - 1]) {
        token_end(rest, j - 1)
    } else {
        j
    }
}

/// The position of the space-delimited token that ends at `j`.
pub open spec fn token_start(rest: Seq<char>, j: int) -> int
    decreases j,
{
    if j <= 0 {
        0
    } else if !is_space(rest[j - 1]) {
        token_start(rest, j - 1)
    } else {
        j
    }
}

/// The position of the first '.' at or after `i`, or the token's end.
pub open spec fn dot_prefix_end(t: Seq<char>, i: int) -> int
    decreases t.len() - i,
{
    if i < 0 || i >= t.len() {
        i
    } else if t[i] == '.' {
        i
    } else {
        dot_prefix_end(t, i + 1)
    }
}

/// KWin's major version as its support information states it: on the first
/// line starting "KWin version: ", the last space-delimited token's leading
/// digits before any '.', when they denote a small number.
pub open spec fn spec_kwin_major(s: Seq<char>) -> Option<int> {
    match find_line_prefix_from(s, "KWin version: "@, 0) {
        None => None,
        Some(i) => {
            let start = i + "KWin version: "@.len();
            let end = line_end_from(s, start);
            let rest = s.subrange(start, end);
            let b = token_end(rest, rest.len() as int);
            if b == 0 {
                None
            } else {
                let a = token_start(rest, b);
                let tok = rest.subrange(a, b);
                let m = tok.subrange(0, dot_prefix_end(tok, 0));
                crate::utils::parse_i8_decimal_spec(m)
            }
        },
    }
}

/// Whether the line holding position `i` of `s` starts with `p` there.
fn line_prefix_at(s: &str, p: &str, i: usize) -> (r: bool)
    requires
        i + p@.len() <= s@.len(),
        i + p@.len() <= usize::MAX,
    ensures
        r == ((i == 0 || s@[i as int - 1] == '\n') && s@.subrange(
            i as int,
            i + p@.len(),
        ) == p@),
{
    if i > 0 && s.get_char(i - 1) != '\n' {
        return false;
    }
    let pn = p.unicode_len();
    let mut j: usize = 0;
    while j < pn
        invariant
            pn == p@.len(),
            i + pn <= s@.len(),
            i + pn <= usize::MAX,
            j <= pn,
            forall|m: int| 0 <= m < j ==> s@[i + m] == p@[m],
        decreases pn - j,
    {
        if s.get_char(i + j) != p.get_char(j) {
            proof {
                if s@.subrange(i as int, i + pn) == p@ {
                    assert(s@.subrange(i as int, i + pn)[j as int] == p@[j as int]);
                }
            }
            return false;
        }
        j += 1;
    }
    proof {
        assert(s@.subrange(i as int, i + pn) =~= p@);
    }
    true
}

/// Extract KWin's major version from its support information, as
/// [`spec_kwin_major`] states it. The support-information call itself is
/// made outside the library.
pub fn parse_kwin_major_version(support_information: &str) -> (r: Option<i8>)
    ensures
        match r {
            Some(v) => spec_kwin_major(support_information@) == Some(v as int),
            None => spec_kwin_major(support_information@) is None,
        },
{
    let s = support_information;
    let p = KWIN_VERSION_PREFIX;
    let sn = s.unicode_len();
    let pn = p.unicode_len();
    proof {
        reveal_strlit("KWin version: ");
        assert(p@ == "KWin version: "@);
    }
    if pn > sn {
        return None;
    }
    proof {
        assert(pn >= 1);
    }
    let mut i: usize = 0;
    let mut found: Option<usize> = None;
    while i <= sn - pn && found.is_none()
        invariant
            sn == s@.len(),
            pn == p@.len(),
            p@ == "KWin version: "@,
            1 <= pn <= sn,
            i <= sn - pn + 1,
            match found {
                Some(f) => find_line_prefix_from(s@, p@, 0) == Some(f as int) && f as int + pn
                    <= sn,
                None => find_line_prefix_from(s@, p@, 0) == find_line_prefix_from(
                    s@,
                    p@,
                    i as int,
                ),
            },
        decreases sn - pn + 1 - i + (if found is None { 1int } else { 0int }),
    {
        if line_prefix_at(s, p, i) {
            found = Some(i);
        } else {
            i += 1;
        }
    }
    let start = match found {
        Some(f) => f + pn,
        None => {
            proof {
                assert(i as int + pn > sn);
                assert(find_line_prefix_from(s@, p@, i as int) is None);
            }
            return None;
        },
    };

    let mut end: usize = start;
    while end < sn && s.get_char(end) != '\n'
        invariant
            sn == s@.len(),
            start <= end <= sn,
            line_end_from(s@, start as int) == line_end_from(s@, end as int),
        decreases sn - end,
    {
        end += 1;
    }
    proof {
        assert(line_end_from(s@, end as int) == end);
    }

    let rest = s.substring_char(start, end);
    let ghost grest = s@.subrange(start as int, end as int);
    let rn = rest.unicode_len();

    let mut b: usize = rn;
    let mut trimming = true;
    while b > 0 && trimming
        invariant
            rn == rest@.len(),
            rest@ == grest,
            b <= rn,
            trimming ==> token_end(grest, rn as int) == token_end(grest, b as int),
            !trimming ==> token_end(grest, rn as int) == b as int,
        decreases b + (if trimming { 1int } else { 0int }),
    {
        let c = rest.get_char(b - 1);
        if c == ' ' || c == '\t' || c == '\n' || c == '\r' {
            b -= 1;
        } else {
            trimming = false;
        }
    }
    proof {
        if trimming {
            assert(token_end(grest, b as int) == b);
        }
    }
    if b == 0 {
        return None;
    }

    let mut a: usize = b;
    let mut in_token = true;
    while a > 0 && in_token
        invariant
            rn == rest@.len(),
            rest@ == grest,
            a <= b <= rn,
            in_token ==> token_start(grest, b as int) == token_start(grest, a as int),
            !in_token ==> token_start(grest, b as int) == a as int,
        decreases a + (if in_token { 1int } else { 0int }),
    {
        let c = rest.get_char(a - 1);
        if !(c == ' ' || c == '\t' || c == '\n' || c == '\r') {
            a -= 1;
        } else {
            in_token = false;
        }
    }
    proof {
        if in_token {
            assert(token_start(grest, a as int) == a);
        }
    }

    let tok = rest.substring_char(a, b);
    let ghost gtok = grest.subrange(a as int, b as int);
    let tn = tok.unicode_len();
    let mut d: usize = 0;
    while d < tn && tok.get_char(d) != '.'
        invariant
            tn == tok@.len(),
            tok@ == gtok,
            d <= tn,
            dot_prefix_end(gtok, 0) == dot_prefix_end(gtok, d as int),
        decreases tn - d,
    {
        d += 1;
    }
    proof {
        assert(dot_prefix_end(gtok, d as int) == d);
    }

    let major = tok.substring_char(0, d);
    proof {
        assert(major@ =~= gtok.subrange(0, d as int));
    }
    crate::utils::parse_i8_decimal(major)
}

/// KWin's major version as the watcher decides it: the session environment
/// variable wins when it parses; otherwise the support information; with
/// neither, major version 5 is assumed.
pub fn kwin_major_version(env_value: Option<&str>, support_information: &str) -> (r: i8)
    ensures
        ({
            let from_env = match env_value {
                Some(v) => crate::utils::parse_i8_decimal_spec(v@),
                None => None,
            };
            match from_env {
                Some(v) => r as int == v,
                None => match spec_kwin_major(support_information@) {
                    Some(v) => r as int == v,
                    None => r == 5,
                },
            }
        }),
{
    let from_env = match env_value {
        Some(v) => crate::utils::parse_i8_decimal(v),
        None => None,
    };
    match from_env {
        Some(v) => v,
        None => match parse_kwin_major_version(support_information) {
            Some(v) => v,
            None => 5,
        },
    }
}

/// The shared "current active window" record the injected script keeps
/// up to date through its callback.
pub struct ActiveWindow {
    pub resource_class: String,
    pub resource_name: String,
    pub caption: String,
    pub process_path: Option<String>,
    pub app_name: Option<String>,
}

/// A poll of the push-variant backend: a snapshot copied out of the shared
/// record, exactly as the last callback left it.
pub fn send_active_window(active_window: &ActiveWindow) -> (r: ActiveWindowData)
    ensures
        r.window_title == active_window.caption,
        r.app_identifier == Some(active_window.resource_name),
        r.process_path == active_window.process_path,
        r.app_name == active_window.app_name,
{
    ActiveWindowData {
        window_title: active_window.caption.clone(),
        app_identifier: Some(active_window.resource_name.clone()),
        process_path: clone_opt_string(&active_window.process_path),
        app_name: clone_opt_string(&active_window.app_name),
    }
}

/// The locally hosted bus interface the injected script calls back into.
pub struct ActiveWindowInterface {
    pub active_window: ActiveWindow,
    pub desktop_info_cache: SimpleCache<DesktopInfo>,
    pub linux_desktop_info: LinuxDesktopInfo,
}

impl ActiveWindowInterface {
    /// The script reported a focus change: record the window and resolve
    /// enrichment metadata, keyed by the resource name (cache first,
    /// provider on miss; positives cached, negatives not). The process id
    /// the script also hands over is unused, as the metadata comes from the
    /// desktop-entry database.
    pub fn notify_active_window(
        &mut self,
        caption: String,
        resource_class: String,
        resource_name: String,
        _pid: i32,
        now: u64,
    )
        requires
            old(self).desktop_info_cache.wf(),
            old(self).desktop_info_cache.stamps_at_most(now),
        ensures
            final(self).desktop_info_cache.wf(),
            final(self).desktop_info_cache.stamps_at_most(now),
            final(self).desktop_info_cache.spec_config() == old(
                self,
            ).desktop_info_cache.spec_config(),
            final(self).active_window.caption == caption,
            final(self).active_window.resource_class == resource_class,
            final(self).active_window.resource_name == resource_name,
            cache_hit(old(self).desktop_info_cache, resource_name@, now) ==> {
                &&& final(self).desktop_info_cache == old(self).desktop_info_cache
                &&& final(self).active_window.process_path == cached_info(
                    old(self).desktop_info_cache,
                    resource_name@,
                ).process_path
                &&& final(self).active_window.app_name == cached_info(
                    old(self).desktop_info_cache,
                    resource_name@,
                ).app_name
            },
            !cache_hit(old(self).desktop_info_cache, resource_name@, now) ==> miss_outcome(
                final(self).active_window.process_path,
                final(self).active_window.app_name,
                old(self).desktop_info_cache,
                final(self).desktop_info_cache,
                resource_name@,
            ),
    {
        let (process_path, app_name) = lookup_enrichment(
            &mut self.desktop_info_cache,
            &self.linux_desktop_info,
            &resource_name,
            now,
        );
        self.active_window = ActiveWindow {
            caption,
            resource_class,
            resource_name,
            process_path,
            app_name,
        };
    }
}

/// The KDE-style watcher: the callback-fed record plus the idle pump's
/// published status.
pub struct KdeWindowManager {
    pub interface: ActiveWindowInterface,
    pub idle_watcher: IdleWatcherRunner,
}

impl KdeWindowManager {
    /// A fresh watcher with an empty record. The environment probe, the
    /// script injection (unloading any stale prior registration first), the
    /// bus connections and the idle pump thread are set up outside the
    /// library, before this is called.
    pub fn new(config: WatcherConfig, provider: LinuxDesktopInfo) -> (r: Self)
        ensures
            r.interface.active_window.caption@ == Seq::<char>::empty(),
            r.interface.active_window.resource_class@ == Seq::<char>::empty(),
            r.interface.active_window.resource_name@ == Seq::<char>::empty(),
            r.interface.active_window.process_path is None,
            r.interface.active_window.app_name is None,
            r.interface.desktop_info_cache.wf(),
            r.interface.desktop_info_cache.entries().len() == 0,
            r.interface.desktop_info_cache.spec_config() == config.cache_config,
            r.idle_watcher.current_idle_status is None,
    {
        KdeWindowManager {
            interface: ActiveWindowInterface {
                active_window: ActiveWindow {
                    resource_class: String::new(),
                    resource_name: String::new(),
                    caption: String::new(),
                    process_path: None,
                    app_name: None,
                },
                desktop_info_cache: SimpleCache::new(config.cache_config),
                linux_desktop_info: provider,
            },
            idle_watcher: IdleWatcherRunner::new(),
        }
    }

    /// A poll: read the shared record as the last callback left it. The
    /// caller pumps pending bus activity first; a callback racing between
    /// that pump and this read is acceptable staleness, not an error.
    pub fn get_active_window_data(&self) -> (r: ActiveWindowData)
        ensures
            r.window_title == self.interface.active_window.caption,
            r.app_identifier == Some(self.interface.active_window.resource_name),
            r.process_path == self.interface.active_window.process_path,
            r.app_name == self.interface.active_window.app_name,
    {
        send_active_window(&self.interface.active_window)
    }

    /// The idle decision the pump last published; nothing published yet
    /// counts as active.
    pub fn is_idle(&self) -> (r: bool)
        ensures
            r == match self.idle_watcher.current_idle_status {
                Some(s) => crate::idle::status_is_idle(s),
                None => false,
            },
    {
        let status: Option<Status> = self.idle_watcher.read();
        is_idle_from_status(&status)
    }
}

} // verus!
