//! Enrichment metadata for Linux-family backends: resolves a window's
//! application id to a human-readable name and an executable path by
//! searching the desktop-entry database.
//!
//! Loading the entries from disk happens outside the library; the loaded
//! list is handed in once at construction. The lookup itself — entry search,
//! name localization, Exec parsing — is a pure function of that list.

use vstd::prelude::*;
use crate::clone_opt_string;
use crate::simple_cache::CacheEntry;
use crate::simple_cache::SimpleCache;
use crate::simple_cache::entry_fresh;
use crate::utils::str_contains_char;
use crate::utils::str_eq;

verus! {

#[verifier::external_type_specification]
#[verifier::external_body]
pub struct ExDesktopEntry(freedesktop_desktop_entry::DesktopEntry);

/// Enrichment metadata resolved for one application id.
pub struct DesktopInfo {
    pub app_name: Option<String>,
    pub process_path: Option<String>,
}

impl Clone for DesktopInfo {
    fn clone(&self) -> (r: Self)
        ensures
            r == *self,
    {
        DesktopInfo {
            app_name: match &self.app_name {
                Some(s) => Some(s.clone()),
                None => None,
            },
            process_path: match &self.process_path {
                Some(s) => Some(s.clone()),
                None => None,
            },
        }
    }
}

/// The desktop-entry database, loaded once.
pub struct LinuxDesktopInfo {
    entries: Vec<freedesktop_desktop_entry::DesktopEntry>,
}

/// Relies on freedesktop_desktop_entry::find_app_by_id: a case-insensitive
/// search of the loaded entries, by startup wm class, then entry file name,
/// then display name, then Exec command. The result is determined by the
/// entries and the id alone; nothing further is assumed of it.
#[verifier::external_body]
fn find_entry<'a>(
    entries: &'a Vec<freedesktop_desktop_entry::DesktopEntry>,
    app_id: &str,
) -> (r: Option<&'a freedesktop_desktop_entry::DesktopEntry>) {
    freedesktop_desktop_entry::find_app_by_id(
        entries.as_slice(),
        freedesktop_desktop_entry::unicase::Ascii::new(app_id),
    )
}

/// Relies on DesktopEntry::name: the entry's localized display name, if the
/// entry carries one.
#[verifier::external_body]
fn entry_name(entry: &freedesktop_desktop_entry::DesktopEntry) -> (r: Option<String>) {
    entry.name(&["en_US"]).map(|n| n.to_string())
}

/// Relies on DesktopEntry::parse_exec: the entry's Exec key split into
/// arguments; a missing, empty or malformed Exec key yields nothing.
#[verifier::external_body]
fn entry_exec_args(entry: &freedesktop_desktop_entry::DesktopEntry) -> (r: Option<Vec<String>>) {
    entry.parse_exec().ok()
}

/// The command a parsed Exec line launches: its first argument that is not
/// the literal "env" and carries no '=' (environment assignments and the
/// env prefix are skipped).
pub open spec fn spec_process_command(params: Seq<Seq<char>>) -> Option<Seq<char>>
    decreases params.len(),
{
    if params.len() == 0 {
        None
    } else if params[0] == "env"@ || params[0].contains('=') {
        spec_process_command(params.drop_first())
    } else {
        Some(params[0])
    }
}

/// Pick the launched command out of a parsed Exec argument list.
pub fn process_command(params: Vec<String>) -> (r: Option<String>)
    ensures
        match r {
            Some(s) => spec_process_command(params.deep_view()) == Some(s@),
            None => spec_process_command(params.deep_view()) is None,
        },
{
    let ghost dv = params.deep_view();
    let n = params.len();
    proof {
        assert(dv.subrange(0, dv.len() as int) =~= dv);
    }
    let mut i: usize = 0;
    while i < n
        invariant
            n == dv.len(),
            n == params@.len(),
            i <= n,
            dv == params.deep_view(),
            spec_process_command(dv) == spec_process_command(
                dv.subrange(i as int, dv.len() as int),
            ),
        decreases n - i,
    {
        proof {
            assert(dv.subrange(i as int, dv.len() as int)[0] == dv[i as int]);
            assert(dv.subrange(i as int, dv.len() as int).drop_first() =~= dv.subrange(
                i + 1,
                dv.len() as int,
            ));
            assert(params@[i as int]@ == dv[i as int]);
        }
        let next = &params[i];
        if str_eq(next.as_str(), "env") {
            i += 1;
        } else if str_contains_char(next.as_str(), '=') {
            i += 1;
        } else {
            return Some(next.clone());
        }
    }
    proof {
        assert(dv.subrange(n as int, n as int) =~= Seq::<Seq<char>>::empty());
    }
    None
}

/// Build enrichment metadata from an entry's localized name and its parsed
/// Exec arguments.
pub fn desktop_info_from_entry_parts(name: Option<String>, exec_args: Vec<String>) -> (r:
    DesktopInfo)
    ensures
        r.app_name == name,
        match r.process_path {
            Some(s) => spec_process_command(exec_args.deep_view()) == Some(s@),
            None => spec_process_command(exec_args.deep_view()) is None,
        },
{
    let ghost args = exec_args.deep_view();
    DesktopInfo { app_name: name, process_path: process_command(exec_args) }
}

/// The metadata cache holds a valid entry for `key` at `now`.
pub open spec fn cache_hit(c: SimpleCache<DesktopInfo>, key: Seq<char>, now: u64) -> bool {
    c.has_key(key) && entry_fresh(c.entries()[c.key_index(key)], now, c.spec_config().ttl)
}

/// The metadata the cache holds for `key` (meaningful when it has the key).
pub open spec fn cached_info(c: SimpleCache<DesktopInfo>, key: Seq<char>) -> DesktopInfo {
    c.entries()[c.key_index(key)].value
}

/// What a cache miss may leave behind: either the provider found nothing —
/// no metadata, and the cache has not grown — or it found metadata, which
/// the cache now holds under `key` (unless a zero ttl makes every entry
/// expire on insertion). Negative lookups are never cached.
pub open spec fn miss_outcome(
    process_path: Option<String>,
    app_name: Option<String>,
    before: SimpleCache<DesktopInfo>,
    after: SimpleCache<DesktopInfo>,
    key: Seq<char>,
) -> bool {
    ||| (process_path is None && app_name is None && after.entries().len()
        <= before.entries().len())
    ||| (exists|info: DesktopInfo|
        process_path == info.process_path && app_name == info.app_name && (after.has_key(key)
            || before.spec_config().ttl == 0))
}

/// Resolve enrichment metadata for `key`: the cache answers when it holds a
/// valid entry; otherwise the provider is consulted, a positive result is
/// cached under `key`, and a negative one is not cached (so metadata can
/// appear later).
pub fn lookup_enrichment(
    cache: &mut SimpleCache<DesktopInfo>,
    provider: &LinuxDesktopInfo,
    key: &String,
    now: u64,
) -> (r: (Option<String>, Option<String>))
    requires
        old(cache).wf(),
        old(cache).stamps_at_most(now),
    ensures
        final(cache).wf(),
        final(cache).stamps_at_most(now),
        final(cache).spec_config() == old(cache).spec_config(),
        cache_hit(*old(cache), key@, now) ==> *final(cache) == *old(cache) && r.0 == cached_info(
            *old(cache),
            key@,
        ).process_path && r.1 == cached_info(*old(cache), key@).app_name,
        !cache_hit(*old(cache), key@, now) ==> miss_outcome(
            r.0,
            r.1,
            *old(cache),
            *final(cache),
            key@,
        ),
{
    let cached = match cache.get(key, now) {
        Some(info) => Some(info.clone()),
        None => None,
    };
    match cached {
        Some(info) => (info.process_path, info.app_name),
        None => match provider.get_extra_info(key.as_str()) {
            Some(extra) => {
                let pp = clone_opt_string(&extra.process_path);
                let an = clone_opt_string(&extra.app_name);
                let ghost mid = *cache;
                let ghost stored = extra;
                let cache_key = key.clone();
                let ghost gkey = cache_key;
                cache.set(cache_key, extra, now);
                proof {
                    let k = gkey@;
                    let newe = CacheEntry { key: gkey, value: stored, timestamp: now };
                    let ins = mid.inserted_entries(gkey, stored, now);
                    let idx: int = if mid.has_key(k) {
                        mid.key_index(k)
                    } else {
                        mid.entries().len() as int
                    };
                    assert(ins[idx] == newe);
                    let fin = cache.entries();
                    if ins.len() > mid.spec_config().max_size {
                        if mid.spec_config().ttl >= 1 {
                            let pred = |e: CacheEntry<DesktopInfo>| entry_fresh(
                                e,
                                now,
                                mid.spec_config().ttl,
                            );
                            assert(pred(newe));
                            ins.lemma_filter_contains(pred, idx);
                            let j = choose|j: int|
                                0 <= j < ins.filter(pred).len() && ins.filter(pred)[j] == newe;
                            assert(fin[j] == newe);
                            assert(cache.has_key(k));
                        }
                    } else {
                        assert(fin[idx] == newe);
                        assert(cache.has_key(k));
                    }
                }
                (pp, an)
            },
            None => (None, None),
        },
    }
}

impl LinuxDesktopInfo {
    /// Wrap an already-loaded desktop-entry list.
    pub fn from_entries(entries: Vec<freedesktop_desktop_entry::DesktopEntry>) -> (r: Self) {
        LinuxDesktopInfo { entries }
    }

    /// Resolve enrichment metadata for `app_id`: search the entries, parse
    /// the matching entry's Exec key, and take its localized name. Non-ASCII
    /// ids and ids without a matching, parseable entry yield nothing — that
    /// is not an error.
    pub fn get_extra_info(&self, app_id: &str) -> (r: Option<DesktopInfo>)
        ensures
            !app_id.is_ascii() ==> r is None,
    {
        if !app_id.is_ascii() {
            return None;
        }
        let entry = match find_entry(&self.entries, app_id) {
            Some(e) => e,
            None => {
                return None;
            },
        };
        let exec_args = match entry_exec_args(entry) {
            Some(a) => a,
            None => {
                return None;
            },
        };
        let name = entry_name(entry);
        Some(desktop_info_from_entry_parts(name, exec_args))
    }
}

} // verus!
