//! Small shared helpers: verified string utilities, the decimal renderer,
//! the environment-probe decisions, and the default cache tuning.
//!
//! The probes decide from environment-variable *values*; reading the
//! environment itself happens outside the library. Absence of a variable is
//! treated as "false"/"unknown", never as an error.

use vstd::prelude::*;
use crate::simple_cache::CacheConfig;

verus! {

/// `needle` occurs in `hay` starting at position `i`.
pub open spec fn is_substring_at(hay: Seq<char>, needle: Seq<char>, i: int) -> bool {
    0 <= i && i + needle.len() <= hay.len() && hay.subrange(i, i + needle.len()) == needle
}

/// `needle` occurs somewhere in `hay`.
pub open spec fn is_substring(hay: Seq<char>, needle: Seq<char>) -> bool {
    exists|i: int| is_substring_at(hay, needle, i)
}

/// Substring search by characters.
pub fn str_contains(hay: &str, needle: &str) -> (r: bool)
    ensures
        r == is_substring(hay@, needle@),
{
    let hn = hay.unicode_len();
    let nn = needle.unicode_len();
    if nn > hn {
        return false;
    }
    if nn == 0 {
        proof {
            assert(hay@.subrange(0, 0) =~= needle@);
            assert(is_substring_at(hay@, needle@, 0));
        }
        return true;
    }
    let mut i: usize = 0;
    while i <= hn - nn
        invariant
            hn == hay@.len(),
            nn == needle@.len(),
            1 <= nn <= hn,
            i <= hn - nn + 1,
            forall|k: int| 0 <= k < i ==> !is_substring_at(hay@, needle@, k),
        decreases hn - nn + 1 - i,
    {
        let mut j: usize = 0;
        let mut matches_here = true;
        while j < nn && matches_here
            invariant
                hn == hay@.len(),
                nn == needle@.len(),
                nn <= hn,
                i <= hn - nn,
                j <= nn,
                matches_here ==> forall|m: int| 0 <= m < j ==> hay@[i + m] == needle@[m],
                !matches_here ==> !is_substring_at(hay@, needle@, i as int),
            decreases nn - j,
        {
            if hay.get_char(i + j) != needle.get_char(j) {
                proof {
                    let w = i as int;
                    if is_substring_at(hay@, needle@, w) {
                        assert(hay@.subrange(w, w + nn)[j as int] == needle@[j as int]);
                    }
                }
                matches_here = false;
                j = nn;
            } else {
                j += 1;
            }
        }
        if matches_here {
            proof {
                let w = i as int;
                assert(hay@.subrange(w, w + nn) =~= needle@);
                assert(is_substring_at(hay@, needle@, w));
            }
            return true;
        }
        i += 1;
    }
    proof {
        assert forall|k: int| !is_substring_at(hay@, needle@, k) by {
            if is_substring_at(hay@, needle@, k) {
                assert(0 <= k <= hn - nn);
            }
        }
    }
    false
}

/// Whether a string holds the given character.
pub fn str_contains_char(s: &str, c: char) -> (r: bool)
    ensures
        r == s@.contains(c),
{
    let n = s.unicode_len();
    let mut i: usize = 0;
    while i < n
        invariant
            n == s@.len(),
            i <= n,
            forall|m: int| 0 <= m < i ==> s@[m] != c,
        decreases n - i,
    {
        if s.get_char(i) == c {
            return true;
        }
        i += 1;
    }
    false
}

/// Character-wise string equality.
pub fn str_eq(a: &str, b: &str) -> (r: bool)
    ensures
        r == (a@ == b@),
{
    let an = a.unicode_len();
    let bn = b.unicode_len();
    if an != bn {
        return false;
    }
    let mut i: usize = 0;
    while i < an
        invariant
            an == a@.len(),
            an == b@.len(),
            i <= an,
            forall|m: int| 0 <= m < i ==> a@[m] == b@[m],
        decreases an - i,
    {
        if a.get_char(i) != b.get_char(i) {
            return false;
        }
        i += 1;
    }
    proof {
        assert(a@ =~= b@);
    }
    true
}

/// The lowercase folding performed by the standard library; it depends on
/// the input characters alone.
pub uninterp spec fn lower_of(s: Seq<char>) -> Seq<char>;

/// Relies on str::to_lowercase: the result is the input folded to lower
/// case, a function of the characters alone; an empty string stays empty.
#[verifier::external_body]
fn to_lowercase(s: &str) -> (r: String)
    ensures
        r@ == lower_of(s@),
        s@.len() == 0 ==> r@.len() == 0,
{
    s.to_lowercase()
}

/// The desktop identifier names GNOME. The override variable wins when it
/// is present; otherwise the standard variable; absence of both is "no".
pub fn is_gnome(original_desktop: Option<&str>, current_desktop: Option<&str>) -> (r: bool)
    ensures
        r == match original_desktop {
            Some(d) => is_substring(lower_of(d@), "gnome"@),
            None => match current_desktop {
                Some(d) => is_substring(lower_of(d@), "gnome"@),
                None => false,
            },
        },
{
    match original_desktop {
        Some(d) => {
            let lowered = to_lowercase(d);
            str_contains(lowered.as_str(), "gnome")
        },
        None => match current_desktop {
            Some(d) => {
                let lowered = to_lowercase(d);
                str_contains(lowered.as_str(), "gnome")
            },
            None => false,
        },
    }
}

/// The session is a Wayland one: a Wayland display is advertised and the
/// session type names wayland (an absent session type counts as empty).
pub fn is_wayland(wayland_display: Option<&str>, session_type: Option<&str>) -> (r: bool)
    ensures
        r == (wayland_display is Some && match session_type {
            Some(s) => is_substring(lower_of(s@), "wayland"@),
            None => false,
        }),
{
    if wayland_display.is_none() {
        return false;
    }
    match session_type {
        Some(s) => {
            let lowered = to_lowercase(s);
            str_contains(lowered.as_str(), "wayland")
        },
        None => false,
    }
}

/// The session is an X11 one: no Wayland display, and the session type is
/// exactly "x11".
pub fn is_x11(wayland_display: Option<&str>, session_type: Option<&str>) -> (r: bool)
    ensures
        r == (wayland_display is None && match session_type {
            Some(s) => s@ == "x11"@,
            None => false,
        }),
{
    if wayland_display.is_some() {
        return false;
    }
    match session_type {
        Some(s) => str_eq(s, "x11"),
        None => false,
    }
}

/// The digit character for a value below ten.
pub open spec fn dec_digit(d: int) -> char {
    if d == 0 {
        '0'
    } else if d == 1 {
        '1'
    } else if d == 2 {
        '2'
    } else if d == 3 {
        '3'
    } else if d == 4 {
        '4'
    } else if d == 5 {
        '5'
    } else if d == 6 {
        '6'
    } else if d == 7 {
        '7'
    } else if d == 8 {
        '8'
    } else {
        '9'
    }
}

/// The decimal rendering of a non-negative number, most significant digit
/// first, without leading zeros (except for zero itself).
pub open spec fn dec_rep(n: int) -> Seq<char>
    decreases n,
{
    if n < 10 {
        seq![dec_digit(n)]
    } else {
        dec_rep(n / 10).push(dec_digit(n % 10))
    }
}

fn digit_string(d: u64) -> (s: String)
    requires
        d < 10,
    ensures
        s@ =~= seq![dec_digit(d as int)],
{
    if d == 0 {
        proof {
            reveal_strlit("0");
        }
        String::from_str("0")
    } else if d == 1 {
        proof {
            reveal_strlit("1");
        }
        String::from_str("1")
    } else if d == 2 {
        proof {
            reveal_strlit("2");
        }
        String::from_str("2")
    } else if d == 3 {
        proof {
            reveal_strlit("3");
        }
        String::from_str("3")
    } else if d == 4 {
        proof {
            reveal_strlit("4");
        }
        String::from_str("4")
    } else if d == 5 {
        proof {
            reveal_strlit("5");
        }
        String::from_str("5")
    } else if d == 6 {
        proof {
            reveal_strlit("6");
        }
        String::from_str("6")
    } else if d == 7 {
        proof {
            reveal_strlit("7");
        }
        String::from_str("7")
    } else if d == 8 {
        proof {
            reveal_strlit("8");
        }
        String::from_str("8")
    } else {
        proof {
            reveal_strlit("9");
        }
        String::from_str("9")
    }
}

/// Render a number in decimal.
pub fn u64_to_string(n: u64) -> (s: String)
    ensures
        s@ == dec_rep(n as int),
    decreases n,
{
    if n < 10 {
        let s = digit_string(n);
        proof {
            assert(s@ =~= dec_rep(n as int));
        }
        s
    } else {
        let mut s = u64_to_string(n / 10);
        let last = digit_string(n % 10);
        s.append(last.as_str());
        proof {
            assert(s@ =~= dec_rep((n / 10) as int).push(dec_digit((n % 10) as int)));
        }
        s
    }
}

/// The character is a decimal digit.
pub open spec fn is_digit(c: char) -> bool {
    '0' <= c <= '9'
}

/// Every character of the sequence is a decimal digit.
pub open spec fn all_digits(s: Seq<char>) -> bool {
    forall|i: int| 0 <= i < s.len() ==> is_digit(#[trigger] s[i])
}

/// The number a digit sequence denotes, most significant digit first.
pub open spec fn digits_value(s: Seq<char>) -> int
    decreases s.len(),
{
    if s.len() == 0 {
        0
    } else {
        10 * digits_value(s.drop_last()) + (s.last() as int - '0' as int)
    }
}

/// A digit sequence's value is non-negative, and no prefix denotes more
/// than the whole.
pub proof fn lemma_digits_value_bounds(s: Seq<char>)
    requires
        all_digits(s),
    ensures
        digits_value(s) >= 0,
        s.len() > 0 ==> digits_value(s.drop_last()) <= digits_value(s),
    decreases s.len(),
{
    if s.len() > 0 {
        assert(all_digits(s.drop_last()));
        lemma_digits_value_bounds(s.drop_last());
        assert(s.last() as int - '0' as int >= 0);
    }
}

/// Longer digit prefixes denote at least as much.
pub proof fn lemma_digits_value_prefix_monotone(s: Seq<char>, a: int, b: int)
    requires
        all_digits(s),
        0 <= a <= b <= s.len(),
    ensures
        digits_value(s.subrange(0, a)) <= digits_value(s.subrange(0, b)),
    decreases b - a,
{
    if a < b {
        lemma_digits_value_prefix_monotone(s, a, b - 1);
        assert(s.subrange(0, b).drop_last() =~= s.subrange(0, b - 1));
        assert(all_digits(s.subrange(0, b - 1)));
        lemma_digits_value_bounds(s.subrange(0, b - 1));
        assert(s.subrange(0, b).last() == s[b - 1]);
        assert(is_digit(s[b - 1]));
    }
}

/// What parsing a small non-negative decimal number yields: the digits'
/// value when the text is a non-empty run of digits denoting at most 127,
/// and nothing otherwise.
pub open spec fn parse_i8_decimal_spec(s: Seq<char>) -> Option<int> {
    if s.len() > 0 && all_digits(s) && digits_value(s) <= 127 {
        Some(digits_value(s))
    } else {
        None
    }
}

/// Parse a small non-negative decimal number, as
/// [`parse_i8_decimal_spec`] states it.
pub fn parse_i8_decimal(s: &str) -> (r: Option<i8>)
    ensures
        match r {
            Some(v) => parse_i8_decimal_spec(s@) == Some(v as int),
            None => parse_i8_decimal_spec(s@) is None,
        },
{
    let n = s.unicode_len();
    if n == 0 {
        return None;
    }
    let mut acc: i32 = 0;
    let mut i: usize = 0;
    while i < n
        invariant
            n == s@.len(),
            i <= n,
            all_digits(s@.subrange(0, i as int)),
            0 <= acc <= 127,
            acc == digits_value(s@.subrange(0, i as int)),
        decreases n - i,
    {
        let ghost pre = s@.subrange(0, i as int);
        let ghost post = s@.subrange(0, i + 1);
        proof {
            assert(post.drop_last() =~= pre);
        }
        let c = s.get_char(i);
        if c < '0' || c > '9' {
            return None;
        }
        let d: i32 = (c as u32 as i32) - ('0' as u32 as i32);
        proof {
            assert(post.last() == s@[i as int]);
            assert(all_digits(post));
        }
        let next: i32 = acc * 10 + d;
        if next > 127 {
            proof {
                if all_digits(s@) {
                    lemma_digits_value_prefix_monotone(s@, i + 1, s@.len() as int);
                    assert(s@.subrange(0, s@.len() as int) =~= s@);
                }
            }
            return None;
        }
        acc = next;
        i += 1;
    }
    proof {
        assert(s@.subrange(0, n as int) =~= s@);
    }
    Some(acc as i8)
}

/// The cache tuning the polling backends fall back to.
pub fn default_cache_config() -> (r: CacheConfig)
    ensures
        r.ttl == 60000,
        r.max_size == 1000,
{
    CacheConfig { ttl: 60000, max_size: 1000 }
}

} // verus!
