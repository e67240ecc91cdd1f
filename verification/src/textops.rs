//! Verified text helpers: whitespace classification and trimming, secret
//! masking, decimal rendering, and prefix tests.
//!
//! These back the user-visible strings of the library — durations, masked
//! keys, and the error messages whose exact shape the contracts pin down.

use vstd::prelude::*;
use vstd::string::StringExecFns;

verus! {

/// The Unicode `White_Space` code points, the set `char::is_whitespace`
/// recognizes.
pub open spec fn is_space_char(c: char) -> bool {
    ||| c == ' '
    ||| c == '\t'
    ||| c == '\n'
    ||| c == '\u{b}'
    ||| c == '\u{c}'
    ||| c == '\r'
    ||| c == '\u{85}'
    ||| c == '\u{a0}'
    ||| c == '\u{1680}'
    ||| ('\u{2000}' <= c && c <= '\u{200a}')
    ||| c == '\u{2028}'
    ||| c == '\u{2029}'
    ||| c == '\u{202f}'
    ||| c == '\u{205f}'
    ||| c == '\u{3000}'
}

/// Runtime counterpart of [`is_space_char`].
pub fn is_space(c: char) -> (r: bool)
    ensures
        r == is_space_char(c),
{
    c == ' ' || c == '\t' || c == '\n' || c == '\u{b}' || c == '\u{c}' || c == '\r'
        || c == '\u{85}' || c == '\u{a0}' || c == '\u{1680}'
        || ('\u{2000}' <= c && c <= '\u{200a}') || c == '\u{2028}' || c == '\u{2029}'
        || c == '\u{202f}' || c == '\u{205f}' || c == '\u{3000}'
}

/// A sequence is blank when every character is whitespace.
pub open spec fn is_blank(s: Seq<char>) -> bool {
    forall|i: int| 0 <= i < s.len() ==> is_space_char(s[i])
}

/// True iff the string consists of whitespace only (so its trim is empty).
pub fn str_is_blank(s: &str) -> (r: bool)
    ensures
        r == is_blank(s@),
{
    let n: usize = s.unicode_len();
    let mut i: usize = 0;
    while i < n
        invariant
            i <= n,
            n == s@.len(),
            forall|j: int| 0 <= j < i ==> is_space_char(s@[j]),
        decreases n - i,
    {
        if !is_space(s.get_char(i)) {
            return false;
        }
        i += 1;
    }
    true
}

/// Index of the first non-whitespace character, or the length if none.
pub open spec fn first_mark(s: Seq<char>) -> int
    decreases s.len(),
{
    if s.len() == 0 {
        0
    } else if !is_space_char(s[0]) {
        0
    } else {
        1 + first_mark(s.drop_first())
    }
}

/// One past the index of the last non-whitespace character, or 0 if none.
pub open spec fn last_mark(s: Seq<char>) -> int
    decreases s.len(),
{
    if s.len() == 0 {
        0
    } else if !is_space_char(s.last()) {
        s.len() as int
    } else {
        last_mark(s.drop_last())
    }
}

/// What trimming leading and trailing whitespace leaves.
pub open spec fn trimmed(s: Seq<char>) -> Seq<char> {
    if is_blank(s) {
        Seq::empty()
    } else {
        s.subrange(first_mark(s), last_mark(s))
    }
}

pub proof fn lemma_first_mark(s: Seq<char>)
    ensures
        0 <= first_mark(s) <= s.len(),
        forall|j: int| 0 <= j < first_mark(s) ==> is_space_char(s[j]),
        first_mark(s) < s.len() ==> !is_space_char(s[first_mark(s)]),
    decreases s.len(),
{
    if s.len() != 0 && is_space_char(s[0]) {
        lemma_first_mark(s.drop_first());
        assert forall|j: int| 0 <= j < first_mark(s) implies is_space_char(s[j]) by {
            if j > 0 {
                assert(s.drop_first()[j - 1] == s[j]);
            }
        }
        if first_mark(s) < s.len() {
            assert(s.drop_first()[first_mark(s) - 1] == s[first_mark(s)]);
        }
    }
}

pub proof fn lemma_last_mark(s: Seq<char>)
    ensures
        0 <= last_mark(s) <= s.len(),
        forall|j: int| last_mark(s) <= j < s.len() ==> is_space_char(s[j]),
        last_mark(s) > 0 ==> !is_space_char(s[last_mark(s) - 1]),
    decreases s.len(),
{
    if s.len() != 0 && is_space_char(s.last()) {
        lemma_last_mark(s.drop_last());
        assert forall|j: int| last_mark(s) <= j < s.len() implies is_space_char(s[j]) by {
            if j < s.len() - 1 {
                assert(s.drop_last()[j] == s[j]);
            }
        }
        if last_mark(s) > 0 {
            assert(s.drop_last()[last_mark(s) - 1] == s[last_mark(s) - 1]);
        }
    }
}

/// Remove leading and trailing whitespace, exactly as `str::trim` does.
pub fn trim_str(s: &str) -> (r: String)
    ensures
        r@ == trimmed(s@),
{
    let n: usize = s.unicode_len();
    let mut start: usize = 0;
    while start < n && is_space(s.get_char(start))
        invariant
            start <= n,
            n == s@.len(),
            forall|j: int| 0 <= j < start ==> is_space_char(s@[j]),
        decreases n - start,
    {
        start += 1;
    }
    if start == n {
        proof {
            assert(is_blank(s@));
        }
        return String::new();
    }
    let mut end: usize = n;
    while end > start && is_space(s.get_char(end - 1))
        invariant
            start <= end <= n,
            n == s@.len(),
            forall|j: int| end <= j < n ==> is_space_char(s@[j]),
        decreases end,
    {
        end -= 1;
    }
    proof {
        assert(!is_space_char(s@[start as int]));
        assert(!is_blank(s@));
        lemma_first_mark(s@);
        lemma_last_mark(s@);
        // `start` is the least index of a non-space character, so it is
        // `first_mark`; symmetrically for `end` and `last_mark`.
        if first_mark(s@) < start {
            assert(is_space_char(s@[first_mark(s@)]));
        }
        if start < first_mark(s@) {
            assert(is_space_char(s@[start as int]));
        }
        assert(start == first_mark(s@));
        assert(end > start);
        assert(!is_space_char(s@[end - 1]));
        if last_mark(s@) < end {
            assert(is_space_char(s@[end - 1]));
        }
        if end < last_mark(s@) {
            assert(is_space_char(s@[last_mark(s@) - 1]));
        }
        assert(end == last_mark(s@));
    }
    let piece = s.substring_char(start, end);
    piece.to_owned()
}

/// What masking a secret yields: `***` for short secrets, otherwise the
/// first and last four characters around an ellipsis.
pub open spec fn masked(s: Seq<char>) -> Seq<char> {
    if s.len() <= 8 {
        "***"@
    } else {
        s.subrange(0, 4) + "..."@ + s.subrange(s.len() - 4, s.len() as int)
    }
}

/// Mask a secret, showing only its first and last four characters.
pub fn mask_secret(secret: &str) -> (r: String)
    ensures
        r@ == masked(secret@),
{
    let n: usize = secret.unicode_len();
    if n <= 8 {
        return String::from_str("***");
    }
    let mut r = secret.substring_char(0, 4).to_owned();
    r.append("...");
    r.append(secret.substring_char(n - 4, n));
    r
}

/// The character for one decimal digit.
pub open spec fn digit_char(d: int) -> char {
    if d == 0 { '0' }
    else if d == 1 { '1' }
    else if d == 2 { '2' }
    else if d == 3 { '3' }
    else if d == 4 { '4' }
    else if d == 5 { '5' }
    else if d == 6 { '6' }
    else if d == 7 { '7' }
    else if d == 8 { '8' }
    else { '9' }
}

/// The usual decimal rendering of a nonnegative integer, no leading zeros.
pub open spec fn dec_digits(n: int) -> Seq<char>
    decreases n,
{
    if n < 10 {
        seq![digit_char(n)]
    } else {
        dec_digits(n / 10) + seq![digit_char(n % 10)]
    }
}

fn digit_str(d: u64) -> (r: &'static str)
    requires
        d < 10,
    ensures
        r@ =~= seq![digit_char(d as int)],
{
    proof {
        reveal_strlit("0");
        reveal_strlit("1");
        reveal_strlit("2");
        reveal_strlit("3");
        reveal_strlit("4");
        reveal_strlit("5");
        reveal_strlit("6");
        reveal_strlit("7");
        reveal_strlit("8");
        reveal_strlit("9");
    }
    if d == 0 { "0" }
    else if d == 1 { "1" }
    else if d == 2 { "2" }
    else if d == 3 { "3" }
    else if d == 4 { "4" }
    else if d == 5 { "5" }
    else if d == 6 { "6" }
    else if d == 7 { "7" }
    else if d == 8 { "8" }
    else { "9" }
}

/// Render a number in decimal.
pub fn u64_to_string(n: u64) -> (r: String)
    ensures
        r@ == dec_digits(n as int),
    decreases n,
{
    if n < 10 {
        digit_str(n).to_owned()
    } else {
        let mut r = u64_to_string(n / 10);
        r.append(digit_str(n % 10));
        r
    }
}

/// A duration in milliseconds rendered as seconds with two decimals, e.g.
/// `1.50s`; the centisecond digit rounds half away from zero.
pub open spec fn duration_text(millis: int) -> Seq<char> {
    let centis = millis / 10 + if millis % 10 >= 5 { 1int } else { 0int };
    dec_digits(centis / 100) + "."@ + seq![digit_char((centis / 10) % 10), digit_char(centis % 10)]
        + "s"@
}

/// Format a duration, given in milliseconds, as a human-readable string.
pub fn format_duration(millis: u64) -> (r: String)
    ensures
        r@ == duration_text(millis as int),
{
    let centis: u64 = millis / 10 + if millis % 10 >= 5 { 1 } else { 0 };
    let mut r = u64_to_string(centis / 100);
    r.append(".");
    r.append(digit_str((centis / 10) % 10));
    r.append(digit_str(centis % 10));
    r.append("s");
    proof {
        reveal_strlit(".");
        reveal_strlit("s");
    }
    r
}

/// True iff `prefix` is a prefix of `s`.
pub open spec fn has_prefix(s: Seq<char>, prefix: Seq<char>) -> bool {
    s.len() >= prefix.len() && s.subrange(0, prefix.len() as int) == prefix
}

/// Character-wise prefix test.
pub fn str_starts_with(s: &str, prefix: &str) -> (r: bool)
    ensures
        r == has_prefix(s@, prefix@),
{
    let n: usize = s.unicode_len();
    let p: usize = prefix.unicode_len();
    if n < p {
        return false;
    }
    let mut i: usize = 0;
    while i < p
        invariant
            i <= p <= n,
            n == s@.len(),
            p == prefix@.len(),
            forall|j: int| 0 <= j < i ==> s@[j] == prefix@[j],
        decreases p - i,
    {
        if s.get_char(i) != prefix.get_char(i) {
            proof {
                assert(s@.subrange(0, p as int)[i as int] != prefix@[i as int]);
            }
            return false;
        }
        i += 1;
    }
    proof {
        assert(s@.subrange(0, p as int) =~= prefix@);
    }
    true
}

/// Character-wise equality of two strings.
pub fn str_equal(s: &str, t: &str) -> (r: bool)
    ensures
        r == (s@ == t@),
{
    let n: usize = s.unicode_len();
    let m: usize = t.unicode_len();
    if n != m {
        return false;
    }
    let mut i: usize = 0;
    while i < n
        invariant
            i <= n,
            n == s@.len(),
            n == t@.len(),
            forall|j: int| 0 <= j < i ==> s@[j] == t@[j],
        decreases n - i,
    {
        if s.get_char(i) != t.get_char(i) {
            return false;
        }
        i += 1;
    }
    proof {
        assert(s@ =~= t@);
    }
    true
}

} // verus!
