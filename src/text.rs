//! Plain text helpers: comparison, decimal rendering, escape stripping and
//! truncation, each stated over the character sequence of its strings.

use vstd::prelude::*;
use vstd::string::StrSliceExecFns;
use vstd::string::StringExecFns;

verus! {

/// Relies on `String::push`: appends one character at the end.
#[verifier::external_body]
pub(crate) fn push_char(s: &mut String, c: char)
    ensures
        final(s)@ == old(s)@.push(c),
{
    s.push(c)
}

/// Whether `a` and `b` hold the same characters.
pub fn str_eq(a: &str, b: &str) -> (r: bool)
    ensures
        r == (a@ == b@),
{
    let n = a.unicode_len();
    if n != b.unicode_len() {
        return false;
    }
    let mut i: usize = 0;
    while i < n
        invariant
            n == a@.len(),
            n == b@.len(),
            0 <= i <= n,
            forall|j: int| 0 <= j < i ==> a@[j] == b@[j],
        decreases n - i,
    {
        if a.get_char(i) != b.get_char(i) {
            return false;
        }
        i = i + 1;
    }
    assert(a@ =~= b@);
    true
}

/// Whether `p` is a prefix of `s`.
pub open spec fn is_prefix(p: Seq<char>, s: Seq<char>) -> bool {
    p.len() <= s.len() && s.take(p.len() as int) == p
}

/// Whether `s` starts with `p`.
pub fn starts_with(s: &str, p: &str) -> (r: bool)
    ensures
        r == is_prefix(p@, s@),
{
    let n = p.unicode_len();
    if n > s.unicode_len() {
        return false;
    }
    let mut i: usize = 0;
    while i < n
        invariant
            n == p@.len(),
            n <= s@.len(),
            0 <= i <= n,
            forall|j: int| 0 <= j < i ==> s@[j] == p@[j],
        decreases n - i,
    {
        if s.get_char(i) != p.get_char(i) {
            assert(s@.take(n as int)[i as int] != p@[i as int]);
            return false;
        }
        i = i + 1;
    }
    assert(s@.take(n as int) =~= p@);
    true
}

/// Whether `p` occurs in `s` as a contiguous run starting at `k`.
pub open spec fn occurs_at(p: Seq<char>, s: Seq<char>, k: int) -> bool {
    0 <= k && k + p.len() <= s.len() && s.subrange(k, k + p.len()) == p
}

/// Whether `p` occurs in `s` as a contiguous run.
pub open spec fn contains_seq(s: Seq<char>, p: Seq<char>) -> bool {
    exists|k: int| occurs_at(p, s, k)
}

/// Whether `p` occurs at position `k` of `s`.
fn occurs_at_exec(s: &str, p: &str, k: usize) -> (r: bool)
    requires
        k + p@.len() <= s@.len(),
    ensures
        r == occurs_at(p@, s@, k as int),
{
    let n = p.unicode_len();
    let sn = s.unicode_len();
    let mut i: usize = 0;
    while i < n
        invariant
            n == p@.len(),
            sn == s@.len(),
            k + n <= s@.len(),
            0 <= i <= n,
            forall|j: int| 0 <= j < i ==> s@[k + j] == p@[j],
        decreases n - i,
    {
        if s.get_char(k + i) != p.get_char(i) {
            assert(s@.subrange(k as int, k + n)[i as int] != p@[i as int]);
            return false;
        }
        i = i + 1;
    }
    assert(s@.subrange(k as int, k + n) =~= p@);
    true
}

/// Whether `p` occurs anywhere in `s`; the empty pattern occurs everywhere.
pub fn contains(s: &str, p: &str) -> (r: bool)
    ensures
        r == contains_seq(s@, p@),
{
    let n = s.unicode_len();
    let m = p.unicode_len();
    if m > n {
        assert forall|k: int| !occurs_at(p@, s@, k) by {}
        return false;
    }
    let mut k: usize = 0;
    loop
        invariant
            n == s@.len(),
            m == p@.len(),
            m <= n,
            0 <= k <= n - m,
            forall|j: int| 0 <= j < k ==> !occurs_at(p@, s@, j),
        decreases n - m - k,
    {
        if occurs_at_exec(s, p, k) {
            return true;
        }
        if k == n - m {
            assert forall|j: int| !occurs_at(p@, s@, j) by {
                if 0 <= j <= k {
                }
            }
            return false;
        }
        k = k + 1;
    }
}

/// The character of a decimal digit.
pub open spec fn digit_char(d: nat) -> char {
    ((48 + d) as u8) as char
}

/// Decimal notation of `n`, without sign or leading zeros.
pub open spec fn decimal(n: nat) -> Seq<char>
    decreases n,
{
    if n < 10 {
        seq![digit_char(n)]
    } else {
        decimal(n / 10).push(digit_char(n % 10))
    }
}

/// Appends the decimal notation of `n` to `s`.
pub fn push_decimal(s: &mut String, n: u64)
    ensures
        final(s)@ == old(s)@ + decimal(n as nat),
    decreases n,
{
    if n >= 10 {
        push_decimal(s, n / 10);
    }
    let d: u8 = (n % 10) as u8;
    push_char(s, (48u8 + d) as char);
    assert(s@ =~= old(s)@ + decimal(n as nat));
}

/// Decimal notation of `n`.
pub fn decimal_string(n: u64) -> (r: String)
    ensures
        r@ == decimal(n as nat),
{
    let mut s = String::new();
    push_decimal(&mut s, n);
    assert(s@ =~= decimal(n as nat));
    s
}

/// What `str::to_lowercase` makes of a character sequence.
pub uninterp spec fn lower_of(s: Seq<char>) -> Seq<char>;

/// Relies on `str::to_lowercase`: the lower-case mapping of every character,
/// which depends on the characters alone; nothing in, nothing out.
#[verifier::external_body]
pub(crate) fn to_lower(s: &str) -> (r: String)
    ensures
        r@ == lower_of(s@),
        s@.len() == 0 ==> r@.len() == 0,
{
    s.to_lowercase()
}

/// Whether `char::is_alphabetic` holds of a character.
pub uninterp spec fn alphabetic(c: char) -> bool;

/// Relies on `char::is_alphabetic`: the Unicode `Alphabetic` property.
#[verifier::external_body]
pub(crate) fn is_alphabetic(c: char) -> (r: bool)
    ensures
        r == alphabetic(c),
{
    c.is_alphabetic()
}

/// The escape character that opens a terminal control sequence.
pub const ESC: char = '\x1b';

/// What remains of `s` once terminal control sequences and carriage returns
/// are removed, `inside` telling whether a control sequence is open: a
/// sequence runs from an escape character through the next alphabetic one.
pub open spec fn strip_from(s: Seq<char>, inside: bool) -> Seq<char>
    decreases s.len(),
{
    if s.len() == 0 {
        Seq::empty()
    } else {
        let c = s[0];
        let rest = s.drop_first();
        if c == ESC {
            strip_from(rest, true)
        } else if inside {
            strip_from(rest, !alphabetic(c))
        } else if c == '\r' {
            strip_from(rest, false)
        } else {
            seq![c] + strip_from(rest, false)
        }
    }
}

/// `s` without terminal control sequences and carriage returns.
pub open spec fn stripped(s: Seq<char>) -> Seq<char> {
    strip_from(s, false)
}

/// Removes terminal control sequences and carriage returns from a log line.
pub fn strip_ansi(s: &str) -> (r: String)
    ensures
        r@ == stripped(s@),
{
    let n = s.unicode_len();
    let mut out = String::new();
    let mut inside_escape = false;
    let mut i: usize = 0;
    assert(s@.skip(0) =~= s@);
    assert(out@ + stripped(s@) =~= stripped(s@));
    while i < n
        invariant
            n == s@.len(),
            0 <= i <= n,
            out@ + strip_from(s@.skip(i as int), inside_escape) == stripped(s@),
        decreases n - i,
    {
        let c = s.get_char(i);
        let ghost tail = s@.skip(i as int);
        assert(tail[0] == c);
        assert(tail.drop_first() =~= s@.skip(i + 1));
        if c == ESC {
            inside_escape = true;
        } else if inside_escape {
            if is_alphabetic(c) {
                inside_escape = false;
            }
        } else if c == '\r' {
        } else {
            let ghost before = out@;
            push_char(&mut out, c);
            assert(out@ + strip_from(s@.skip(i + 1), false) =~= before + strip_from(tail, false));
        }
        i = i + 1;
    }
    assert(s@.skip(n as int) =~= Seq::<char>::empty());
    assert(out@ =~= stripped(s@));
    out
}

/// `s` cut to at most `max` characters: a longer one keeps its first
/// `max - 3` (none if `max < 3`) followed by three dots.
pub open spec fn truncated(s: Seq<char>, max: nat) -> Seq<char> {
    if s.len() > max {
        s.take(if max >= 3 { max - 3 } else { 0 }) + seq!['.', '.', '.']
    } else {
        s
    }
}

/// Cuts `s` to fit in `max_chars` characters, marking a cut with "...".
pub fn truncate(s: &str, max_chars: usize) -> (r: String)
    ensures
        r@ == truncated(s@, max_chars as nat),
{
    if s.unicode_len() > max_chars {
        let len = max_chars.saturating_sub(3);
        let mut out = String::from_str(s.substring_char(0, len));
        out.append("...");
        proof {
            reveal_strlit("...");
        }
        assert(out@ =~= truncated(s@, max_chars as nat));
        out
    } else {
        String::from_str(s)
    }
}

/// Relies on `String::pop`: removes and returns the last character, if any.
#[verifier::external_body]
pub(crate) fn pop_char(s: &mut String) -> (r: Option<char>)
    ensures
        old(s)@.len() == 0 ==> r is None && final(s)@ == old(s)@,
        old(s)@.len() > 0 ==> r == Some(old(s)@.last()) && final(s)@ == old(s)@.drop_last(),
{
    s.pop()
}

} // verus!
