//! Greedy word wrapping of text into lines of bounded width.

use vstd::prelude::*;
use vstd::string::StrSliceExecFns;
use vstd::string::StringExecFns;
use crate::text::push_char;

verus! {

/// Whether a character has the Unicode `White_Space` property: the
/// controls from tab to carriage return, space, next line, no-break space,
/// ogham space mark, the spaces from en quad to hair space, line and
/// paragraph separators, narrow no-break space, medium mathematical space
/// and ideographic space.
pub open spec fn whitespace(c: char) -> bool {
    ('\u{9}' <= c && c <= '\u{d}') || c == ' ' || c == '\u{85}' || c == '\u{a0}' || c == '\u{1680}'
        || ('\u{2000}' <= c && c <= '\u{200a}') || c == '\u{2028}' || c == '\u{2029}'
        || c == '\u{202f}' || c == '\u{205f}' || c == '\u{3000}'
}

/// Relies on `char::is_whitespace`: the Unicode `White_Space` property.
#[verifier::external_body]
fn is_whitespace(c: char) -> (r: bool)
    ensures
        r == whitespace(c),
{
    c.is_whitespace()
}

/// The words of `s` read so far, and the word being read.
pub open spec fn split_state(s: Seq<char>) -> (Seq<Seq<char>>, Seq<char>)
    decreases s.len(),
{
    if s.len() == 0 {
        (Seq::empty(), Seq::empty())
    } else {
        let (ws, cur) = split_state(s.drop_last());
        if whitespace(s.last()) {
            if cur.len() > 0 {
                (ws.push(cur), Seq::empty())
            } else {
                (ws, Seq::empty())
            }
        } else {
            (ws, cur.push(s.last()))
        }
    }
}

/// The maximal runs of non-whitespace characters of `s`, in order.
pub open spec fn words(s: Seq<char>) -> Seq<Seq<char>> {
    let (ws, cur) = split_state(s);
    if cur.len() > 0 {
        ws.push(cur)
    } else {
        ws
    }
}

/// Cuts a word longer than `max` into full lines of `max` characters; the
/// rest, at most `max` long, starts the next line.
pub open spec fn cut(lines: Seq<Seq<char>>, w: Seq<char>, max: nat) -> (Seq<Seq<char>>, Seq<char>)
    recommends
        max > 0,
    decreases w.len(),
    when max > 0
{
    if w.len() > max {
        cut(lines.push(w.take(max as int)), w.skip(max as int), max)
    } else {
        (lines, w)
    }
}

/// Places word `w` after the finished lines and the open line of `st`: on
/// the open line, one space after what it holds, where it fits in `max`;
/// otherwise the open line is closed and the word opens the next one, cut
/// into pieces if it is longer than a line.
pub open spec fn place(st: (Seq<Seq<char>>, Seq<char>), w: Seq<char>, max: nat) -> (Seq<Seq<char>>, Seq<char>) {
    let (lines, cur) = st;
    if cur.len() + w.len() + 1 > max {
        let closed = if cur.len() > 0 {
            lines.push(cur)
        } else {
            lines
        };
        if w.len() > max {
            cut(closed, w, max)
        } else {
            (closed, w)
        }
    } else {
        (lines, if cur.len() > 0 {
            cur + seq![' '] + w
        } else {
            w
        })
    }
}

/// The lines after placing each of `ws` in turn.
pub open spec fn place_all(ws: Seq<Seq<char>>, max: nat) -> (Seq<Seq<char>>, Seq<char>)
    decreases ws.len(),
{
    if ws.len() == 0 {
        (Seq::empty(), Seq::empty())
    } else {
        place(place_all(ws.drop_last(), max), ws.last(), max)
    }
}

/// `s` wrapped greedily into lines of at most `max` characters, words
/// separated by single spaces.
pub open spec fn wrapped(s: Seq<char>, max: nat) -> Seq<Seq<char>> {
    let (lines, cur) = place_all(words(s), max);
    if cur.len() > 0 {
        lines.push(cur)
    } else {
        lines
    }
}

/// The characters of each string.
pub open spec fn texts(v: Seq<String>) -> Seq<Seq<char>> {
    v.map_values(|x: String| x@)
}

/// Cuts the word `w` as `cut` does, appending full pieces to `lines` and
/// returning the rest.
fn cut_exec(lines: &mut Vec<String>, w: &str, max: usize) -> (r: String)
    requires
        max > 0,
    ensures
        (texts(final(lines)@), r@) == cut(texts(old(lines)@), w@, max as nat),
{
    let n = w.unicode_len();
    let mut start: usize = 0;
    assert(w@.skip(0) =~= w@);
    while n - start > max
        invariant
            n == w@.len(),
            start <= n,
            max > 0,
            cut(texts(lines@), w@.skip(start as int), max as nat) == cut(texts(old(lines)@), w@, max as nat),
        decreases n - start,
    {
        let piece = String::from_str(w.substring_char(start, start + max));
        assert(piece@ =~= w@.skip(start as int).take(max as int));
        let ghost before = texts(lines@);
        lines.push(piece);
        assert(texts(lines@)[before.len() as int] == piece@);
        assert(texts(lines@) =~= before.push(w@.skip(start as int).take(max as int)));
        assert(w@.skip(start as int).skip(max as int) =~= w@.skip(start + max));
        start = start + max;
    }
    let rest = String::from_str(w.substring_char(start, n));
    assert(rest@ =~= w@.skip(start as int));
    rest
}

/// Places the word `w` on the lines as `place` does.
fn place_exec(lines: &mut Vec<String>, cur: &mut String, w: &str, max: usize)
    requires
        max > 0,
    ensures
        (texts(final(lines)@), final(cur)@) == place((texts(old(lines)@), old(cur)@), w@, max as nat),
{
    let cl = cur.unicode_len();
    let wl = w.unicode_len();
    if cl as u128 + wl as u128 + 1 > max as u128 {
        if cl > 0 {
            let ghost before = texts(lines@);
            lines.push(cur.clone());
            *cur = String::new();
            assert(texts(lines@)[before.len() as int] == old(cur)@);
            assert(texts(lines@) =~= before.push(old(cur)@));
        }
        if wl > max {
            *cur = cut_exec(lines, w, max);
        } else {
            *cur = String::from_str(w);
        }
    } else {
        if cl > 0 {
            push_char(cur, ' ');
        }
        cur.append(w);
    }
}

/// Wraps `text` into lines of at most `max_width` characters, words kept
/// whole where they fit and separated by single spaces; a word longer than
/// a line is cut.
pub fn wrap_text(text: &str, max_width: usize) -> (r: Vec<String>)
    requires
        max_width > 0,
    ensures
        texts(r@) == wrapped(text@, max_width as nat),
{
    let n = text.unicode_len();
    let mut lines: Vec<String> = Vec::new();
    let mut cur = String::new();
    let mut word = String::new();
    let mut i: usize = 0;
    while i < n
        invariant
            n == text@.len(),
            0 <= i <= n,
            max_width > 0,
            (texts(lines@), cur@) == place_all(split_state(text@.take(i as int)).0, max_width as nat),
            word@ == split_state(text@.take(i as int)).1,
        decreases n - i,
    {
        let c = text.get_char(i);
        let ghost pre = text@.take(i as int);
        assert(text@.take(i + 1).drop_last() =~= pre);
        assert(text@.take(i + 1).last() == c);
        if is_whitespace(c) {
            if word.unicode_len() > 0 {
                let w = word.clone();
                word = String::new();
                place_exec(&mut lines, &mut cur, w.as_str(), max_width);
                assert(split_state(pre).0.push(w@).drop_last() =~= split_state(pre).0);
            }
        } else {
            push_char(&mut word, c);
        }
        i = i + 1;
    }
    assert(text@.take(n as int) =~= text@);
    if word.unicode_len() > 0 {
        let ghost ws = split_state(text@).0;
        place_exec(&mut lines, &mut cur, word.as_str(), max_width);
        assert(ws.push(word@).drop_last() =~= ws);
    }
    if cur.unicode_len() > 0 {
        let ghost before = texts(lines@);
        let ghost last = cur@;
        lines.push(cur);
        assert(texts(lines@)[before.len() as int] == last);
        assert(texts(lines@) =~= before.push(last));
    }
    lines
}

} // verus!
