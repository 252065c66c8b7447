//! Classification of the tokens that the log pattern picks out, each kind
//! standing for one style.

use vstd::prelude::*;
use vstd::string::StrSliceExecFns;
use crate::text::{contains, contains_seq, lower_of, to_lower};

verus! {

/// The kind of a highlighted log token.
#[derive(Clone, Copy, Debug, PartialEq, Eq, Structural)]
pub enum TokenKind {
    /// A keyword that reports a failure.
    Failure,
    /// A keyword that warns.
    Warning,
    /// A keyword that reports success.
    Success,
    /// Any other keyword.
    Keyword,
    Address,
    Clock,
    Quoted,
    KeyValue,
    Method,
    /// A status code of a server failure.
    ServerError,
    /// A status code of a client failure.
    ClientError,
    /// Any other status code.
    StatusOk,
    Duration,
    Size,
    Path,
    Hash,
    Plain,
}

/// The kind of a keyword, by what its lower-case form contains.
pub open spec fn keyword_kind(lower: Seq<char>) -> TokenKind {
    if contains_seq(lower, "error"@) || contains_seq(lower, "fail"@) {
        TokenKind::Failure
    } else if contains_seq(lower, "warn"@) {
        TokenKind::Warning
    } else if contains_seq(lower, "success"@) || contains_seq(lower, "ready"@) {
        TokenKind::Success
    } else {
        TokenKind::Keyword
    }
}

/// Whether `c` is a decimal digit.
pub open spec fn is_digit(c: char) -> bool {
    '0' <= c <= '9'
}

/// The kind of a status code: by its first digit where it is three digits
/// long, else an ordinary one.
pub open spec fn status_kind(s: Seq<char>) -> TokenKind {
    if s.len() == 3 && is_digit(s[0]) && is_digit(s[1]) && is_digit(s[2]) {
        if s[0] >= '5' {
            TokenKind::ServerError
        } else if s[0] >= '4' {
            TokenKind::ClientError
        } else {
            TokenKind::StatusOk
        }
    } else {
        TokenKind::StatusOk
    }
}

/// The kind of a token that capture group `group` of the log pattern
/// matched: keywords (1), addresses (2), clock times (3), quoted text (4),
/// key-value pairs (5), methods (6), status codes (8), durations (9), sizes
/// (10), paths (11), hashes (12).
pub open spec fn token_kind(group: usize, text: Seq<char>) -> TokenKind {
    if group == 1 {
        keyword_kind(lower_of(text))
    } else if group == 2 {
        TokenKind::Address
    } else if group == 3 {
        TokenKind::Clock
    } else if group == 4 {
        TokenKind::Quoted
    } else if group == 5 {
        TokenKind::KeyValue
    } else if group == 6 || group == 7 {
        TokenKind::Method
    } else if group == 8 {
        status_kind(text)
    } else if group == 9 {
        TokenKind::Duration
    } else if group == 10 {
        TokenKind::Size
    } else if group == 11 {
        TokenKind::Path
    } else if group == 12 {
        TokenKind::Hash
    } else {
        TokenKind::Plain
    }
}

/// Classifies a token that capture group `group` of the log pattern matched.
pub fn classify(group: usize, text: &str) -> (r: TokenKind)
    ensures
        r == token_kind(group, text@),
{
    if group == 1 {
        let lower = to_lower(text);
        let l = lower.as_str();
        if contains(l, "error") || contains(l, "fail") {
            TokenKind::Failure
        } else if contains(l, "warn") {
            TokenKind::Warning
        } else if contains(l, "success") || contains(l, "ready") {
            TokenKind::Success
        } else {
            TokenKind::Keyword
        }
    } else if group == 2 {
        TokenKind::Address
    } else if group == 3 {
        TokenKind::Clock
    } else if group == 4 {
        TokenKind::Quoted
    } else if group == 5 {
        TokenKind::KeyValue
    } else if group == 6 || group == 7 {
        TokenKind::Method
    } else if group == 8 {
        if text.unicode_len() == 3 {
            let (a, b, c) = (text.get_char(0), text.get_char(1), text.get_char(2));
            if '0' <= a && a <= '9' && '0' <= b && b <= '9' && '0' <= c && c <= '9' {
                if a >= '5' {
                    TokenKind::ServerError
                } else if a >= '4' {
                    TokenKind::ClientError
                } else {
                    TokenKind::StatusOk
                }
            } else {
                TokenKind::StatusOk
            }
        } else {
            TokenKind::StatusOk
        }
    } else if group == 9 {
        TokenKind::Duration
    } else if group == 10 {
        TokenKind::Size
    } else if group == 11 {
        TokenKind::Path
    } else if group == 12 {
        TokenKind::Hash
    } else {
        TokenKind::Plain
    }
}

} // verus!
