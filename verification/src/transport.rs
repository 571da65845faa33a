//! The decisions of the line-based transport: what each event on the input
//! (a line, its end, a failed read) leads to.

use vstd::prelude::*;
use crate::codec::{parse_json, parsed_json};
use crate::json::JsonValue;
use crate::server::{is_failure, JsonRpcResponse, PARSE_ERROR};

verus! {

/// Whether `c` is white space (Unicode `White_Space`, as `char::is_whitespace`).
pub open spec fn is_white_space(c: char) -> bool {
    ||| '\u{9}' <= c <= '\u{d}'
    ||| c == ' '
    ||| c == '\u{85}'
    ||| c == '\u{a0}'
    ||| c == '\u{1680}'
    ||| '\u{2000}' <= c <= '\u{200a}'
    ||| c == '\u{2028}'
    ||| c == '\u{2029}'
    ||| c == '\u{202f}'
    ||| c == '\u{205f}'
    ||| c == '\u{3000}'
}

/// `line` holds nothing but white space.
pub open spec fn is_blank(line: Seq<char>) -> bool {
    forall|i: int| 0 <= i < line.len() ==> is_white_space(#[trigger] line[i])
}

/// The number of white-space characters that `s` starts with.
pub open spec fn leading_white(s: Seq<char>) -> nat
    decreases s.len(),
{
    if s.len() > 0 && is_white_space(s[0]) {
        1 + leading_white(s.drop_first())
    } else {
        0
    }
}

/// The number of white-space characters that `s` ends with.
pub open spec fn trailing_white(s: Seq<char>) -> nat
    decreases s.len(),
{
    if s.len() > 0 && is_white_space(s.last()) {
        1 + trailing_white(s.drop_last())
    } else {
        0
    }
}

/// `s` without its leading and trailing white space (what `str::trim` gives).
pub open spec fn trimmed(s: Seq<char>) -> Seq<char> {
    if is_blank(s) {
        Seq::empty()
    } else {
        s.subrange(leading_white(s) as int, s.len() - trailing_white(s))
    }
}

/// A string that starts with exactly `i` white-space characters.
proof fn lemma_leading_white(s: Seq<char>, i: int)
    requires
        0 <= i <= s.len(),
        forall|j: int| 0 <= j < i ==> is_white_space(#[trigger] s[j]),
        i == s.len() || !is_white_space(s[i]),
    ensures
        leading_white(s) == i,
    decreases i,
{
    if i > 0 {
        let rest = s.drop_first();
        assert forall|j: int| 0 <= j < i - 1 implies is_white_space(#[trigger] rest[j]) by {
            assert(rest[j] == s[j + 1]);
        }
        lemma_leading_white(rest, i - 1);
    }
}

/// A string that ends with exactly `s.len() - i` white-space characters.
proof fn lemma_trailing_white(s: Seq<char>, i: int)
    requires
        0 <= i <= s.len(),
        forall|j: int| i <= j < s.len() ==> is_white_space(#[trigger] s[j]),
        i == 0 || !is_white_space(s[i - 1]),
    ensures
        trailing_white(s) == s.len() - i,
    decreases s.len() - i,
{
    if i < s.len() {
        let rest = s.drop_last();
        assert forall|j: int| i <= j < rest.len() implies is_white_space(#[trigger] rest[j]) by {
            assert(rest[j] == s[j]);
        }
        assert(is_white_space(s[s.len() - 1]));
        lemma_trailing_white(rest, i);
    }
}

/// The first `leading_white(s)` characters of `s` are white space, and the
/// next one, if any, is not.
proof fn lemma_leading_white_props(s: Seq<char>)
    ensures
        leading_white(s) <= s.len(),
        forall|j: int| 0 <= j < leading_white(s) ==> is_white_space(#[trigger] s[j]),
        leading_white(s) < s.len() ==> !is_white_space(s[leading_white(s) as int]),
    decreases s.len(),
{
    if s.len() > 0 && is_white_space(s[0]) {
        let rest = s.drop_first();
        lemma_leading_white_props(rest);
        assert forall|j: int| 0 <= j < leading_white(s) implies is_white_space(#[trigger] s[j]) by {
            if j > 0 {
                assert(s[j] == rest[j - 1]);
            }
        }
        if leading_white(s) < s.len() {
            assert(s[leading_white(s) as int] == rest[leading_white(rest) as int]);
        }
    }
}

/// The last `trailing_white(s)` characters of `s` are white space, and the
/// one before them, if any, is not.
proof fn lemma_trailing_white_props(s: Seq<char>)
    ensures
        trailing_white(s) <= s.len(),
        forall|j: int| s.len() - trailing_white(s) <= j < s.len() ==> is_white_space(#[trigger] s[j]),
        trailing_white(s) < s.len() ==> !is_white_space(s[s.len() - trailing_white(s) - 1]),
    decreases s.len(),
{
    if s.len() > 0 && is_white_space(s.last()) {
        let rest = s.drop_last();
        lemma_trailing_white_props(rest);
        assert forall|j: int| s.len() - trailing_white(s) <= j < s.len() implies is_white_space(
            #[trigger] s[j],
        ) by {
            if j < s.len() - 1 {
                assert(s[j] == rest[j]);
            }
        }
        if trailing_white(s) < s.len() {
            assert(s[s.len() - trailing_white(s) - 1] == rest[rest.len() - trailing_white(rest) - 1]);
        }
    }
}

/// Trimming removes exactly the outer white space, whatever the line's
/// length: the result is the part of `s` from its first to its last
/// character that is not white space, and it is empty exactly when every
/// character of `s` is white space.
pub proof fn lemma_trimmed(s: Seq<char>)
    ensures
        exists|a: int, b: int|
            0 <= a <= b <= s.len() && trimmed(s) == s.subrange(a, b) && (forall|j: int|
                0 <= j < a ==> is_white_space(#[trigger] s[j])) && (forall|j: int|
                b <= j < s.len() ==> is_white_space(#[trigger] s[j])) && (a < b ==> !is_white_space(
                s[a],
            ) && !is_white_space(s[b - 1])),
        trimmed(s).len() == 0 <==> (forall|j: int| 0 <= j < s.len() ==> is_white_space(#[trigger] s[j])),
{
    lemma_leading_white_props(s);
    lemma_trailing_white_props(s);
    if is_blank(s) {
        assert(trimmed(s) =~= s.subrange(0, 0));
        assert(0 <= 0 <= 0 <= s.len() && trimmed(s) == s.subrange(0, 0));
    } else {
        let a = leading_white(s) as int;
        let b = s.len() - trailing_white(s);
        if a == s.len() {
            assert(is_blank(s));
        }
        if a >= b {
            assert(is_white_space(s[a]));
        }
        assert(0 <= a < b <= s.len() && trimmed(s) == s.subrange(a, b));
        assert(trimmed(s)[0] == s[a]);
    }
}

/// An event on the input.
pub enum LineEvent {
    /// A line was read.
    Line(String),
    /// The input ended.
    Closed,
    /// Reading failed.
    ReadFailed,
}

/// What the transport does next.
pub enum LineAction {
    /// Stop reading.
    Stop,
    /// Go on with the next line.
    Skip,
    /// Write this response, then go on.
    Respond(JsonRpcResponse),
    /// Hand this message to the server, write its response if any, then go on.
    Handle(JsonValue),
}

/// Reads requests, one JSON document per line, and writes one response per line.
pub struct StdioTransport {}

impl StdioTransport {
    /// Whether `c` is white space.
    pub fn white_space(c: char) -> (r: bool)
        ensures
            r == is_white_space(c),
    {
        ('\u{9}' <= c && c <= '\u{d}') || c == ' ' || c == '\u{85}' || c == '\u{a0}' || c
            == '\u{1680}' || ('\u{2000}' <= c && c <= '\u{200a}') || c == '\u{2028}' || c
            == '\u{2029}' || c == '\u{202f}' || c == '\u{205f}' || c == '\u{3000}'
    }

    /// `line` without its leading and trailing white space.
    pub fn trim(line: &str) -> (r: &str)
        ensures
            r@ == trimmed(line@),
    {
        let n: usize = line.unicode_len();
        let mut start: usize = 0;
        while start < n && Self::white_space(line.get_char(start))
            invariant
                n == line@.len(),
                start <= n,
                forall|j: int| 0 <= j < start ==> is_white_space(#[trigger] line@[j]),
            decreases n - start,
        {
            start += 1;
        }
        if start == n {
            return line.substring_char(0, 0);
        }
        proof {
            lemma_leading_white(line@, start as int);
        }
        let mut end: usize = n;
        while end > start && Self::white_space(line.get_char(end - 1))
            invariant
                n == line@.len(),
                start < end <= n,
                !is_white_space(line@[start as int]),
                forall|j: int| end <= j < n ==> is_white_space(#[trigger] line@[j]),
            decreases end,
        {
            end -= 1;
        }
        proof {
            lemma_trailing_white(line@, end as int);
            assert(!is_blank(line@));
        }
        line.substring_char(start, end)
    }

    /// What to do on `event`: stop at the end of the input or a failed read,
    /// skip a blank line, answer a line that is not JSON with a parse error,
    /// and hand any other line's document, read after trimming, to the server.
    pub fn on_event(event: LineEvent) -> (a: LineAction)
        ensures
            match event {
                LineEvent::Line(line) => if is_blank(line@) {
                    a is Skip
                } else {
                    match parsed_json(trimmed(line@)) {
                        Ok(v) => a matches LineAction::Handle(body) && body@ == v,
                        Err(reason) => a matches LineAction::Respond(r) && is_failure(
                            r,
                            None,
                            PARSE_ERROR,
                            "Parse error: "@ + reason,
                        ),
                    }
                },
                LineEvent::Closed => a is Stop,
                LineEvent::ReadFailed => a is Stop,
            },
    {
        match event {
            LineEvent::Line(line) => {
                if Self::is_blank_line(line.as_str()) {
                    LineAction::Skip
                } else {
                    let t = Self::trim(line.as_str());
                    match parse_json(t) {
                        Ok(body) => LineAction::Handle(body),
                        Err(reason) => LineAction::Respond(
                            JsonRpcResponse::parse_failure(reason.as_str()),
                        ),
                    }
                }
            },
            LineEvent::Closed => LineAction::Stop,
            LineEvent::ReadFailed => LineAction::Stop,
        }
    }

    /// Whether `line` is skipped: it holds nothing once white space is trimmed.
    pub fn is_blank_line(line: &str) -> (r: bool)
        ensures
            r == is_blank(line@),
    {
        let n: usize = line.unicode_len();
        let mut i: usize = 0;
        while i < n
            invariant
                n == line@.len(),
                i <= n,
                forall|j: int| 0 <= j < i ==> is_white_space(#[trigger] line@[j]),
            decreases n - i,
        {
            if !Self::white_space(line.get_char(i)) {
                return false;
            }
            i += 1;
        }
        true
    }
}

} // verus!
