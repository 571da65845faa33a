//! Text helpers over `String` and `str`, specified over `Seq<char>`.

use vstd::prelude::*;

verus! {

/// `s` with every occurrence of `from` replaced by `to`.
pub open spec fn replace_char(s: Seq<char>, from: char, to: char) -> Seq<char> {
    s.map_values(|c: char| if c == from { to } else { c })
}

/// Replacing keeps the length and, place by place, turns `from` into `to`
/// and keeps every other character.
pub proof fn lemma_replace_char(s: Seq<char>, from: char, to: char)
    ensures
        replace_char(s, from, to).len() == s.len(),
        forall|i: int|
            0 <= i < s.len() ==> #[trigger] replace_char(s, from, to)[i] == (if s[i] == from {
                to
            } else {
                s[i]
            }),
{
}

/// Appends one character to a string (std's `String::push`).
/// Trusted: the contract states that the string's characters gain `c` at the end.
#[verifier::external_body]
fn push_char(s: &mut String, c: char)
    ensures
        final(s)@ == old(s)@.push(c),
{
    s.push(c)
}

/// A new string holding the characters of `s`.
pub fn owned(s: &str) -> (r: String)
    ensures
        r@ == s@,
{
    String::from_str(s)
}

/// The concatenation of two strings.
pub fn join(a: &str, b: &str) -> (r: String)
    ensures
        r@ == a@ + b@,
{
    let head = String::from_str(a);
    head.concat(b)
}

/// Whether two strings hold the same characters.
pub fn same_text(a: &str, b: &str) -> (r: bool)
    ensures
        r == (a@ == b@),
{
    let x = String::from_str(a);
    let y = String::from_str(b);
    x == y
}

/// The characters of `s`, with each `from` replaced by `to`
/// (what `s.replace(from, to)` gives for a one-character replacement).
pub fn replace_char_in(s: &str, from: char, to: char) -> (r: String)
    ensures
        r@ == replace_char(s@, from, to),
        r@.len() == s@.len(),
        forall|i: int| 0 <= i < s@.len() ==> #[trigger] r@[i] == (if s@[i] == from { to } else { s@[i] }),
{
    proof {
        lemma_replace_char(s@, from, to);
    }
    let n: usize = s.unicode_len();
    let mut out = String::new();
    let mut i: usize = 0;
    while i < n
        invariant
            n == s@.len(),
            i <= n,
            out@ == replace_char(s@.take(i as int), from, to),
        decreases n - i,
    {
        let c = s.get_char(i);
        let d = if c == from { to } else { c };
        push_char(&mut out, d);
        assert(s@.take(i + 1) =~= s@.take(i as int).push(c));
        assert(replace_char(s@.take(i + 1), from, to) =~= replace_char(s@.take(i as int), from, to).push(d));
        i += 1;
    }
    assert(s@.take(n as int) =~= s@);
    out
}

} // verus!
