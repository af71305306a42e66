//! Character-level text operations: white space, trimming and prefixes.
//!
//! Text is modelled as `Seq<char>`, the view of `str` and `String`. Every
//! function here runs in time linear in the length of its input.

use vstd::prelude::*;

verus! {

/// The characters that count as white space: the Unicode `White_Space` code
/// points.
pub open spec fn white_space(c: char) -> bool {
    ||| '\u{9}' <= c <= '\u{d}'
    ||| c == ' '
    ||| c == '\u{85}'
    ||| c == '\u{a0}'
    ||| c == '\u{1680}'
    ||| '\u{2000}' <= c <= '\u{200a}'
    ||| c == '\u{2028}'
    ||| c == '\u{2029}'
    ||| c == '\u{202f}'
    ||| c == '\u{205f}'
    ||| c == '\u{3000}'
}

/// `s` without its leading white space.
pub open spec fn trimmed_start(s: Seq<char>) -> Seq<char>
    decreases s.len(),
{
    if s.len() > 0 && white_space(s.first()) {
        trimmed_start(s.drop_first())
    } else {
        s
    }
}

/// `s` without its trailing white space.
pub open spec fn trimmed_end(s: Seq<char>) -> Seq<char>
    decreases s.len(),
{
    if s.len() > 0 && white_space(s.last()) {
        trimmed_end(s.drop_last())
    } else {
        s
    }
}

/// `s` without its leading and trailing white space.
pub open spec fn trimmed(s: Seq<char>) -> Seq<char> {
    trimmed_end(trimmed_start(s))
}

/// Every character of `s` is white space.
pub open spec fn blank(s: Seq<char>) -> bool {
    forall|i: int| 0 <= i < s.len() ==> white_space(#[trigger] s[i])
}

/// Trimming at the start only takes white space off the front: the result
/// is a suffix of `s`, everything before it is white space, and it does not
/// begin with white space itself.
pub proof fn lemma_trimmed_start(s: Seq<char>)
    ensures
        trimmed_start(s).len() <= s.len(),
        trimmed_start(s) == s.skip(s.len() - trimmed_start(s).len()),
        forall|i: int| 0 <= i < s.len() - trimmed_start(s).len() ==> white_space(s[i]),
        trimmed_start(s).len() > 0 ==> !white_space(trimmed_start(s).first()),
    decreases s.len(),
{
    if s.len() > 0 && white_space(s.first()) {
        let rest = s.drop_first();
        lemma_trimmed_start(rest);
        let cut = rest.len() - trimmed_start(rest).len();
        assert(rest.skip(cut) == s.skip(cut + 1));
        assert forall|i: int| 0 <= i < s.len() - trimmed_start(s).len() implies white_space(
            s[i],
        ) by {
            if i > 0 {
                assert(s[i] == rest[i - 1]);
            }
        }
    } else {
        assert(s.skip(0) == s);
    }
}

/// White space in front of text that does not begin with white space is
/// exactly what trimming at the start takes off.
pub proof fn lemma_trimmed_start_of_padded(gap: Seq<char>, s: Seq<char>)
    requires
        blank(gap),
        s.len() > 0 ==> !white_space(s.first()),
    ensures
        trimmed_start(gap + s) == s,
    decreases gap.len(),
{
    if gap.len() > 0 {
        assert(white_space(gap[0]));
        assert((gap + s).drop_first() == gap.drop_first() + s);
        lemma_trimmed_start_of_padded(gap.drop_first(), s);
    } else {
        assert(gap + s == s);
    }
}

/// Trimming at the end only takes white space off the back: the result is
/// a prefix of `s`, everything behind it is white space, and it does not
/// end in white space itself.
pub proof fn lemma_trimmed_end(s: Seq<char>)
    ensures
        trimmed_end(s).len() <= s.len(),
        trimmed_end(s) == s.take(trimmed_end(s).len() as int),
        forall|i: int| trimmed_end(s).len() <= i < s.len() ==> white_space(s[i]),
        trimmed_end(s).len() > 0 ==> !white_space(trimmed_end(s).last()),
    decreases s.len(),
{
    if s.len() > 0 && white_space(s.last()) {
        let rest = s.drop_last();
        lemma_trimmed_end(rest);
        assert(rest.take(trimmed_end(rest).len() as int) == s.take(trimmed_end(rest).len() as int));
        assert forall|i: int| trimmed_end(s).len() <= i < s.len() implies white_space(s[i]) by {
            if i < rest.len() {
                assert(s[i] == rest[i]);
            }
        }
    } else {
        assert(s.take(s.len() as int) == s);
    }
}

/// Trimmed text neither begins nor ends with white space.
pub proof fn lemma_trimmed_has_no_outer_space(s: Seq<char>)
    ensures
        trimmed(s).len() > 0 ==> !white_space(trimmed(s).first()) && !white_space(
            trimmed(s).last(),
        ),
        trimmed(trimmed(s)) == trimmed(s),
{
    let front = trimmed_start(s);
    lemma_trimmed_start(s);
    lemma_trimmed_end(front);
    let both = trimmed(s);
    if both.len() > 0 {
        assert(both.first() == front.first());
        assert(trimmed_start(both) == both);
    }
}

/// Tells whether `c` is white space.
pub fn is_whitespace(c: char) -> (space: bool)
    ensures
        space == white_space(c),
{
    ('\u{9}' <= c && c <= '\u{d}') || c == ' ' || c == '\u{85}' || c == '\u{a0}' || c == '\u{1680}'
        || ('\u{2000}' <= c && c <= '\u{200a}') || c == '\u{2028}' || c == '\u{2029}' || c
        == '\u{202f}' || c == '\u{205f}' || c == '\u{3000}'
}

/// The characters of `s`, in order.
pub fn chars_of(s: &str) -> (chars: Vec<char>)
    ensures
        chars@ == s@,
{
    let mut chars: Vec<char> = Vec::new();
    for c in it: s.chars()
        invariant
            it.seq() == s@,
            chars@ == it.seq().take(it.index()),
    {
        chars.push(c);
    }
    chars
}

/// `s` without its leading white space.
pub fn trim_start(s: &str) -> (rest: &str)
    ensures
        rest@ == trimmed_start(s@),
{
    let chars = chars_of(s);
    let n = chars.len();
    let mut i: usize = 0;
    assert(s@.skip(0) == s@);
    while i < n && is_whitespace(chars[i])
        invariant
            i <= n,
            n == chars@.len(),
            chars@ == s@,
            trimmed_start(s@) == trimmed_start(s@.skip(i as int)),
        decreases n - i,
    {
        assert(s@.skip(i as int).drop_first() == s@.skip(i + 1));
        i += 1;
    }
    s.substring_char(i, n)
}

/// `s` without its trailing white space.
pub fn trim_end(s: &str) -> (rest: &str)
    ensures
        rest@ == trimmed_end(s@),
{
    let chars = chars_of(s);
    let mut n = chars.len();
    assert(s@.take(n as int) == s@);
    while n > 0 && is_whitespace(chars[n - 1])
        invariant
            n <= chars@.len(),
            chars@ == s@,
            trimmed_end(s@) == trimmed_end(s@.take(n as int)),
        decreases n,
    {
        assert(s@.take(n as int).drop_last() == s@.take(n - 1));
        n -= 1;
    }
    s.substring_char(0, n)
}

/// `s` without its leading and trailing white space.
pub fn trim(s: &str) -> (rest: &str)
    ensures
        rest@ == trimmed(s@),
{
    trim_end(trim_start(s))
}

/// What follows `prefix` in `s`, when `s` begins with it.
pub fn strip_prefix<'a>(s: &'a str, prefix: &str) -> (rest: Option<&'a str>)
    ensures
        rest is Some <==> prefix@.is_prefix_of(s@),
        rest matches Some(r) ==> r@ == s@.skip(prefix@.len() as int),
{
    let chars = chars_of(s);
    let head = chars_of(prefix);
    if head.len() > chars.len() {
        return None;
    }
    let mut i: usize = 0;
    while i < head.len()
        invariant
            i <= head@.len() <= chars@.len(),
            chars@ == s@,
            head@ == prefix@,
            forall|j: int| 0 <= j < i ==> chars@[j] == head@[j],
        decreases head@.len() - i,
    {
        if chars[i] != head[i] {
            return None;
        }
        i += 1;
    }
    Some(s.substring_char(head.len(), chars.len()))
}

} // verus!
