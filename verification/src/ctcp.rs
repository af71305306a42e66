//! Client-to-client protocol (CTCP) framing: a body wrapped in a pair of
//! delimiter characters.

use vstd::prelude::*;
use crate::text::chars_of;

verus! {

/// The character that opens and closes a CTCP body.
pub const DELIMITER: char = '\u{1}';

/// A body is wrapped when it holds at least two characters and both its
/// first and its last are the delimiter.
pub open spec fn wrapped(body: Seq<char>) -> bool {
    body.len() >= 2 && body.first() == DELIMITER && body.last() == DELIMITER
}

/// What stands between the two delimiters of a wrapped body.
pub open spec fn payload(body: Seq<char>) -> Seq<char>
    recommends
        wrapped(body),
{
    body.subrange(1, body.len() - 1)
}

/// The body with its CTCP framing, if it has one, taken off.
pub open spec fn unwrapped(body: Seq<char>) -> Seq<char> {
    if wrapped(body) {
        payload(body)
    } else {
        body
    }
}

/// The payload of `body` when it is wrapped, `None` when it is not.
pub fn strip(body: &str) -> (inner: Option<&str>)
    ensures
        inner is Some <==> wrapped(body@),
        inner matches Some(p) ==> p@ == payload(body@),
{
    let chars = chars_of(body);
    let n = chars.len();
    if n >= 2 && chars[0] == DELIMITER && chars[n - 1] == DELIMITER {
        Some(body.substring_char(1, n - 1))
    } else {
        None
    }
}

} // verus!
