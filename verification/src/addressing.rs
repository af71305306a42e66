//! Addressing: is a message aimed at the bot, and what is left of its body
//! once the addressing prefix is taken off.
//!
//! A body addresses the bot when it is the bot's nickname, optional white
//! space, and a `:` or `,`. What follows, without its leading white space, is
//! the residual body. A body that begins with the nickname but lacks the mark
//! is not aimed at the bot, wherever it was sent. Any other body is aimed at
//! the bot exactly when it was sent in private.

use vstd::prelude::*;
use crate::text::{
    blank,
    chars_of,
    lemma_trimmed_start,
    lemma_trimmed_start_of_padded,
    strip_prefix,
    trim_start,
    trimmed_start,
    white_space,
};

verus! {

/// The marks that may close an addressing prefix.
pub open spec fn is_mark(c: char) -> bool {
    c == ':' || c == ','
}

/// What follows the nickname in `body`, without its leading white space.
pub open spec fn after_nickname(body: Seq<char>, nickname: Seq<char>) -> Seq<char>
    recommends
        nickname.is_prefix_of(body),
{
    trimmed_start(body.skip(nickname.len() as int))
}

/// `body` begins with an addressing prefix: the nickname, optional white
/// space, then `:` or `,`.
pub open spec fn addresses(body: Seq<char>, nickname: Seq<char>) -> bool {
    &&& nickname.is_prefix_of(body)
    &&& after_nickname(body, nickname).len() > 0
    &&& is_mark(after_nickname(body, nickname).first())
}

/// What is left of a body that addresses the bot: the text after the mark,
/// without its leading white space.
pub open spec fn residual(body: Seq<char>, nickname: Seq<char>) -> Seq<char>
    recommends
        addresses(body, nickname),
{
    trimmed_start(after_nickname(body, nickname).drop_first())
}

/// `body` begins with the nickname, but what follows is no mark: the
/// nickname is merely the start of the text, as `bot` is of `botnet`.
pub open spec fn begins_with_bare_nickname(body: Seq<char>, nickname: Seq<char>) -> bool {
    nickname.is_prefix_of(body) && !addresses(body, nickname)
}

/// The length of the addressing prefix of `body`: everything that
/// resolution takes off its front.
pub open spec fn prefix_len(body: Seq<char>, nickname: Seq<char>) -> nat {
    if addresses(body, nickname) {
        (body.len() - residual(body, nickname).len()) as nat
    } else {
        0
    }
}

/// The outcome of addressing resolution.
#[derive(Debug)]
pub struct Addressing {
    /// The body, without its addressing prefix if it had one.
    pub body: String,
    /// Whether the message was aimed at the bot.
    pub is_directly_addressed: bool,
}

/// The mathematical view of an [`Addressing`].
pub ghost struct AddressingView {
    pub body: Seq<char>,
    pub is_directly_addressed: bool,
}

impl View for Addressing {
    type V = AddressingView;

    open spec fn view(&self) -> AddressingView {
        AddressingView { body: self.body@, is_directly_addressed: self.is_directly_addressed }
    }
}

/// Addressing resolution of `body` for a bot called `nickname`; `channel`
/// tells whether the reply target is a channel.
pub open spec fn resolved(body: Seq<char>, nickname: Seq<char>, channel: bool) -> AddressingView {
    if addresses(body, nickname) {
        AddressingView { body: residual(body, nickname), is_directly_addressed: true }
    } else {
        AddressingView {
            body,
            is_directly_addressed: !nickname.is_prefix_of(body) && !channel,
        }
    }
}

/// The shape of an addressing prefix: a body addresses the bot exactly when
/// it reads as the nickname, a run of white space that may be empty, a
/// mark, and the rest.
pub proof fn lemma_addresses_by_shape(body: Seq<char>, nickname: Seq<char>)
    ensures
        addresses(body, nickname) <==> exists|gap: Seq<char>, mark: char, rest: Seq<char>|
            blank(gap) && is_mark(mark) && body == #[trigger] (nickname + gap + seq![mark] + rest),
{
    let tail = body.skip(nickname.len() as int);
    if addresses(body, nickname) {
        let after = after_nickname(body, nickname);
        lemma_trimmed_start(tail);
        let gap = tail.take(tail.len() - after.len());
        let rest = after.drop_first();
        assert(blank(gap));
        assert(body == nickname + gap + seq![after.first()] + rest);
    }
    if exists|gap: Seq<char>, mark: char, rest: Seq<char>|
        blank(gap) && is_mark(mark) && body == #[trigger] (nickname + gap + seq![mark] + rest) {
        let (gap, mark, rest) = choose|gap: Seq<char>, mark: char, rest: Seq<char>|
            blank(gap) && is_mark(mark) && body == #[trigger] (nickname + gap + seq![mark] + rest);
        let marked = seq![mark] + rest;
        assert(nickname.is_prefix_of(body));
        assert(tail == gap + marked);
        lemma_trimmed_start_of_padded(gap, marked);
    }
}

/// Resolution only ever takes a prefix off: the resolved body is the body
/// from the end of its addressing prefix on, and a residual body does not
/// begin with white space.
pub proof fn lemma_resolved_body_is_suffix(body: Seq<char>, nickname: Seq<char>, channel: bool)
    ensures
        prefix_len(body, nickname) <= body.len(),
        resolved(body, nickname, channel).body == body.skip(prefix_len(body, nickname) as int),
        addresses(body, nickname) ==> prefix_len(body, nickname) > nickname.len(),
        addresses(body, nickname) && residual(body, nickname).len() > 0 ==> !white_space(
            residual(body, nickname).first(),
        ),
{
    if addresses(body, nickname) {
        let tail = body.skip(nickname.len() as int);
        let after = after_nickname(body, nickname);
        let rest = after.drop_first();
        lemma_trimmed_start(tail);
        lemma_trimmed_start(rest);
        let a = tail.len() - after.len();
        let b = rest.len() - residual(body, nickname).len();
        assert(after == body.skip(nickname.len() + a));
        assert(rest == body.skip(nickname.len() + a + 1));
        assert(residual(body, nickname) == body.skip(nickname.len() + a + 1 + b));
    } else {
        assert(body.skip(0) == body);
    }
}

/// Resolution is not applied twice. Where the body that resolution yields
/// has no addressing prefix of its own, resolving it again in a channel
/// gives the same body back, as not aimed at the bot.
pub proof fn lemma_resolution_is_not_reapplied(body: Seq<char>, nickname: Seq<char>, channel: bool)
    requires
        !addresses(resolved(body, nickname, channel).body, nickname),
    ensures
        resolved(resolved(body, nickname, channel).body, nickname, true) == (AddressingView {
            body: resolved(body, nickname, channel).body,
            is_directly_addressed: false,
        }),
{
}

/// What follows the mark when `rest` begins with one.
fn strip_mark(rest: &str) -> (tail: Option<&str>)
    ensures
        tail is Some <==> rest@.len() > 0 && is_mark(rest@.first()),
        tail matches Some(t) ==> t@ == rest@.drop_first(),
{
    let chars = chars_of(rest);
    let n = chars.len();
    if n > 0 && (chars[0] == ':' || chars[0] == ',') {
        Some(rest.substring_char(1, n))
    } else {
        None
    }
}

/// Decides whether `body` is aimed at the bot called `nickname`, and takes
/// the addressing prefix off it.
///
/// In a channel a message is aimed at the bot exactly when it begins with an
/// addressing prefix; in private, unless it begins with the bare nickname.
/// The body comes back without its addressing prefix, and as it is where it
/// has none.
pub fn resolve(body: &str, nickname: &str, channel: bool) -> (addressing: Addressing)
    ensures
        addressing@ == resolved(body@, nickname@, channel),
        channel ==> (addressing.is_directly_addressed <==> addresses(body@, nickname@)),
        !channel ==> (addressing.is_directly_addressed <==> !begins_with_bare_nickname(
            body@,
            nickname@,
        )),
        addressing.body@ == body@.skip(prefix_len(body@, nickname@) as int),
{
    proof {
        lemma_resolved_body_is_suffix(body@, nickname@, channel);
    }
    match strip_prefix(body, nickname) {
        Some(rest) => match strip_mark(trim_start(rest)) {
            Some(tail) => Addressing {
                body: trim_start(tail).to_owned(),
                is_directly_addressed: true,
            },
            None => Addressing { body: body.to_owned(), is_directly_addressed: false },
        },
        None => Addressing { body: body.to_owned(), is_directly_addressed: !channel },
    }
}

} // verus!
