//! The request-scoped view of one inbound chat message, and the normaliser
//! that derives it.

use vstd::prelude::*;
use crate::addressing::{
    addresses,
    begins_with_bare_nickname,
    lemma_resolved_body_is_suffix,
    prefix_len,
    resolve,
    resolved,
};
use crate::ctcp::{strip, unwrapped, wrapped, DELIMITER};
use crate::protocol::{
    is_channel_name,
    nickname_of,
    response_target,
    source_nickname,
    Command,
    CommandView,
    Message,
    MessageView,
};
use crate::reply::{strategy_for, Reply, ReplyStrategy, ReplyView};
use crate::text::{lemma_trimmed_has_no_outer_space, trim, trimmed};

verus! {

/// What one inbound chat message means to the bot: its text, its sender,
/// whether it was aimed at the bot, and where and how to answer it.
#[derive(Debug)]
pub struct Context {
    body: String,
    is_directly_addressed: bool,
    is_ctcp: bool,
    reply_strategy: ReplyStrategy,
    source: String,
    source_nickname: String,
    target: String,
    current_nickname: String,
}

/// The mathematical view of a [`Context`].
pub ghost struct ContextView {
    /// The message text, without CTCP framing and addressing prefix.
    pub body: Seq<char>,
    /// Whether the message was aimed at the bot.
    pub is_directly_addressed: bool,
    /// Whether the message came wrapped in CTCP delimiters.
    pub is_ctcp: bool,
    /// The mechanism a reply is sent with.
    pub reply_strategy: ReplyStrategy,
    /// The sender as the protocol gives it.
    pub source: Seq<char>,
    /// The sender's nickname.
    pub source_nickname: Seq<char>,
    /// The channel or nickname a reply goes to.
    pub target: Seq<char>,
    /// The bot's own nickname when the message came in.
    pub current_nickname: Seq<char>,
}

impl ContextView {
    /// What ties the fields of a context together: the strategy is the one
    /// bound to the target, the nickname is the one in the source, and a
    /// target that is not a channel is the sender.
    pub open spec fn well_formed(self) -> bool {
        &&& self.reply_strategy == strategy_for(self.target)
        &&& nickname_of(Some(self.source)) == Some(self.source_nickname)
        &&& is_channel_name(self.target) || self.target == self.source_nickname
    }
}

/// The text that addressing resolution sees: the message text without its
/// surrounding white space and without its CTCP framing.
pub open spec fn inbound_body(text: Seq<char>) -> Seq<char> {
    unwrapped(trimmed(text))
}

/// The context of `message` for a bot called `current_nickname`, or `None`
/// where the message is no chat message or names no sender.
pub open spec fn normalized(current_nickname: Seq<char>, message: MessageView) -> Option<
    ContextView,
> {
    match (message.command, message.prefix, nickname_of(message.prefix)) {
        (CommandView::Privmsg { target, text }, Some(source), Some(source_nickname)) => {
            let reply_target = if is_channel_name(target) {
                target
            } else {
                source_nickname
            };
            let addressing = resolved(
                inbound_body(text),
                current_nickname,
                is_channel_name(reply_target),
            );
            Some(
                ContextView {
                    body: addressing.body,
                    is_directly_addressed: addressing.is_directly_addressed,
                    is_ctcp: wrapped(trimmed(text)),
                    reply_strategy: strategy_for(reply_target),
                    source,
                    source_nickname,
                    target: reply_target,
                    current_nickname,
                },
            )
        },
        _ => None,
    }
}

/// The body of a context is what the message text holds behind its
/// addressing prefix. So it holds no CTCP delimiter where the text behind
/// the prefix holds none; a delimiter inside the payload stays.
pub proof fn lemma_body_is_suffix_of_inbound_body(
    current_nickname: Seq<char>,
    message: MessageView,
    ctx: ContextView,
)
    requires
        normalized(current_nickname, message) == Some(ctx),
    ensures
        prefix_len(inbound_body(message.text()), current_nickname) <= inbound_body(
            message.text(),
        ).len(),
        ctx.body == inbound_body(message.text()).skip(
            prefix_len(inbound_body(message.text()), current_nickname) as int,
        ),
{
    lemma_resolved_body_is_suffix(
        inbound_body(message.text()),
        current_nickname,
        is_channel_name(ctx.target),
    );
}

/// A message wrapped in CTCP delimiters yields a context marked as CTCP,
/// and its body holds no delimiter, provided that the payload holds none
/// behind its addressing prefix.
pub proof fn lemma_ctcp_body_holds_no_delimiter(
    current_nickname: Seq<char>,
    message: MessageView,
    ctx: ContextView,
)
    requires
        normalized(current_nickname, message) == Some(ctx),
        wrapped(trimmed(message.text())),
        !inbound_body(message.text()).skip(
            prefix_len(inbound_body(message.text()), current_nickname) as int,
        ).contains(DELIMITER),
    ensures
        ctx.is_ctcp,
        !ctx.body.contains(DELIMITER),
{
    lemma_body_is_suffix_of_inbound_body(current_nickname, message, ctx);
}

/// The body of a context that is not CTCP has no white space at either
/// end: trimming it changes nothing.
pub proof fn lemma_plain_body_is_trimmed(
    current_nickname: Seq<char>,
    message: MessageView,
    ctx: ContextView,
)
    requires
        normalized(current_nickname, message) == Some(ctx),
        !ctx.is_ctcp,
    ensures
        trimmed(ctx.body) == ctx.body,
{
    let text = trimmed(message.text());
    lemma_trimmed_has_no_outer_space(message.text());
    lemma_resolved_body_is_suffix(text, current_nickname, is_channel_name(ctx.target));
    if ctx.body.len() > 0 {
        assert(ctx.body.last() == text.last());
    }
}

/// Normalising the body of a context once more does not resolve addressing
/// a second time. Where the body, read as message text, has no addressing
/// prefix, a channel message that carries it yields a context that is not
/// aimed at the bot and whose body is that text; unless CTCP framing is
/// involved, that is the very body that went in.
pub proof fn lemma_renormalizing_is_not_addressed(
    current_nickname: Seq<char>,
    message: MessageView,
    ctx: ContextView,
)
    requires
        normalized(current_nickname, message) == Some(ctx),
        is_channel_name(ctx.target),
        !addresses(inbound_body(ctx.body), current_nickname),
    ensures
        normalized(current_nickname, message.with_text(ctx.body)) matches Some(again) && {
            &&& !again.is_directly_addressed
            &&& again.body == inbound_body(ctx.body)
            &&& again.target == ctx.target
            &&& !ctx.is_ctcp && !wrapped(ctx.body) ==> again.body == ctx.body
        },
{
    if !ctx.is_ctcp {
        lemma_plain_body_is_trimmed(current_nickname, message, ctx);
    }
}

/// The view of an optional context.
pub open spec fn view_of(ctx: Option<Context>) -> Option<ContextView> {
    match ctx {
        Some(c) => Some(c@),
        None => None,
    }
}

impl View for Context {
    type V = ContextView;

    closed spec fn view(&self) -> ContextView {
        ContextView {
            body: self.body@,
            is_directly_addressed: self.is_directly_addressed,
            is_ctcp: self.is_ctcp,
            reply_strategy: self.reply_strategy,
            source: self.source@,
            source_nickname: self.source_nickname@,
            target: self.target@,
            current_nickname: self.current_nickname@,
        }
    }
}

impl Clone for Context {
    fn clone(&self) -> (copy: Self)
        ensures
            copy@ == self@,
    {
        proof {
            use_type_invariant(self);
        }
        Context {
            body: self.body.clone(),
            is_directly_addressed: self.is_directly_addressed,
            is_ctcp: self.is_ctcp,
            reply_strategy: self.reply_strategy,
            source: self.source.clone(),
            source_nickname: self.source_nickname.clone(),
            target: self.target.clone(),
            current_nickname: self.current_nickname.clone(),
        }
    }
}

impl Context {
    #[verifier::type_invariant]
    spec fn coherent(self) -> bool {
        self@.well_formed()
    }

    /// Normalises one inbound event for a bot currently called
    /// `current_nickname`.
    ///
    /// The event is filtered out when it is no chat message or when its
    /// prefix names no sender. A chat message always has a reply target: the
    /// channel it was sent to, else its sender.
    ///
    /// A message whose trimmed text is wrapped in CTCP delimiters is marked
    /// as CTCP. A reply into a channel is a notice, and a channel message is
    /// aimed at the bot exactly when it begins with an addressing prefix. A
    /// reply to a user is a direct message, and a private message is aimed
    /// at the bot unless it begins with the bare nickname.
    pub fn new(current_nickname: &str, message: &Message) -> (ctx: Option<Context>)
        ensures
            view_of(ctx) == normalized(current_nickname@, message@),
            ctx matches Some(c) ==> c@.well_formed(),
            ctx matches Some(c) ==> c@.is_ctcp == wrapped(trimmed(message@.text())),
            ctx matches Some(c) ==> is_channel_name(c@.target) ==> {
                &&& c@.reply_strategy == ReplyStrategy::Notice
                &&& c@.is_directly_addressed <==> addresses(
                    inbound_body(message@.text()),
                    current_nickname@,
                )
            },
            ctx matches Some(c) ==> !is_channel_name(c@.target) ==> {
                &&& c@.reply_strategy == ReplyStrategy::DirectMessage
                &&& c@.is_directly_addressed <==> !begins_with_bare_nickname(
                    inbound_body(message@.text()),
                    current_nickname@,
                )
            },
    {
        let (target, text) = match &message.command {
            Command::Privmsg { target, text } => (target, text),
            Command::Other => {
                return None;
            },
        };
        let source_nickname = match source_nickname(&message.prefix, target, text) {
            Some(nickname) => nickname,
            None => {
                return None;
            },
        };
        // A message with a nickname has a prefix, and a reply target: the
        // channel it was sent to, else that nickname.
        let source = match &message.prefix {
            Some(prefix) => prefix.clone(),
            None => {
                return None;
            },
        };
        let reply_target = match response_target(&message.prefix, target, text) {
            Some(place) => place,
            None => {
                return None;
            },
        };
        let body = trim(text.as_str());
        let (is_ctcp, body) = match strip(body) {
            Some(payload) => (true, payload),
            None => (false, body),
        };
        let reply_strategy = ReplyStrategy::for_target(reply_target.as_str());
        let addressing = resolve(body, current_nickname, reply_strategy.is_notice());
        Some(
            Context {
                body: addressing.body,
                is_directly_addressed: addressing.is_directly_addressed,
                is_ctcp,
                reply_strategy,
                source,
                source_nickname,
                target: reply_target,
                current_nickname: current_nickname.to_owned(),
            },
        )
    }

    /// The message text, without CTCP framing and addressing prefix.
    pub fn body(&self) -> (body: &str)
        ensures
            body@ == self@.body,
    {
        self.body.as_str()
    }

    /// Whether the message was aimed at the bot, either in private or by
    /// prefixing a channel message with the bot's name and `:` or `,`.
    pub fn is_directly_addressed(&self) -> (addressed: bool)
        ensures
            addressed == self@.is_directly_addressed,
    {
        self.is_directly_addressed
    }

    /// Whether the message came wrapped in CTCP delimiters.
    pub fn is_ctcp(&self) -> (ctcp: bool)
        ensures
            ctcp == self@.is_ctcp,
    {
        self.is_ctcp
    }

    /// The sender as the protocol gives it.
    pub fn source(&self) -> (source: &str)
        ensures
            source@ == self@.source,
    {
        self.source.as_str()
    }

    /// The sender's nickname: the one that the source holds.
    pub fn source_nickname(&self) -> (nickname: &str)
        ensures
            nickname@ == self@.source_nickname,
            nickname_of(Some(self@.source)) == Some(nickname@),
    {
        proof {
            use_type_invariant(self);
        }
        self.source_nickname.as_str()
    }

    /// The channel or nickname a reply goes to: a channel, or else the
    /// sender.
    pub fn target(&self) -> (target: &str)
        ensures
            target@ == self@.target,
            is_channel_name(target@) || target@ == self@.source_nickname,
    {
        proof {
            use_type_invariant(self);
        }
        self.target.as_str()
    }

    /// The bot's own nickname when the message came in.
    pub fn current_nickname(&self) -> (nickname: &str)
        ensures
            nickname@ == self@.current_nickname,
    {
        self.current_nickname.as_str()
    }

    /// The mechanism a reply is sent with: a notice exactly when the target
    /// is a channel.
    pub fn reply_strategy(&self) -> (strategy: ReplyStrategy)
        ensures
            strategy == self@.reply_strategy,
            strategy == strategy_for(self@.target),
    {
        proof {
            use_type_invariant(self);
        }
        self.reply_strategy
    }

    /// The reply that carries `message` back to where this context came
    /// from: the bound strategy and the stored target, as they are.
    pub fn reply(&self, message: &str) -> (reply: Reply)
        ensures
            reply@ == (ReplyView {
                strategy: self@.reply_strategy,
                target: self@.target,
                text: message@,
            }),
            reply@.strategy == strategy_for(reply@.target),
    {
        proof {
            use_type_invariant(self);
        }
        Reply {
            strategy: self.reply_strategy,
            target: self.target.clone(),
            text: message.to_owned(),
        }
    }
}

} // verus!
