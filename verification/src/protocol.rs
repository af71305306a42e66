//! The inbound protocol event as the pipeline reads it, and the three
//! questions that the `irc` crate answers about it: is a name a channel, who
//! sent a message, and where does an answer to it go.

use vstd::prelude::*;
use irc::proto::ChannelExt;

verus! {

/// The command of an inbound event.
#[derive(Debug)]
pub enum Command {
    /// A chat message sent to `target`, a channel or a nickname.
    Privmsg { target: String, text: String },
    /// Any other protocol event.
    Other,
}

/// One inbound event: who sent it, and what it commands.
#[derive(Debug)]
pub struct Message {
    /// The sender as the protocol gives it, `nick!user@host` or a server name.
    pub prefix: Option<String>,
    /// What the event asks for.
    pub command: Command,
}

/// The mathematical view of a [`Command`].
pub ghost enum CommandView {
    Privmsg { target: Seq<char>, text: Seq<char> },
    Other,
}

/// The mathematical view of a [`Message`].
pub ghost struct MessageView {
    pub prefix: Option<Seq<char>>,
    pub command: CommandView,
}

impl MessageView {
    /// The text of a chat message; empty for any other event.
    pub open spec fn text(self) -> Seq<char> {
        match self.command {
            CommandView::Privmsg { text, .. } => text,
            CommandView::Other => Seq::empty(),
        }
    }

    /// The same event with other text.
    pub open spec fn with_text(self, text: Seq<char>) -> MessageView {
        match self.command {
            CommandView::Privmsg { target, .. } => MessageView {
                prefix: self.prefix,
                command: CommandView::Privmsg { target, text },
            },
            CommandView::Other => self,
        }
    }
}

impl View for Command {
    type V = CommandView;

    open spec fn view(&self) -> CommandView {
        match self {
            Command::Privmsg { target, text } => CommandView::Privmsg {
                target: target@,
                text: text@,
            },
            Command::Other => CommandView::Other,
        }
    }
}

impl View for Message {
    type V = MessageView;

    open spec fn view(&self) -> MessageView {
        MessageView { prefix: text_of(self.prefix), command: self.command@ }
    }
}

/// The characters of an optional string.
pub open spec fn text_of(s: Option<String>) -> Option<Seq<char>> {
    match s {
        Some(s) => Some(s@),
        None => None,
    }
}

/// The part of `s` before the first `c`; all of `s` when it holds no `c`.
pub open spec fn before(s: Seq<char>, c: char) -> Seq<char>
    decreases s.len(),
{
    if s.len() == 0 || s.first() == c {
        Seq::empty()
    } else {
        seq![s.first()] + before(s.drop_first(), c)
    }
}

/// A channel name begins with `#`, `&`, `+` or `!`.
pub open spec fn is_channel_name(name: Seq<char>) -> bool {
    name.len() > 0 && (name.first() == '#' || name.first() == '&' || name.first() == '+'
        || name.first() == '!')
}

/// The nickname in a prefix `nick[!user][@host]`: what stands before the
/// first `!`, else before the first `@`; the whole prefix when it holds
/// neither of them nor a `.`; none for a server name.
pub open spec fn nickname_of(prefix: Option<Seq<char>>) -> Option<Seq<char>> {
    match prefix {
        None => None,
        Some(p) => if p.contains('!') {
            Some(before(p, '!'))
        } else if p.contains('@') {
            Some(before(p, '@'))
        } else if p.contains('.') {
            None
        } else {
            Some(p)
        },
    }
}

/// Where an answer to a chat message goes: to the channel it was sent to,
/// else to the nickname of its sender.
pub open spec fn response_target_of(prefix: Option<Seq<char>>, target: Seq<char>) -> Option<
    Seq<char>,
> {
    if is_channel_name(target) {
        Some(target)
    } else {
        nickname_of(prefix)
    }
}

/// `irc::proto::ChannelExt::is_channel_name` for `&str`: true exactly when
/// the name starts with one of `#`, `&`, `+`, `!`.
#[verifier::external_body]
pub(crate) fn channel_name(name: &str) -> (channel: bool)
    ensures
        channel == is_channel_name(name@),
{
    name.is_channel_name()
}

/// `irc::proto::Message::source_nickname` on the chat message with this
/// prefix, target and text. The crate cuts the prefix at its first `!`, else
/// at its first `@`, and takes a prefix with neither for a nickname unless
/// it holds a `.`; the command plays no part.
#[verifier::external_body]
pub(crate) fn source_nickname(prefix: &Option<String>, target: &String, text: &String) -> (nickname:
    Option<String>)
    ensures
        text_of(nickname) == nickname_of(text_of(*prefix)),
{
    let message = irc::proto::Message {
        tags: None,
        prefix: prefix.clone(),
        command: irc::proto::Command::PRIVMSG(target.clone(), text.clone()),
    };
    message.source_nickname().map(String::from)
}

/// `irc::proto::Message::response_target` on the chat message with this
/// prefix, target and text. For a `PRIVMSG` the crate answers with the
/// target when that is a channel name, and with the source nickname
/// otherwise.
#[verifier::external_body]
pub(crate) fn response_target(prefix: &Option<String>, target: &String, text: &String) -> (place:
    Option<String>)
    ensures
        text_of(place) == response_target_of(text_of(*prefix), target@),
{
    let message = irc::proto::Message {
        tags: None,
        prefix: prefix.clone(),
        command: irc::proto::Command::PRIVMSG(target.clone(), text.clone()),
    };
    message.response_target().map(String::from)
}

} // verus!
