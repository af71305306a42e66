use ircbot::protocol::{Command, Message};
use ircbot::reply::ReplyStrategy;
use ircbot::Context;

fn privmsg(prefix: Option<&str>, target: &str, text: &str) -> Message {
    Message {
        prefix: prefix.map(String::from),
        command: Command::Privmsg { target: target.to_owned(), text: text.to_owned() },
    }
}

fn context(nickname: &str, prefix: &str, target: &str, text: &str) -> Context {
    Context::new(nickname, &privmsg(Some(prefix), target, text)).expect("a chat message")
}

#[test]
fn channel_message_with_prefix_is_addressed_and_stripped() {
    let ctx = context("bot", "alice!a@example.org", "#chan", "bot: hello");
    assert_eq!(ctx.body(), "hello");
    assert!(ctx.is_directly_addressed());
    assert!(!ctx.is_ctcp());
    assert_eq!(ctx.reply_strategy(), ReplyStrategy::Notice);
    assert_eq!(ctx.target(), "#chan");
}

#[test]
fn private_message_is_addressed_without_prefix() {
    let ctx = context("bot", "alice!a@example.org", "bot", "hello");
    assert_eq!(ctx.body(), "hello");
    assert!(ctx.is_directly_addressed());
    assert_eq!(ctx.reply_strategy(), ReplyStrategy::DirectMessage);
    assert_eq!(ctx.target(), "alice");
}

#[test]
fn nickname_as_start_of_a_word_does_not_address() {
    let ctx = context("bot", "alice!a@example.org", "#chan", "botnet is great");
    assert!(!ctx.is_directly_addressed());
    assert_eq!(ctx.body(), "botnet is great");
}

#[test]
fn bare_nickname_in_private_is_not_addressed() {
    let ctx = context("bot", "alice!a@example.org", "bot", "botnet is great");
    assert!(!ctx.is_directly_addressed());
    assert_eq!(ctx.body(), "botnet is great");
    assert_eq!(ctx.reply_strategy(), ReplyStrategy::DirectMessage);
}

#[test]
fn ctcp_version_is_marked_and_unwrapped() {
    let ctx = context("bot", "alice!a@example.org", "bot", "\u{1}VERSION\u{1}");
    assert!(ctx.is_ctcp());
    assert_eq!(ctx.body(), "VERSION");
}

#[test]
fn ctcp_is_detected_after_trimming() {
    let ctx = context("bot", "alice!a@example.org", "#chan", "  \u{1}PING 42\u{1}\r\n");
    assert!(ctx.is_ctcp());
    assert_eq!(ctx.body(), "PING 42");
    assert!(!ctx.body().contains('\u{1}'));
}

#[test]
fn ctcp_payload_is_not_trimmed_again() {
    let ctx = context("bot", "alice!a@example.org", "#chan", "\u{1} ACTION waves \u{1}");
    assert!(ctx.is_ctcp());
    assert_eq!(ctx.body(), " ACTION waves ");
}

#[test]
fn addressing_is_resolved_inside_ctcp() {
    let ctx = context("bot", "alice!a@example.org", "#chan", "\u{1}bot, ACTION\u{1}");
    assert!(ctx.is_ctcp());
    assert!(ctx.is_directly_addressed());
    assert_eq!(ctx.body(), "ACTION");
}

#[test]
fn inner_delimiter_stays_in_ctcp_body() {
    let ctx = context("bot", "alice!a@example.org", "#chan", "\u{1}A\u{1}B\u{1}");
    assert!(ctx.is_ctcp());
    assert_eq!(ctx.body(), "A\u{1}B");
}

#[test]
fn single_delimiter_is_not_ctcp() {
    let ctx = context("bot", "alice!a@example.org", "#chan", "\u{1}");
    assert!(!ctx.is_ctcp());
    assert_eq!(ctx.body(), "\u{1}");
}

#[test]
fn two_delimiters_wrap_an_empty_body() {
    let ctx = context("bot", "alice!a@example.org", "#chan", "\u{1}\u{1}");
    assert!(ctx.is_ctcp());
    assert_eq!(ctx.body(), "");
}

#[test]
fn one_sided_delimiter_is_not_ctcp() {
    let ctx = context("bot", "alice!a@example.org", "#chan", "\u{1}VERSION");
    assert!(!ctx.is_ctcp());
    assert_eq!(ctx.body(), "\u{1}VERSION");
}

#[test]
fn text_is_trimmed_on_both_sides() {
    let ctx = context("bot", "alice!a@example.org", "#chan", " \t hello world \r\n");
    assert_eq!(ctx.body(), "hello world");
    assert!(!ctx.is_directly_addressed());
}

#[test]
fn other_events_are_filtered_out() {
    let message = Message { prefix: Some("alice!a@example.org".to_owned()), command: Command::Other };
    assert!(Context::new("bot", &message).is_none());
}

#[test]
fn message_without_prefix_is_filtered_out() {
    assert!(Context::new("bot", &privmsg(None, "#chan", "bot: hello")).is_none());
}

#[test]
fn message_from_a_server_is_filtered_out() {
    assert!(Context::new("bot", &privmsg(Some("irc.example.org"), "#chan", "bot: hello")).is_none());
}

#[test]
fn source_nickname_ends_at_the_exclamation_mark() {
    let ctx = context("bot", "alice!a@example.org", "#chan", "hi");
    assert_eq!(ctx.source(), "alice!a@example.org");
    assert_eq!(ctx.source_nickname(), "alice");
}

#[test]
fn source_nickname_ends_at_the_at_sign() {
    let ctx = context("bot", "alice@example.org", "#chan", "hi");
    assert_eq!(ctx.source(), "alice@example.org");
    assert_eq!(ctx.source_nickname(), "alice");
}

#[test]
fn exclamation_mark_wins_over_an_earlier_at_sign() {
    let ctx = context("bot", "al@ice!a", "#chan", "hi");
    assert_eq!(ctx.source_nickname(), "al@ice");
}

#[test]
fn plain_prefix_is_the_nickname() {
    let ctx = context("bot", "alice", "#chan", "hi");
    assert_eq!(ctx.source(), "alice");
    assert_eq!(ctx.source_nickname(), "alice");
}

#[test]
fn reply_target_of_a_private_message_is_the_sender() {
    let ctx = context("bot", "alice!a@example.org", "bot", "hi");
    assert_eq!(ctx.target(), "alice");
    assert_eq!(ctx.target(), ctx.source_nickname());
}

#[test]
fn reply_target_of_a_channel_message_is_the_channel() {
    for channel in ["#rust", "&local", "+modeless", "!safe"] {
        let ctx = context("bot", "alice!a@example.org", channel, "hi");
        assert_eq!(ctx.target(), channel);
        assert_eq!(ctx.reply_strategy(), ReplyStrategy::Notice);
        assert!(!ctx.is_directly_addressed());
    }
}

#[test]
fn sender_named_like_a_channel_gets_a_notice() {
    let ctx = context("bot", "#odd!a@example.org", "bot", "hi");
    assert_eq!(ctx.target(), "#odd");
    assert_eq!(ctx.reply_strategy(), ReplyStrategy::Notice);
    assert!(!ctx.is_directly_addressed());
}

#[test]
fn current_nickname_is_kept_as_given() {
    let ctx = context("ferris", "alice!a@example.org", "#chan", "ferris, status");
    assert_eq!(ctx.current_nickname(), "ferris");
    assert_eq!(ctx.body(), "status");
}

#[test]
fn private_targets_are_addressed_whatever_the_body() {
    for text in ["", "hello", ": x", "  spaced  ", "someone: hi", "b", "bo", "\u{1}VERSION\u{1}"] {
        let ctx = context("bot", "alice!a@example.org", "bot", text);
        assert!(ctx.is_directly_addressed(), "{:?}", text);
        assert_eq!(ctx.reply_strategy(), ReplyStrategy::DirectMessage);
    }
}

#[test]
fn channel_targets_are_addressed_only_by_prefix() {
    let addressed = ["bot: hi", "bot, hi", "bot:hi", "bot  :  hi", "bot:", "bot ,", "bot\t: hi"];
    let ambient = ["hi bot", "bot hi", "bot", "Bot: hi", "bot; hi", " : hi", "bo: hi", "botty: hi", ""];
    for text in addressed {
        let ctx = context("bot", "alice!a@example.org", "#chan", text);
        assert!(ctx.is_directly_addressed(), "{:?}", text);
        assert_eq!(ctx.reply_strategy(), ReplyStrategy::Notice);
    }
    for text in ambient {
        let ctx = context("bot", "alice!a@example.org", "#chan", text);
        assert!(!ctx.is_directly_addressed(), "{:?}", text);
        assert_eq!(ctx.body(), text.trim());
        assert_eq!(ctx.reply_strategy(), ReplyStrategy::Notice);
    }
}

#[test]
fn renormalizing_a_stripped_body_is_not_addressed() {
    let first = context("bot", "alice!a@example.org", "#chan", "bot: what is new");
    assert!(first.is_directly_addressed());
    let again = context("bot", "alice!a@example.org", "#chan", first.body());
    assert!(!again.is_directly_addressed());
    assert_eq!(again.body(), first.body());
}

#[test]
fn a_second_prefix_is_resolved_on_its_own() {
    let first = context("bot", "alice!a@example.org", "#chan", "bot: bot: twice");
    assert_eq!(first.body(), "bot: twice");
    let again = context("bot", "alice!a@example.org", "#chan", first.body());
    assert!(again.is_directly_addressed());
    assert_eq!(again.body(), "twice");
}

#[test]
fn only_one_mark_is_taken_off() {
    let ctx = context("bot", "alice!a@example.org", "#chan", "bot:: hi");
    assert!(ctx.is_directly_addressed());
    assert_eq!(ctx.body(), ": hi");
}

#[test]
fn empty_nickname_is_a_prefix_of_every_body() {
    let marked = context("", "alice!a@example.org", "alice", ": hi");
    assert!(marked.is_directly_addressed());
    assert_eq!(marked.body(), "hi");
    let plain = context("", "alice!a@example.org", "bot", "hi");
    assert!(!plain.is_directly_addressed());
    assert_eq!(plain.body(), "hi");
}

#[test]
fn unicode_text_is_handled_by_character() {
    let ctx = context("bøt", "alice!a@example.org", "#chan", "\u{3000}bøt\u{a0}:\u{2003}héllo wörld\u{2028}");
    assert!(ctx.is_directly_addressed());
    assert_eq!(ctx.body(), "héllo wörld");
}

#[test]
fn reply_carries_strategy_target_and_text() {
    let channel = context("bot", "alice!a@example.org", "#chan", "bot: hello");
    let reply = channel.reply("hi alice");
    assert_eq!(reply.strategy, ReplyStrategy::Notice);
    assert_eq!(reply.target, "#chan");
    assert_eq!(reply.text, "hi alice");

    let private = context("bot", "alice!a@example.org", "bot", "hello");
    let reply = private.reply("hi");
    assert_eq!(reply.strategy, ReplyStrategy::DirectMessage);
    assert_eq!(reply.target, "alice");
    assert_eq!(reply.text, "hi");
}

#[test]
fn clone_keeps_every_field() {
    let ctx = context("bot", "alice!a@example.org", "#chan", "\u{1}bot: ACTION\u{1}");
    let copy = ctx.clone();
    assert_eq!(copy.body(), ctx.body());
    assert_eq!(copy.is_directly_addressed(), ctx.is_directly_addressed());
    assert_eq!(copy.is_ctcp(), ctx.is_ctcp());
    assert_eq!(copy.reply_strategy(), ctx.reply_strategy());
    assert_eq!(copy.source(), ctx.source());
    assert_eq!(copy.source_nickname(), ctx.source_nickname());
    assert_eq!(copy.target(), ctx.target());
    assert_eq!(copy.current_nickname(), ctx.current_nickname());
}

#[test]
fn sender_and_target_agree_with_the_protocol_crate() {
    let prefixes = [
        "alice!a@example.org",
        "alice@example.org",
        "alice",
        "irc.example.org",
        "al.ice!a@example.org",
        "al@ice!a",
        "#odd!a@example.org",
        "",
        "!",
        "@",
        "é!ü@ö",
    ];
    let targets = ["#chan", "&chan", "+chan", "!chan", "bot", "", "a#b"];
    for prefix in prefixes {
        for target in targets {
            let wire = irc::proto::Message {
                tags: None,
                prefix: Some(prefix.to_owned()),
                command: irc::proto::Command::PRIVMSG(target.to_owned(), "hi".to_owned()),
            };
            let ctx = Context::new("bot", &privmsg(Some(prefix), target, "hi"));
            assert_eq!(ctx.is_some(), wire.source_nickname().is_some(), "{:?}", prefix);
            if let Some(ctx) = ctx {
                assert_eq!(Some(ctx.source_nickname()), wire.source_nickname());
                assert_eq!(Some(ctx.target()), wire.response_target());
                assert_eq!(ctx.source(), prefix);
            }
        }
    }
}
