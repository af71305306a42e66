//! Reply routing: which outbound mechanism answers a message, and the
//! outbound line itself.

use vstd::prelude::*;
use crate::protocol::{channel_name, is_channel_name};

verus! {

/// The outbound mechanism a reply is sent with.
#[derive(Clone, Copy, Debug, PartialEq, Eq, Structural)]
pub enum ReplyStrategy {
    /// A notice, for replies into a channel.
    Notice,
    /// An ordinary chat message, for replies to one user.
    DirectMessage,
}

/// The strategy bound to a reply target: a notice for a channel, a direct
/// message for anything else.
pub open spec fn strategy_for(target: Seq<char>) -> ReplyStrategy {
    if is_channel_name(target) {
        ReplyStrategy::Notice
    } else {
        ReplyStrategy::DirectMessage
    }
}

impl ReplyStrategy {
    /// Classifies `target` as a channel or a user and picks the strategy
    /// that goes with it.
    pub fn for_target(target: &str) -> (strategy: ReplyStrategy)
        ensures
            strategy == strategy_for(target@),
    {
        if channel_name(target) {
            ReplyStrategy::Notice
        } else {
            ReplyStrategy::DirectMessage
        }
    }

    /// True exactly for `Notice`.
    pub fn is_notice(&self) -> (notice: bool)
        ensures
            notice == (*self == ReplyStrategy::Notice),
    {
        matches!(self, ReplyStrategy::Notice)
    }
}

/// One outbound reply, ready to be sent: the connection applies `strategy`
/// to `target` and `text` as they stand.
#[derive(Debug)]
pub struct Reply {
    pub strategy: ReplyStrategy,
    pub target: String,
    pub text: String,
}

/// The mathematical view of a [`Reply`].
pub ghost struct ReplyView {
    pub strategy: ReplyStrategy,
    pub target: Seq<char>,
    pub text: Seq<char>,
}

impl View for Reply {
    type V = ReplyView;

    open spec fn view(&self) -> ReplyView {
        ReplyView { strategy: self.strategy, target: self.target@, text: self.text@ }
    }
}

} // verus!
