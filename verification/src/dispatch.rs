//! The dispatcher: offers a message to the registered modules, in
//! registration order, until one of them breaks the chain.

use vstd::prelude::*;
use crate::context::{normalized, Context, ContextView};
use crate::flow::Flow;
use crate::module::Module;
use crate::ctcp::wrapped;
use crate::protocol::{Message, MessageView};
use crate::text::trimmed;

verus! {

/// The modules from index `from` on are as they were before: the dispatcher
/// has not invoked them.
pub open spec fn untouched_from(
    before: Seq<Box<dyn Module>>,
    after: Seq<Box<dyn Module>>,
    from: int,
) -> bool {
    &&& after.len() == before.len()
    &&& forall|j: int| from <= j < before.len() ==> after[j] == before[j]
}

/// The modules before index `to` have each been offered the message and
/// have passed it on.
pub open spec fn passed_on(before: Seq<Box<dyn Module>>, ctx: ContextView, to: int) -> bool {
    forall|i: int| 0 <= i < to ==> (#[trigger] before[i]).answers(ctx, Flow::Continue)
}

/// One dispatch cycle of `ctx` over the registry `before`, which leaves the
/// registry `after` and names `handler` as the module that broke the chain.
///
/// A CTCP message is offered to no module. Any other message is offered to
/// the modules in order: every module before the handler has passed it on,
/// the handler has answered `Break`, and no module after the handler has
/// been invoked. Without a handler every module has passed it on.
pub open spec fn dispatched(
    before: Seq<Box<dyn Module>>,
    after: Seq<Box<dyn Module>>,
    ctx: ContextView,
    handler: Option<usize>,
) -> bool {
    if ctx.is_ctcp {
        handler is None && untouched_from(before, after, 0)
    } else {
        match handler {
            Some(k) => {
                &&& k < before.len()
                &&& passed_on(before, ctx, k as int)
                &&& before[k as int].answers(ctx, Flow::Break)
                &&& untouched_from(before, after, k + 1)
            },
            None => {
                &&& passed_on(before, ctx, before.len() as int)
                &&& after.len() == before.len()
            },
        }
    }
}

/// The only answer that the `i`-th module gives to `ctx` is `flow`.
pub open spec fn always_answers(
    modules: Seq<Box<dyn Module>>,
    i: int,
    ctx: ContextView,
    flow: Flow,
) -> bool {
    forall|other: Flow| #[trigger] modules[i].answers(ctx, other) ==> other == flow
}

/// A message wrapped in CTCP delimiters is marked as CTCP by the normaliser
/// and then reaches no module: the dispatch cycle names no handler and
/// leaves the whole registry as it was.
pub proof fn lemma_ctcp_reaches_no_module(
    current_nickname: Seq<char>,
    message: MessageView,
    ctx: ContextView,
    before: Seq<Box<dyn Module>>,
    after: Seq<Box<dyn Module>>,
    handler: Option<usize>,
)
    requires
        normalized(current_nickname, message) == Some(ctx),
        wrapped(trimmed(message.text())),
        dispatched(before, after, ctx, handler),
    ensures
        ctx.is_ctcp,
        handler is None,
        untouched_from(before, after, 0),
{
}

/// Dispatch order: where every module before the `k`-th only ever passes
/// the message on and the `k`-th only ever breaks the chain, no module
/// after the `k`-th is invoked; and unless the message is CTCP, the `k`-th
/// is the handler.
pub proof fn lemma_chain_stops_at_first_break(
    before: Seq<Box<dyn Module>>,
    after: Seq<Box<dyn Module>>,
    ctx: ContextView,
    handler: Option<usize>,
    k: int,
)
    requires
        dispatched(before, after, ctx, handler),
        0 <= k < before.len(),
        forall|i: int| 0 <= i < k ==> #[trigger] always_answers(before, i, ctx, Flow::Continue),
        always_answers(before, k, ctx, Flow::Break),
    ensures
        untouched_from(before, after, k + 1),
        !ctx.is_ctcp ==> (handler matches Some(h) && h == k),
{
    if !ctx.is_ctcp {
        match handler {
            Some(h) => {
                if h < k {
                    assert(always_answers(before, h as int, ctx, Flow::Continue));
                } else if h > k {
                    assert(before[k].answers(ctx, Flow::Continue));
                }
            },
            None => {
                assert(before[k].answers(ctx, Flow::Continue));
            },
        }
    }
}

/// Runs one dispatch cycle: offers `ctx` to each module in registration
/// order and stops at the first that answers `Break`. Returns the index of
/// that module, or `None` when no module broke the chain.
pub fn dispatch(modules: &mut Vec<Box<dyn Module>>, ctx: &Context) -> (handler: Option<usize>)
    ensures
        dispatched(old(modules)@, final(modules)@, ctx@, handler),
{
    if ctx.is_ctcp() {
        return None;
    }
    let n = modules.len();
    let mut i: usize = 0;
    while i < n
        invariant
            i <= n,
            n == old(modules)@.len(),
            !ctx@.is_ctcp,
            passed_on(old(modules)@, ctx@, i as int),
            untouched_from(old(modules)@, modules@, i as int),
        decreases n - i,
    {
        let flow = modules[i].run(ctx.clone());
        if flow == Flow::Break {
            return Some(i);
        }
        i += 1;
    }
    None
}

/// Handles one inbound event: normalises it for a bot currently called
/// `current_nickname` and dispatches the context, if there is one.
pub fn run(modules: &mut Vec<Box<dyn Module>>, current_nickname: &str, message: &Message) -> (handler:
    Option<usize>)
    ensures
        match normalized(current_nickname@, message@) {
            Some(ctx) => dispatched(old(modules)@, final(modules)@, ctx, handler),
            None => handler is None && untouched_from(old(modules)@, final(modules)@, 0),
        },
{
    match Context::new(current_nickname, message) {
        Some(ctx) => dispatch(modules, &ctx),
        None => None,
    }
}

} // verus!
