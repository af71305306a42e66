//! The capability contract: what the dispatcher asks of a response handler.

use vstd::prelude::*;
use crate::context::{Context, ContextView};
use crate::flow::Flow;

verus! {

/// One bot capability. A module is offered a message, may reply to it, and
/// says whether the modules after it still get to see it.
///
/// A module keeps its own state between invocations and may fail inside; it
/// turns every failure into a reply or into a `Flow`, never into a fault of
/// the dispatcher.
pub trait Module {
    /// The answers that the module, in its present state, may give to a
    /// message. Each implementation says what it promises here; a module
    /// that promises nothing admits every answer.
    open spec fn answers(&self, ctx: ContextView, flow: Flow) -> bool {
        true
    }

    /// Offers `ctx` to the module. `Break` ends the dispatch cycle,
    /// `Continue` passes the message on to the next module.
    fn run(&mut self, ctx: Context) -> (flow: Flow)
        ensures
            old(self).answers(ctx@, flow),
    ;
}

} // verus!
