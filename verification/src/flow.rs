//! The continuation signal a module hands back to the dispatcher.

use vstd::prelude::*;

verus! {

/// Whether the modules that follow are still offered the message.
#[derive(Clone, Copy, Debug, PartialEq, Eq, Structural)]
pub enum Flow {
    /// The message is handled: no further module runs.
    Break,
    /// The next module, if any, is offered the message.
    Continue,
}

} // verus!
