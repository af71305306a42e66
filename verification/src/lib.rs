//! Message normalisation and module dispatch for a chat bot.

pub mod addressing;
pub mod context;
pub mod ctcp;
pub mod dispatch;
pub mod flow;
pub mod module;
pub mod playground;
pub mod protocol;
pub mod reply;
pub mod text;

pub use context::Context;
pub use dispatch::{dispatch, run};
pub use flow::Flow;
pub use module::Module;
