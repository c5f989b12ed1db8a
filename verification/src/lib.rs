//! A call-context tracer: a stack of named scopes, entered and left in strict
//! last-in-first-out order, that can be copied out or rendered as a chain of
//! names at any point.

pub mod context;
pub mod stack;
pub mod mark;
pub mod laws;

pub use context::{Context, ContextView};
pub use stack::{ContextStack, get_context_stack, get_context_stack_chained_string};
pub use mark::Mark;
