//! The guard that ties one entry of the stack to the scope that owns it.

use vstd::prelude::*;
use crate::context::{Context, ContextView};
use crate::stack::{ContextStack, entered, exited};

verus! {

/// The guard of one entered scope.
///
/// Making a guard enters the scope on a stack; releasing it leaves the scope
/// again. A guard is neither copied nor shared, so each entry of the stack is
/// left exactly once, and a guard can only be released while its own entry is
/// the innermost one.
pub struct Mark {
    depth: usize,
}

impl Mark {
    /// The number of scopes that were active when this guard's scope was
    /// entered: the position of its entry on the stack.
    pub closed spec fn spec_depth(&self) -> nat {
        self.depth as nat
    }

    /// Whether this guard's entry is the innermost one of a stack that holds
    /// `active` scopes, so that the guard can be released.
    pub open spec fn is_innermost(&self, active: nat) -> bool {
        active == self.spec_depth() + 1
    }

    /// Enters a scope on `stack`: pushes the record made of the four
    /// arguments and hands out the guard of that entry.
    pub fn new(
        stack: &mut ContextStack,
        name: &str,
        file_name: &str,
        line_no: u32,
        module_name: &str,
    ) -> (mark: Mark)
        ensures
            final(stack)@ == entered(
                old(stack)@,
                (ContextView {
                    name: name@,
                    file_name: file_name@,
                    line_no,
                    module_name: module_name@,
                }),
            ),
            mark.spec_depth() == old(stack)@.len(),
            mark.is_innermost(final(stack)@.len()),
    {
        let depth: usize = stack.len();
        stack.push(Context::new(name, file_name, line_no, module_name));
        Mark { depth }
    }

    /// The position of this guard's entry on the stack, counted from the
    /// outermost scope.
    pub fn depth(&self) -> (depth: usize)
        ensures
            depth == self.spec_depth(),
    {
        self.depth
    }

    /// Leaves the scope of this guard: pops its entry from `stack` and uses
    /// the guard up. Every scope entered after this one must have been left.
    pub fn release(self, stack: &mut ContextStack)
        requires
            self.is_innermost(old(stack)@.len()),
        ensures
            final(stack)@ == exited(old(stack)@),
            final(stack)@.len() == self.spec_depth(),
    {
        stack.pop();
    }
}

} // verus!
