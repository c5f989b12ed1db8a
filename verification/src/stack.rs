//! The stack of active scopes, outermost first, and the queries over it.

use vstd::prelude::*;
use vstd::string::StringExecFns;
use crate::context::{Context, ContextView, views_of};

verus! {

/// The stack after a scope described by `entry` has been entered on `stack`.
pub open spec fn entered(stack: Seq<ContextView>, entry: ContextView) -> Seq<ContextView> {
    stack.push(entry)
}

/// The stack after the innermost scope of `stack` has been left.
pub open spec fn exited(stack: Seq<ContextView>) -> Seq<ContextView>
    recommends
        stack.len() > 0,
{
    stack.drop_last()
}

/// The stack after the scopes of `entries` have been entered on `stack` one
/// inside the other, the first of them outermost.
pub open spec fn entered_all(stack: Seq<ContextView>, entries: Seq<ContextView>) -> Seq<
    ContextView,
>
    decreases entries.len(),
{
    if entries.len() == 0 {
        stack
    } else {
        entered(entered_all(stack, entries.drop_last()), entries.last())
    }
}

/// The separator that stands before each name of a chain: the one given, or
/// `>` where none is given.
pub open spec fn separator_of(chain: Option<&str>) -> Seq<char> {
    match chain {
        Some(separator) => separator@,
        None => seq!['>'],
    }
}

/// The chain of a stack: for each scope from the outermost to the innermost,
/// the separator followed by the scope's name. The chain of the empty stack is
/// the empty string.
pub open spec fn chain_of(stack: Seq<ContextView>, separator: Seq<char>) -> Seq<char>
    decreases stack.len(),
{
    if stack.len() == 0 {
        Seq::<char>::empty()
    } else {
        chain_of(stack.drop_last(), separator) + separator + stack.last().name
    }
}

/// The active scopes of one thread of execution, outermost first.
///
/// The stack grows by one record when a scope is entered and shrinks by one
/// when the innermost scope is left; nothing else changes it.
pub struct ContextStack {
    entries: Vec<Context>,
}

impl View for ContextStack {
    type V = Seq<ContextView>;

    closed spec fn view(&self) -> Seq<ContextView> {
        views_of(self.entries@)
    }
}

impl ContextStack {
    /// A stack on which no scope has been entered.
    pub fn new() -> (stack: ContextStack)
        ensures
            stack@ == Seq::<ContextView>::empty(),
    {
        let stack = ContextStack { entries: Vec::new() };
        assert(stack@ =~= Seq::<ContextView>::empty());
        stack
    }

    /// The number of active scopes.
    pub fn len(&self) -> (n: usize)
        ensures
            n == self@.len(),
    {
        self.entries.len()
    }

    /// Whether no scope is active.
    pub fn is_empty(&self) -> (empty: bool)
        ensures
            empty == (self@.len() == 0),
    {
        self.entries.len() == 0
    }

    /// Appends `ctx` as the new innermost scope.
    pub fn push(&mut self, ctx: Context)
        ensures
            final(self)@ == entered(old(self)@, ctx@),
    {
        self.entries.push(ctx);
        assert(self@ =~= entered(old(self)@, ctx@));
    }

    /// Removes the innermost scope. The stack must hold one: leaving a scope
    /// that was never entered is a defect of the caller.
    pub fn pop(&mut self)
        requires
            old(self)@.len() > 0,
        ensures
            final(self)@ == exited(old(self)@),
    {
        let _ = self.entries.pop();
        assert(self@ =~= exited(old(self)@));
    }
}

/// A copy of the scopes that are active on `stack`, outermost first. Later
/// changes of the stack do not reach the copy.
pub fn get_context_stack(stack: &ContextStack) -> (contexts: Vec<Context>)
    ensures
        views_of(contexts@) == stack@,
        contexts@.len() == stack@.len(),
        forall|i: int| 0 <= i < contexts@.len() ==> (#[trigger] contexts@[i])@ == stack@[i],
{
    let mut contexts: Vec<Context> = Vec::new();
    let mut i: usize = 0;
    while i < stack.entries.len()
        invariant
            i <= stack.entries.len(),
            contexts.len() == i,
            forall|k: int| 0 <= k < i ==> (#[trigger] contexts@[k])@ == stack.entries@[k]@,
        decreases stack.entries.len() - i,
    {
        contexts.push(stack.entries[i].clone());
        i += 1;
    }
    assert(views_of(contexts@) =~= stack@);
    contexts
}

/// The chain of the scopes that are active on `stack`: before each name, from
/// the outermost scope to the innermost, stands `chain`, or `>` where `chain`
/// is `None`.
pub fn get_context_stack_chained_string(stack: &ContextStack, chain: Option<&str>) -> (chained:
    String)
    ensures
        chained@ == chain_of(stack@, separator_of(chain)),
{
    let separator: &str = match chain {
        Some(separator) => separator,
        None => {
            proof {
                reveal_strlit(">");
                assert(">"@ =~= seq!['>']);
            }
            ">"
        },
    };
    let mut chained = String::new();
    let mut i: usize = 0;
    assert(stack@.take(0) =~= Seq::<ContextView>::empty());
    while i < stack.entries.len()
        invariant
            i <= stack.entries.len(),
            stack@.len() == stack.entries.len(),
            chained@ == chain_of(stack@.take(i as int), separator@),
        decreases stack.entries.len() - i,
    {
        chained.append(separator);
        chained.append(stack.entries[i].name.as_str());
        proof {
            let longer = stack@.take(i + 1);
            assert(longer.drop_last() =~= stack@.take(i as int));
            assert(longer.last().name == stack.entries@[i as int].name@);
        }
        i += 1;
    }
    assert(stack@.take(i as int) =~= stack@);
    chained
}

} // verus!
