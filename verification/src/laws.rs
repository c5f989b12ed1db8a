//! What holds of every stack, whatever scopes are entered and left on it.

use vstd::prelude::*;
use crate::context::ContextView;
use crate::stack::{chain_of, entered, entered_all, exited};

verus! {

/// Entering scopes one inside the other appends their records to the stack
/// in the order in which they were entered.
pub proof fn lemma_entered_all_appends(stack: Seq<ContextView>, entries: Seq<ContextView>)
    ensures
        entered_all(stack, entries) == stack + entries,
    decreases entries.len(),
{
    if entries.len() == 0 {
        assert(stack + entries =~= stack);
    } else {
        lemma_entered_all_appends(stack, entries.drop_last());
        assert(entered(stack + entries.drop_last(), entries.last()) =~= stack + entries);
    }
}

/// Last in, first out: while scopes entered one inside the other on an empty
/// stack are all active, the stack holds their records in the order of entry,
/// oldest first; once the innermost of them has been left, it holds all but
/// the last.
pub proof fn lemma_nested_scopes_in_order(entries: Seq<ContextView>)
    ensures
        entered_all(Seq::<ContextView>::empty(), entries) == entries,
        entries.len() > 0 ==> exited(entered_all(Seq::<ContextView>::empty(), entries))
            == entries.take(entries.len() - 1),
{
    lemma_entered_all_appends(Seq::<ContextView>::empty(), entries);
    assert(Seq::<ContextView>::empty() + entries =~= entries);
    if entries.len() > 0 {
        assert(exited(entries) =~= entries.take(entries.len() - 1));
    }
}

/// Leaving a scope undoes entering it: once a scope has been left, by
/// whatever path, the stack is what it was before the scope was entered.
pub proof fn lemma_exit_restores_stack(stack: Seq<ContextView>, entry: ContextView)
    ensures
        exited(entered(stack, entry)) == stack,
{
    assert(exited(entered(stack, entry)) =~= stack);
}

/// Scopes entered on a stack leave the scopes below them as they were, and
/// leaving the innermost of them gives the stack on which only the others
/// were entered.
pub proof fn lemma_nested_scopes_keep_outer(stack: Seq<ContextView>, entries: Seq<ContextView>)
    ensures
        entered_all(stack, entries).take(stack.len() as int) == stack,
        entries.len() > 0 ==> exited(entered_all(stack, entries)) == entered_all(
            stack,
            entries.drop_last(),
        ),
{
    lemma_entered_all_appends(stack, entries);
    assert((stack + entries).take(stack.len() as int) =~= stack);
}

/// The chain of a stack on which no scope is active is the empty string.
pub proof fn lemma_chain_of_empty(separator: Seq<char>)
    ensures
        chain_of(Seq::<ContextView>::empty(), separator) == Seq::<char>::empty(),
{
}

/// Entering a scope appends the separator and the scope's name to the chain.
pub proof fn lemma_chain_of_entered(
    stack: Seq<ContextView>,
    entry: ContextView,
    separator: Seq<char>,
)
    ensures
        chain_of(entered(stack, entry), separator) == chain_of(stack, separator) + separator
            + entry.name,
{
    assert(entered(stack, entry).drop_last() =~= stack);
}

} // verus!
