//! The record that describes one active scope.

use vstd::prelude::*;

verus! {

/// One active scope: its name and the place in the source where it was entered.
///
/// A record is filled once, when its scope is entered, and only read afterwards.
#[derive(Debug)]
pub struct Context {
    /// The name the caller gave to the scope.
    pub name: String,
    /// The source file in which the scope was entered.
    pub file_name: String,
    /// The line at which the scope was entered.
    pub line_no: u32,
    /// The module path of the code that entered the scope.
    pub module_name: String,
}

/// The mathematical value of a [`Context`]: its four fields, the strings as
/// sequences of characters.
pub ghost struct ContextView {
    pub name: Seq<char>,
    pub file_name: Seq<char>,
    pub line_no: u32,
    pub module_name: Seq<char>,
}

impl View for Context {
    type V = ContextView;

    open spec fn view(&self) -> ContextView {
        ContextView {
            name: self.name@,
            file_name: self.file_name@,
            line_no: self.line_no,
            module_name: self.module_name@,
        }
    }
}

impl Clone for Context {
    /// A copy with the same four fields.
    fn clone(&self) -> (copy: Self)
        ensures
            copy@ == self@,
    {
        Context {
            name: self.name.clone(),
            file_name: self.file_name.clone(),
            line_no: self.line_no,
            module_name: self.module_name.clone(),
        }
    }
}

impl Context {
    /// Builds the record of a scope from its name and origin.
    pub fn new(name: &str, file_name: &str, line_no: u32, module_name: &str) -> (ctx: Context)
        ensures
            ctx@ == (ContextView {
                name: name@,
                file_name: file_name@,
                line_no,
                module_name: module_name@,
            }),
    {
        Context {
            name: name.to_owned(),
            file_name: file_name.to_owned(),
            line_no,
            module_name: module_name.to_owned(),
        }
    }
}

/// The values of a sequence of records, in the same order.
pub open spec fn views_of(contexts: Seq<Context>) -> Seq<ContextView> {
    contexts.map_values(|c: Context| c@)
}

} // verus!
