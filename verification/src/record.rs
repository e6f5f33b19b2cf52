//! The greeting record.

use vstd::prelude::*;

verus! {

/// A greeting: one text field.
///
/// A record is a plain value that its provider fills in. Its view is the text
/// it carries.
#[derive(Debug, PartialEq, Eq)]
pub struct GreetingRecord {
    pub greeting: String,
}

impl View for GreetingRecord {
    type V = Seq<char>;

    open spec fn view(&self) -> Seq<char> {
        self.greeting@
    }
}

} // verus!
