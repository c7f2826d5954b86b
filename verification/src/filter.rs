//! The closed set of content filters a timeline can show, one tab each.

use vstd::prelude::*;

verus! {

/// Which slice of the feed a tab shows.
#[derive(Clone, Copy, PartialEq, Eq, Structural, Debug)]
pub enum ViewFilter {
    Notes,
    NotesAndReplies,
}

impl ViewFilter {
    /// The display label of the tab segment for this filter.
    pub fn name(&self) -> (r: &'static str)
        ensures
            *self is Notes ==> r@ == "Notes"@,
            *self is NotesAndReplies ==> r@ == "Notes & Replies"@,
    {
        match self {
            ViewFilter::Notes => "Notes",
            ViewFilter::NotesAndReplies => "Notes & Replies",
        }
    }
}

} // verus!
