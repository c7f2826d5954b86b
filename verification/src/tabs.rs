//! Tab-row selection logic: which tab is active after this frame's click
//! events, independent of how the segments are painted.

use vstd::prelude::*;
use crate::timeline::TimelineTab;

verus! {

/// The selection after a frame: an activation of a valid segment moves the
/// selection there; anything else keeps the current one. With no tabs at
/// all the row is a no-op and the selection reads as 0.
pub open spec fn spec_select(selected: int, num_tabs: int, activated: Option<usize>) -> int {
    if num_tabs == 0 {
        0
    } else {
        match activated {
            Some(c) => if (c as int) < num_tabs {
                c as int
            } else {
                selected
            },
            None => selected,
        }
    }
}

/// Renders one frame of the tab row over `views` and returns the selection
/// that results from this frame's activation event, if any. The returned
/// index is always a valid tab position while any tab exists.
pub fn tabs_ui(selected: usize, views: &Vec<TimelineTab>, activated: Option<usize>) -> (new_sel:
    usize)
    requires
        views@.len() > 0 ==> selected < views@.len(),
    ensures
        new_sel as int == spec_select(selected as int, views@.len() as int, activated),
        views@.len() > 0 ==> new_sel < views@.len(),
{
    if views.len() == 0 {
        return 0;
    }
    match activated {
        Some(c) => if c < views.len() {
            c
        } else {
            selected
        },
        None => selected,
    }
}

} // verus!
