//! The timeline data model: item references, per-filter tabs, and the set of
//! timelines a column host knows about.

use vstd::prelude::*;
use crate::filter::ViewFilter;
use crate::list::ListState;

verus! {

/// A stable reference to one feed item: its record key and its 0-based
/// position in the tab's sequence. The position never changes with the
/// display direction.
#[derive(Clone, Copy, PartialEq, Eq, Structural, Debug)]
pub struct ItemRef {
    /// Key of the record in the external store.
    pub key: u64,
    /// Position of the item in the tab's append-ordered sequence.
    pub index: usize,
}

/// One tab of a timeline: an append-ordered item sequence, the filter it
/// shows, and the scroll state that survives across frames.
pub struct TimelineTab {
    pub notes: Vec<ItemRef>,
    pub filter: ViewFilter,
    pub list: ListState,
}

impl TimelineTab {
    /// The standing invariant: each item records its own position, which
    /// stays stable whatever the display direction.
    pub open spec fn wf(&self) -> bool {
        forall|k: int| 0 <= k < self.notes@.len() ==> #[trigger] self.notes@[k].index == k
    }

    /// An empty tab for the given filter.
    pub fn new(filter: ViewFilter, default_row_height: u32) -> (r: TimelineTab)
        ensures
            r.notes@.len() == 0,
            r.wf(),
            r.filter == filter,
            r.list.heights@.len() == 0,
            r.list.default_height == default_row_height,
            r.list.scroll_offset == 0,
            r.list.viewport_height == 0,
            !r.list.in_layout,
    {
        TimelineTab { notes: Vec::new(), filter, list: ListState::new(default_row_height) }
    }

    /// Appends an item to the end of the sequence.
    pub fn push_note(&mut self, key: u64)
        requires
            old(self).notes@.len() < usize::MAX,
        ensures
            final(self).notes@ == old(self).notes@.push(
                (ItemRef { key, index: old(self).notes@.len() as usize }),
            ),
            old(self).wf() ==> final(self).wf(),
            final(self).filter == old(self).filter,
            final(self).list == old(self).list,
    {
        let index = self.notes.len();
        self.notes.push(ItemRef { key, index });
    }
}

/// A timeline: a fixed small set of tabs, exactly one of them selected.
pub struct Timeline {
    /// Identity the host uses to find this timeline.
    pub id: u64,
    /// One tab per subscribed filter; never empty.
    pub views: Vec<TimelineTab>,
    /// Index of the active tab.
    pub selected_view: usize,
}

impl Timeline {
    /// The standing invariant: there is at least one tab and the selection
    /// points at one of them.
    pub open spec fn wf(&self) -> bool {
        self.views@.len() > 0 && self.selected_view < self.views@.len()
    }

    /// A timeline over the given tabs, with the first tab selected.
    pub fn new(id: u64, views: Vec<TimelineTab>) -> (r: Timeline)
        requires
            views@.len() > 0,
        ensures
            r.id == id,
            r.views == views,
            r.selected_view == 0,
            r.wf(),
    {
        Timeline { id, views, selected_view: 0 }
    }

    /// The active tab.
    pub fn current_view(&self) -> (r: &TimelineTab)
        requires
            self.wf(),
        ensures
            r == self.views@[self.selected_view as int],
    {
        &self.views[self.selected_view]
    }
}

/// Whether position `i` holds the first timeline with identity `id`.
pub open spec fn spec_found_at(timelines: Seq<Timeline>, id: u64, i: int) -> bool {
    &&& 0 <= i < timelines.len()
    &&& timelines[i].id == id
    &&& forall|j: int| 0 <= j < i ==> timelines[j].id != id
}

/// Position of the first timeline with identity `id`, if any.
pub open spec fn spec_find_timeline(timelines: Seq<Timeline>, id: u64) -> Option<int> {
    if exists|i: int| spec_found_at(timelines, id, i) {
        Some(choose|i: int| spec_found_at(timelines, id, i))
    } else {
        None
    }
}

/// At most one position can hold the first match.
pub proof fn lemma_found_at_unique(timelines: Seq<Timeline>, id: u64, i: int, j: int)
    requires
        spec_found_at(timelines, id, i),
        spec_found_at(timelines, id, j),
    ensures
        i == j,
{
}

/// The timelines of all columns the host renders.
pub struct Columns {
    pub timelines: Vec<Timeline>,
}

impl Columns {
    pub fn new() -> (r: Columns)
        ensures
            r.timelines@.len() == 0,
    {
        Columns { timelines: Vec::new() }
    }

    pub fn push_timeline(&mut self, timeline: Timeline)
        requires
            old(self).timelines@.len() < usize::MAX,
        ensures
            final(self).timelines@ == old(self).timelines@.push(timeline),
    {
        self.timelines.push(timeline);
    }

    /// Position of the first timeline with the given identity, or `None`
    /// when the host knows no such timeline.
    pub fn find_timeline(&self, id: u64) -> (r: Option<usize>)
        ensures
            match r {
                Some(i) => spec_find_timeline(self.timelines@, id) == Some(i as int),
                None => spec_find_timeline(self.timelines@, id) is None,
            },
    {
        let n = self.timelines.len();
        let mut i: usize = 0;
        while i < n
            invariant
                0 <= i <= n,
                n == self.timelines@.len(),
                forall|j: int| 0 <= j < i ==> self.timelines@[j].id != id,
            decreases n - i,
        {
            if self.timelines[i].id == id {
                proof {
                    assert(spec_found_at(self.timelines@, id, i as int));
                    let w = choose|k: int| spec_found_at(self.timelines@, id, k);
                    lemma_found_at_unique(self.timelines@, id, w, i as int);
                }
                return Some(i);
            }
            i = i + 1;
        }
        proof {
            if exists|k: int| spec_found_at(self.timelines@, id, k) {
                let w = choose|k: int| spec_found_at(self.timelines@, id, k);
                assert(self.timelines@[w].id != id);
            }
        }
        None
    }
}

} // verus!
