//! Per-frame rendering decisions: which rows of the active tab are visited,
//! what each row consumes and paints, and which action a frame returns.
//!
//! The frame's collaborators — record store, mute predicate, item renderer —
//! report what they did for each item as a [`RowEvent`]; everything that is
//! decided from those reports is verified here.

use vstd::prelude::*;
use crate::list::{ListState, spec_first_visible, spec_end_visible};
use crate::logical_index;
use crate::spec_logical_index;
use crate::tabs::tabs_ui;
use crate::tabs::spec_select;
use crate::timeline::{Columns, Timeline, TimelineTab, spec_find_timeline, spec_found_at};

verus! {

/// An opaque token for a user action an item renderer handed back; the view
/// only forwards it, it never looks inside.
#[derive(Clone, Copy, PartialEq, Eq, Structural, Debug)]
pub struct NoteAction {
    pub id: u64,
}

/// What the frame's collaborators did for the item at one logical index.
#[derive(Clone, Copy, PartialEq, Eq, Debug)]
pub enum RowEvent {
    /// The record store could not resolve the item's key: the row is skipped
    /// and reserves no space this frame.
    ResolveFailed,
    /// The record resolved but the mute predicate suppressed it: nothing is
    /// painted, yet the row keeps its slot so indices stay aligned.
    Muted,
    /// The record resolved, was not muted, and was rendered; the renderer
    /// may have handed back an action.
    Rendered { action: Option<NoteAction> },
}

/// How many row slots the item's display position occupies this frame.
pub open spec fn spec_rows_consumed(ev: RowEvent) -> int {
    match ev {
        RowEvent::ResolveFailed => 0,
        RowEvent::Muted => 1,
        RowEvent::Rendered { .. } => 1,
    }
}

/// Total slots consumed by the first `count` visited display positions,
/// starting at `first`, with `events` indexed by logical index.
pub open spec fn spec_consumed(
    events: Seq<RowEvent>,
    first: int,
    count: int,
    len: int,
    reversed: bool,
) -> int
    decreases count,
{
    if count <= 0 {
        0
    } else {
        spec_consumed(events, first, count - 1, len, reversed) + spec_rows_consumed(
            events[spec_logical_index(first + count - 1, len, reversed)],
        )
    }
}

/// The action the frame returns: the action of the last visited row that
/// yielded one — later rows overwrite earlier ones, never the other way.
pub open spec fn spec_action(
    events: Seq<RowEvent>,
    first: int,
    count: int,
    len: int,
    reversed: bool,
) -> Option<NoteAction>
    decreases count,
{
    if count <= 0 {
        None
    } else {
        match events[spec_logical_index(first + count - 1, len, reversed)] {
            RowEvent::Rendered { action: Some(a) } => Some(a),
            _ => spec_action(events, first, count - 1, len, reversed),
        }
    }
}

/// The logical indices painted by the first `count` visited display
/// positions, in visit order.
pub open spec fn spec_painted(
    events: Seq<RowEvent>,
    first: int,
    count: int,
    len: int,
    reversed: bool,
) -> Seq<int>
    decreases count,
{
    if count <= 0 {
        Seq::empty()
    } else {
        let prefix = spec_painted(events, first, count - 1, len, reversed);
        let ind = spec_logical_index(first + count - 1, len, reversed);
        if events[ind] is Rendered {
            prefix.push(ind)
        } else {
            prefix
        }
    }
}

/// What one render pass over the visible rows produced.
pub struct ShowResult {
    /// The last non-empty action among the visited rows, if any.
    pub action: Option<NoteAction>,
    /// Total row slots the visited positions consumed.
    pub rows_consumed: usize,
    /// Logical indices that were painted, in visit order.
    pub painted: Vec<usize>,
}

/// One tab's render pass for one frame: visits the display positions that
/// intersect the viewport in increasing order and folds the per-row events
/// into the frame's result.
pub struct TimelineTabView<'a> {
    pub tab: &'a TimelineTab,
    pub reversed: bool,
}

impl<'a> TimelineTabView<'a> {
    pub fn new(tab: &'a TimelineTab, reversed: bool) -> (r: Self)
        ensures
            r.tab == tab,
            r.reversed == reversed,
    {
        TimelineTabView { tab, reversed }
    }

    /// The record key of the item shown at display position `start_index`.
    pub fn row_key(&self, start_index: usize) -> (key: u64)
        requires
            start_index < self.tab.notes@.len(),
        ensures
            key == self.tab.notes@[spec_logical_index(
                start_index as int,
                self.tab.notes@.len() as int,
                self.reversed,
            )].key,
    {
        let ind = logical_index(start_index, self.tab.notes.len(), self.reversed);
        self.tab.notes[ind].key
    }

    /// Renders the visible window of the tab's sequence. `events` reports,
    /// by logical index, what the collaborators did for each item; only the
    /// events of visited positions matter. A row that failed to resolve
    /// consumes no slot, a muted row consumes its slot unpainted, a rendered
    /// row consumes its slot, and the frame's action is the last one any
    /// visited row yielded.
    pub fn show(&self, events: &Vec<RowEvent>) -> (res: ShowResult)
        requires
            events@.len() == self.tab.notes@.len(),
            self.tab.notes@.len() <= 0xffff_ffff,
            self.tab.list.scroll_offset as int + self.tab.list.viewport_height as int
                <= u64::MAX as int,
            !self.tab.list.in_layout,
        ensures
            ({
                let len = self.tab.notes@.len() as int;
                let first = spec_first_visible(self.tab.list, len, 0);
                let count = spec_end_visible(self.tab.list, len, first) - first;
                &&& res.rows_consumed as int == spec_consumed(
                    events@,
                    first,
                    count,
                    len,
                    self.reversed,
                )
                &&& res.action == spec_action(events@, first, count, len, self.reversed)
                &&& res.painted@.len() == spec_painted(
                    events@,
                    first,
                    count,
                    len,
                    self.reversed,
                ).len()
                &&& forall|k: int|
                    0 <= k < res.painted@.len() ==> res.painted@[k] as int == spec_painted(
                        events@,
                        first,
                        count,
                        len,
                        self.reversed,
                    )[k]
            }),
    {
        let len = self.tab.notes.len();
        let (first, end) = self.tab.list.visible_range(len);

        let mut action: Option<NoteAction> = None;
        let mut consumed: usize = 0;
        let mut painted: Vec<usize> = Vec::new();
        let mut pos: usize = first;
        while pos < end
            invariant
                first <= pos <= end <= len,
                len == self.tab.notes@.len(),
                events@.len() == len,
                len <= 0xffff_ffff,
                first as int == spec_first_visible(self.tab.list, len as int, 0),
                end as int == spec_end_visible(self.tab.list, len as int, first as int),
                consumed <= pos - first,
                consumed as int == spec_consumed(
                    events@,
                    first as int,
                    pos - first,
                    len as int,
                    self.reversed,
                ),
                action == spec_action(
                    events@,
                    first as int,
                    pos - first,
                    len as int,
                    self.reversed,
                ),
                painted@.len() == spec_painted(
                    events@,
                    first as int,
                    pos - first,
                    len as int,
                    self.reversed,
                ).len(),
                forall|k: int|
                    0 <= k < painted@.len() ==> painted@[k] as int == spec_painted(
                        events@,
                        first as int,
                        pos - first,
                        len as int,
                        self.reversed,
                    )[k],
            decreases end - pos,
        {
            let ind = logical_index(pos, len, self.reversed);
            let ev = events[ind];
            match ev {
                RowEvent::ResolveFailed => {},
                RowEvent::Muted => {
                    consumed = consumed + 1;
                },
                RowEvent::Rendered { action: a } => {
                    consumed = consumed + 1;
                    painted.push(ind);
                    match a {
                        Some(act) => {
                            action = Some(act);
                        },
                        None => {},
                    }
                },
            }
            pos = pos + 1;
        }
        ShowResult { action, rows_consumed: consumed, painted }
    }
}

/// How a frame of the whole view ended.
#[derive(Clone, Copy, PartialEq, Eq, Structural, Debug)]
pub enum FrameOutcome {
    /// The visible rows were rendered.
    Rendered,
    /// The requested timeline is not among the host's set: nothing was
    /// rendered and nothing changed. A transient caller bug, not a crash.
    TimelineMissing,
    /// The frame's snapshot could not be opened: the tab row was still laid
    /// out, but no row content was painted and no action is returned.
    SnapshotFailed,
}

/// What one frame of the view produced.
pub struct FrameResult {
    pub outcome: FrameOutcome,
    pub action: Option<NoteAction>,
    pub rows_consumed: usize,
    pub painted: Vec<usize>,
}

/// The selection the timeline's tab row settles on this frame.
pub open spec fn spec_new_selected(tl: Timeline, activated: Option<usize>) -> int {
    spec_select(tl.selected_view as int, tl.views@.len() as int, activated)
}

/// Hands out one timeline of the set for in-place update.
fn timeline_mut(timelines: &mut Vec<Timeline>, i: usize) -> (r: &mut Timeline)
    requires
        i < old(timelines)@.len(),
    ensures
        *r == old(timelines)@[i as int],
        final(timelines)@ == old(timelines)@.update(i as int, *final(r)),
{
    &mut timelines[i]
}

/// The top-level composition for one frame: resolves the timeline, settles
/// the tab selection, and renders the selected tab over the frame's
/// snapshot, if one could be opened.
pub struct TimelineView {
    pub timeline_id: u64,
    pub reverse: bool,
}

impl TimelineView {
    /// A view of the given timeline, in forward display order.
    pub fn new(timeline_id: u64) -> (r: TimelineView)
        ensures
            r.timeline_id == timeline_id,
            r.reverse == false,
    {
        TimelineView { timeline_id, reverse: false }
    }

    /// The same view walking the sequence from its end.
    pub fn reversed(self) -> (r: TimelineView)
        ensures
            r.timeline_id == self.timeline_id,
            r.reverse == true,
    {
        TimelineView { timeline_id: self.timeline_id, reverse: true }
    }

    /// Renders one frame. `activated` is this frame's tab activation event,
    /// `snapshot_ok` whether the frame's read snapshot could be opened, and
    /// `events` what the collaborators did per logical index of the tab that
    /// ends up selected. A missing timeline changes nothing and returns no
    /// action; a failed snapshot still settles the tab selection but paints
    /// no row and returns no action.
    pub fn ui(
        &self,
        columns: &mut Columns,
        activated: Option<usize>,
        snapshot_ok: bool,
        events: &Vec<RowEvent>,
    ) -> (res: FrameResult)
        requires
            ({
                let found = spec_find_timeline(old(columns).timelines@, self.timeline_id);
                found is Some ==> {
                    let tl = old(columns).timelines@[found.unwrap()];
                    let tab = tl.views@[spec_new_selected(tl, activated)];
                    &&& tl.wf()
                    &&& events@.len() == tab.notes@.len()
                    &&& tab.notes@.len() <= 0xffff_ffff
                    &&& tab.list.scroll_offset as int + tab.list.viewport_height as int
                        <= u64::MAX as int
                    &&& !tab.list.in_layout
                }
            }),
        ensures
            ({
                let found = spec_find_timeline(old(columns).timelines@, self.timeline_id);
                match found {
                    None => {
                        &&& *final(columns) == *old(columns)
                        &&& res.outcome is TimelineMissing
                        &&& res.action is None
                        &&& res.rows_consumed == 0
                        &&& res.painted@.len() == 0
                    },
                    Some(t) => {
                        let tl = old(columns).timelines@[t];
                        let sel = spec_new_selected(tl, activated);
                        let tab = tl.views@[sel];
                        let len = tab.notes@.len() as int;
                        let first = spec_first_visible(tab.list, len, 0);
                        let count = spec_end_visible(tab.list, len, first) - first;
                        &&& final(columns).timelines@ == old(columns).timelines@.update(
                            t,
                            (Timeline { selected_view: sel as usize, ..tl }),
                        )
                        &&& final(columns).timelines@[t].wf()
                        &&& !snapshot_ok ==> {
                            &&& res.outcome is SnapshotFailed
                            &&& res.action is None
                            &&& res.rows_consumed == 0
                            &&& res.painted@.len() == 0
                        }
                        &&& snapshot_ok ==> {
                            &&& res.outcome is Rendered
                            &&& res.rows_consumed as int == spec_consumed(
                                events@,
                                first,
                                count,
                                len,
                                self.reverse,
                            )
                            &&& res.action == spec_action(events@, first, count, len, self.reverse)
                            &&& res.painted@.len() == spec_painted(
                                events@,
                                first,
                                count,
                                len,
                                self.reverse,
                            ).len()
                            &&& forall|k: int|
                                0 <= k < res.painted@.len() ==> res.painted@[k] as int
                                    == spec_painted(events@, first, count, len, self.reverse)[k]
                        }
                    },
                }
            }),
    {
        let found = columns.find_timeline(self.timeline_id);
        let t = match found {
            None => {
                return FrameResult {
                    outcome: FrameOutcome::TimelineMissing,
                    action: None,
                    rows_consumed: 0,
                    painted: Vec::new(),
                };
            },
            Some(t) => t,
        };

        proof {
            let tls = old(columns).timelines@;
            assert(spec_find_timeline(tls, self.timeline_id) == Some(t as int));
            assert(exists|k: int| spec_found_at(tls, self.timeline_id, k));
            let w = choose|k: int| spec_found_at(tls, self.timeline_id, k);
            assert(spec_found_at(tls, self.timeline_id, w));
            assert(w == t as int);
            assert(tls[t as int].wf());
        }

        let tl = timeline_mut(&mut columns.timelines, t);
        let new_sel = tabs_ui(tl.selected_view, &tl.views, activated);
        tl.selected_view = new_sel;

        if !snapshot_ok {
            return FrameResult {
                outcome: FrameOutcome::SnapshotFailed,
                action: None,
                rows_consumed: 0,
                painted: Vec::new(),
            };
        }

        let tab = &columns.timelines[t].views[new_sel];
        let view = TimelineTabView::new(tab, self.reverse);
        let r = view.show(events);
        FrameResult {
            outcome: FrameOutcome::Rendered,
            action: r.action,
            rows_consumed: r.rows_consumed,
            painted: r.painted,
        }
    }
}

/// Law: one render pass is a pure function of the scroll state, the item
/// count, the display direction and the frame's events — repeating it with
/// unchanged inputs visits the same display range and paints the same
/// logical indices.
pub proof fn lemma_render_idempotent(
    s1: ListState,
    s2: ListState,
    events1: Seq<RowEvent>,
    events2: Seq<RowEvent>,
    len: int,
    rev1: bool,
    rev2: bool,
)
    requires
        s1 == s2,
        events1 == events2,
        rev1 == rev2,
    ensures
        spec_first_visible(s1, len, 0) == spec_first_visible(s2, len, 0),
        spec_end_visible(s1, len, spec_first_visible(s1, len, 0)) == spec_end_visible(
            s2,
            len,
            spec_first_visible(s2, len, 0),
        ),
        ({
            let first = spec_first_visible(s1, len, 0);
            let count = spec_end_visible(s1, len, first) - first;
            spec_painted(events1, first, count, len, rev1) == spec_painted(
                events2,
                first,
                count,
                len,
                rev2,
            )
        }),
{
}

/// With nothing filtered — every item resolves and renders — a pass paints
/// exactly the logical index of each visited display position, in visit
/// order: the painted set is determined by the scroll window alone.
pub proof fn lemma_unfiltered_paints_every_visited_row(
    events: Seq<RowEvent>,
    first: int,
    count: int,
    len: int,
    reversed: bool,
)
    requires
        0 <= first,
        0 <= count,
        first + count <= len,
        len == events.len(),
        forall|k: int| 0 <= k < len ==> #[trigger] events[k] is Rendered,
    ensures
        spec_painted(events, first, count, len, reversed).len() == count,
        forall|k: int|
            0 <= k < count ==> #[trigger] spec_painted(events, first, count, len, reversed)[k]
                == spec_logical_index(first + k, len, reversed),
    decreases count,
{
    if count > 0 {
        lemma_unfiltered_paints_every_visited_row(events, first, count - 1, len, reversed);
        assert(0 <= spec_logical_index(first + count - 1, len, reversed) < len);
    }
}

/// Every visited row that resolved consumes exactly one slot, so a window
/// with no resolution failures consumes one slot per visited position.
pub proof fn lemma_consumed_when_all_resolve(
    events: Seq<RowEvent>,
    first: int,
    count: int,
    len: int,
    reversed: bool,
)
    requires
        0 <= first,
        0 <= count,
        first + count <= len,
        len == events.len(),
        forall|k: int| 0 <= k < len ==> !(#[trigger] events[k] is ResolveFailed),
    ensures
        spec_consumed(events, first, count, len, reversed) == count,
    decreases count,
{
    if count > 0 {
        lemma_consumed_when_all_resolve(events, first, count - 1, len, reversed);
        assert(0 <= spec_logical_index(first + count - 1, len, reversed) < len);
    }
}

/// Law: muting never shifts index alignment. If the item at logical index
/// `j` is muted and every other item resolves and renders, a full traversal
/// still consumes exactly one slot per item.
pub proof fn lemma_muted_keeps_alignment(events: Seq<RowEvent>, j: int, reversed: bool)
    requires
        0 <= j < events.len(),
        events[j] is Muted,
        forall|k: int|
            0 <= k < events.len() && k != j ==> #[trigger] events[k] is Rendered,
    ensures
        spec_consumed(events, 0, events.len() as int, events.len() as int, reversed)
            == events.len(),
{
    lemma_consumed_when_all_resolve(
        events,
        0,
        events.len() as int,
        events.len() as int,
        reversed,
    );
}

} // verus!
