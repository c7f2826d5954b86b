use timeline_view::filter::ViewFilter;
use timeline_view::timeline::{Columns, Timeline, TimelineTab};
use timeline_view::view::{
    FrameOutcome, NoteAction, RowEvent, TimelineTabView, TimelineView,
};

fn tab_with_notes(n: u64) -> TimelineTab {
    let mut tab = TimelineTab::new(ViewFilter::Notes, 10);
    for k in 0..n {
        tab.push_note(1000 + k);
    }
    // A viewport tall enough that every row is visited.
    tab.list.set_viewport(10 * n + 10);
    tab
}

fn rendered(id: Option<u64>) -> RowEvent {
    RowEvent::Rendered { action: id.map(|id| NoteAction { id }) }
}

#[test]
fn muted_row_reserves_its_slot_but_paints_nothing() {
    // Three items, forward order, item 1 muted, items 0 and 2 rendered.
    let tab = tab_with_notes(3);
    let events = vec![rendered(None), RowEvent::Muted, rendered(None)];
    let res = TimelineTabView::new(&tab, false).show(&events);
    assert_eq!(res.painted, vec![0, 2]);
    assert_eq!(res.rows_consumed, 3);
    assert_eq!(res.action, None);
}

#[test]
fn failed_resolution_consumes_no_slot() {
    let tab = tab_with_notes(3);
    let events = vec![rendered(None), RowEvent::ResolveFailed, rendered(None)];
    let res = TimelineTabView::new(&tab, false).show(&events);
    assert_eq!(res.painted, vec![0, 2]);
    assert_eq!(res.rows_consumed, 2);
}

#[test]
fn reversed_pass_visits_items_from_the_end() {
    let tab = tab_with_notes(3);
    let events = vec![rendered(None), rendered(None), rendered(None)];
    let res = TimelineTabView::new(&tab, true).show(&events);
    assert_eq!(res.painted, vec![2, 1, 0]);
    assert_eq!(res.rows_consumed, 3);
}

#[test]
fn later_row_action_wins_the_frame() {
    let tab = tab_with_notes(3);
    let events = vec![rendered(Some(11)), RowEvent::Muted, rendered(Some(22))];
    let res = TimelineTabView::new(&tab, false).show(&events);
    assert_eq!(res.action, Some(NoteAction { id: 22 }));
}

#[test]
fn action_survives_later_rows_without_one() {
    let tab = tab_with_notes(3);
    let events = vec![rendered(Some(11)), rendered(None), RowEvent::Muted];
    let res = TimelineTabView::new(&tab, false).show(&events);
    assert_eq!(res.action, Some(NoteAction { id: 11 }));
}

#[test]
fn two_passes_over_the_same_frame_paint_the_same_rows() {
    let mut tab = TimelineTab::new(ViewFilter::Notes, 10);
    for k in 0..20 {
        tab.push_note(k);
    }
    tab.list.set_viewport(35);
    tab.list.set_scroll(18);
    let events: Vec<RowEvent> = (0..20).map(|_| rendered(None)).collect();
    let view = TimelineTabView::new(&tab, false);
    let first = view.show(&events);
    let second = view.show(&events);
    assert_eq!(first.painted, second.painted);
    assert_eq!(first.rows_consumed, second.rows_consumed);
}

#[test]
fn only_the_visible_window_is_painted() {
    let mut tab = TimelineTab::new(ViewFilter::Notes, 10);
    for k in 0..20 {
        tab.push_note(k);
    }
    tab.list.set_viewport(20);
    tab.list.set_scroll(15);
    let events: Vec<RowEvent> = (0..20).map(|_| rendered(None)).collect();
    let res = TimelineTabView::new(&tab, false).show(&events);
    // Viewport [15, 35): rows 1, 2 and 3 intersect it.
    assert_eq!(res.painted, vec![1, 2, 3]);
}

#[test]
fn row_key_follows_the_display_direction() {
    let tab = tab_with_notes(3);
    let forward = TimelineTabView::new(&tab, false);
    let reverse = TimelineTabView::new(&tab, true);
    assert_eq!(forward.row_key(0), 1000);
    assert_eq!(reverse.row_key(0), 1002);
    assert_eq!(reverse.row_key(2), 1000);
}

fn one_timeline_columns(id: u64, n: u64) -> Columns {
    let mut columns = Columns::new();
    let views = vec![tab_with_notes(n), tab_with_notes(n)];
    columns.push_timeline(Timeline::new(id, views));
    columns
}

#[test]
fn frame_renders_and_returns_the_last_action() {
    let mut columns = one_timeline_columns(7, 3);
    let view = TimelineView::new(7);
    let events = vec![rendered(Some(1)), rendered(Some(2)), rendered(None)];
    let res = view.ui(&mut columns, None, true, &events);
    assert_eq!(res.outcome, FrameOutcome::Rendered);
    assert_eq!(res.action, Some(NoteAction { id: 2 }));
    assert_eq!(res.rows_consumed, 3);
    assert_eq!(res.painted, vec![0, 1, 2]);
}

#[test]
fn missing_timeline_renders_nothing_and_changes_nothing() {
    let mut columns = one_timeline_columns(7, 3);
    let view = TimelineView::new(8);
    let events = Vec::new();
    let res = view.ui(&mut columns, Some(1), true, &events);
    assert_eq!(res.outcome, FrameOutcome::TimelineMissing);
    assert_eq!(res.action, None);
    assert_eq!(res.rows_consumed, 0);
    assert!(res.painted.is_empty());
    assert_eq!(columns.timelines[0].selected_view, 0);
}

#[test]
fn failed_snapshot_paints_nothing_but_keeps_the_selection_change() {
    let mut columns = one_timeline_columns(7, 3);
    let view = TimelineView::new(7);
    let events = vec![rendered(Some(1)), rendered(Some(2)), rendered(Some(3))];
    let res = view.ui(&mut columns, Some(1), false, &events);
    assert_eq!(res.outcome, FrameOutcome::SnapshotFailed);
    assert_eq!(res.action, None);
    assert_eq!(res.rows_consumed, 0);
    assert!(res.painted.is_empty());
    assert_eq!(columns.timelines[0].selected_view, 1);
}

#[test]
fn frame_activation_switches_the_tab() {
    let mut columns = one_timeline_columns(7, 3);
    let view = TimelineView::new(7);
    let events = vec![rendered(None), rendered(None), rendered(None)];
    let res = view.ui(&mut columns, Some(1), true, &events);
    assert_eq!(res.outcome, FrameOutcome::Rendered);
    assert_eq!(columns.timelines[0].selected_view, 1);
}

#[test]
fn reversed_frame_paints_in_reverse_order() {
    let mut columns = one_timeline_columns(7, 3);
    let view = TimelineView::new(7).reversed();
    let events = vec![rendered(None), RowEvent::Muted, rendered(None)];
    let res = view.ui(&mut columns, None, true, &events);
    assert_eq!(res.painted, vec![2, 0]);
    assert_eq!(res.rows_consumed, 3);
}

#[test]
fn push_note_records_the_original_position() {
    let tab = tab_with_notes(4);
    for (i, item) in tab.notes.iter().enumerate() {
        assert_eq!(item.index, i);
        assert_eq!(item.key, 1000 + i as u64);
    }
}

#[test]
fn find_timeline_returns_the_first_match() {
    let mut columns = Columns::new();
    columns.push_timeline(Timeline::new(1, vec![tab_with_notes(0)]));
    columns.push_timeline(Timeline::new(2, vec![tab_with_notes(0)]));
    columns.push_timeline(Timeline::new(2, vec![tab_with_notes(0)]));
    assert_eq!(columns.find_timeline(2), Some(1));
    assert_eq!(columns.find_timeline(3), None);
}
