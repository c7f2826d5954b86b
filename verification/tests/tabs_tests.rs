use timeline_view::filter::ViewFilter;
use timeline_view::tabs::tabs_ui;
use timeline_view::timeline::TimelineTab;

fn two_tabs() -> Vec<TimelineTab> {
    vec![
        TimelineTab::new(ViewFilter::Notes, 10),
        TimelineTab::new(ViewFilter::NotesAndReplies, 10),
    ]
}

#[test]
fn activation_moves_the_selection() {
    let views = two_tabs();
    assert_eq!(tabs_ui(0, &views, Some(1)), 1);
    assert_eq!(tabs_ui(1, &views, Some(0)), 0);
}

#[test]
fn no_activation_keeps_the_selection() {
    let views = two_tabs();
    assert_eq!(tabs_ui(0, &views, None), 0);
    assert_eq!(tabs_ui(1, &views, None), 1);
}

#[test]
fn out_of_range_activation_is_ignored() {
    let views = two_tabs();
    assert_eq!(tabs_ui(1, &views, Some(2)), 1);
    assert_eq!(tabs_ui(0, &views, Some(usize::MAX)), 0);
}

#[test]
fn selection_stays_in_range() {
    let views = two_tabs();
    for current in 0..views.len() {
        for activated in [None, Some(0), Some(1), Some(7)] {
            let sel = tabs_ui(current, &views, activated);
            assert!(sel < views.len());
        }
    }
}

#[test]
fn zero_tabs_is_a_no_op_returning_zero() {
    let views: Vec<TimelineTab> = Vec::new();
    assert_eq!(tabs_ui(0, &views, Some(3)), 0);
    assert_eq!(tabs_ui(0, &views, None), 0);
}

#[test]
fn filter_labels() {
    assert_eq!(ViewFilter::Notes.name(), "Notes");
    assert_eq!(ViewFilter::NotesAndReplies.name(), "Notes & Replies");
}
