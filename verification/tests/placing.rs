//! Layouts, composing and what is said of the scroll position.

use xilem_understory_scroll::accessibility::Orientation;
use xilem_understory_scroll::layout::{
    find_first_visible, find_last_visible, find_mean_width, ItemSpan, LengthRequest, Placement,
};
use xilem_understory_scroll::{VirtualHScroll, VirtualHScrollAction};

type Widget = VirtualHScroll<i64, ()>;

fn x_of(placement: &Placement<i64>) -> i64 {
    match placement {
        Placement::Place { x, .. } => *x,
        Placement::Stash { index } => panic!("child {index} was put away"),
    }
}

#[test]
fn length_is_the_default_or_what_there_is() {
    assert_eq!(Widget::measure(LengthRequest::MinContent), 100);
    assert_eq!(Widget::measure(LengthRequest::MaxContent), 100);
    assert_eq!(Widget::measure(LengthRequest::FitContent(333)), 333);
}

#[test]
fn plan_keeps_the_anchor_in_place() {
    let widget = Widget::new(3, 100);
    let plan = widget.layout_plan(130, 100, &vec![40, 50, 60], 640, 480);
    assert_eq!(plan.offset_from_anchor, 30);
    assert_eq!(plan.default_extent, Some(50));
    assert_eq!(plan.viewport_extent, 640);
    assert_eq!(plan.overscan_before, 640);
    assert_eq!(plan.overscan_after, 1280);
    assert_eq!((plan.clip_width, plan.clip_height), (640, 480));
    // The anchor has moved from 100 to 170, and the viewport with it.
    assert_eq!(plan.scroll_offset(170), 200);
}

#[test]
fn mean_width_needs_children_that_are_wide() {
    assert_eq!(find_mean_width::<i64>(&vec![]), None);
    assert_eq!(find_mean_width::<i64>(&vec![0, 0]), None);
    assert_eq!(find_mean_width::<i64>(&vec![7]), Some(7));
    assert_eq!(find_mean_width::<i64>(&vec![0, 9, 0]), Some(3));
}

#[test]
fn first_and_last_visible_items_are_found() {
    let visible = vec![false, true, false, true, false];
    assert_eq!(find_first_visible(&(10..15), &visible), Some(11));
    assert_eq!(find_last_visible(&(10..15), &visible), Some(13));
    assert_eq!(find_first_visible(&(4..6), &vec![false, false]), None);
    assert_eq!(find_last_visible(&(4..6), &vec![false, false]), None);
    assert_eq!(find_first_visible(&(4..4), &vec![]), None);
}

#[test]
fn anchor_is_the_first_item_in_view() {
    let mut widget = Widget::new(3, 100);
    widget.layout_strip(&(10..14), &vec![false, true, true, false]);
    assert_eq!(widget.anchor_index, 11);
    widget.layout_strip(&(20..22), &vec![false, false]);
    assert_eq!(widget.anchor_index, 11);
}

#[test]
fn children_are_placed_or_put_away() {
    let spans = vec![
        ItemSpan { index: 1, offset: 40, extent: 30 },
        ItemSpan { index: 2, offset: 70, extent: 50 },
        ItemSpan { index: 3, offset: 120, extent: 20 },
        ItemSpan { index: 4, offset: 140, extent: 10 },
    ];
    let strip = 2..4;

    let placements = Widget::new(2, 100).layout_place(&strip, 70, &spans);
    assert_eq!(placements.len(), 4);
    assert!(matches!(placements[0], Placement::Stash { index: 1 }));
    assert!(matches!(placements[1], Placement::Place { index: 2, x: 0, y: 0 }));
    assert!(matches!(placements[2], Placement::Place { index: 3, x: 50, y: 0 }));
    assert!(matches!(placements[3], Placement::Stash { index: 4 }));

    let mirrored = Widget::new(2, 100).with_direction(false).layout_place(&strip, 70, &spans);
    assert!(matches!(mirrored[1], Placement::Place { index: 2, x: -50, y: 0 }));
    assert!(matches!(mirrored[2], Placement::Place { index: 3, x: -70, y: 0 }));
}

#[test]
fn children_follow_the_scroll_offset() {
    let spans = vec![ItemSpan { index: 5, offset: 400, extent: 60 }];
    let strip = 0..10;
    let visible = vec![false; 10];
    for anchor_offset in [0, 300, 450] {
        let mut ltr = Widget::new(0, 100);
        let x = x_of(&ltr.layout_place(&strip, anchor_offset, &spans)[0]);
        let plan = ltr.compose(330, anchor_offset, 640, &strip, &visible);
        assert_eq!(x + plan.translation, 70);
        assert_eq!(plan.translation_y, 0);

        let mut rtl = Widget::new(0, 100).with_direction(false);
        let x = x_of(&rtl.layout_place(&strip, anchor_offset, &spans)[0]);
        let plan = rtl.compose(330, anchor_offset, 640, &strip, &visible);
        assert_eq!(x + 60 + plan.translation, 640 - 70);
    }
}

#[test]
fn view_is_reported_once() {
    let mut widget = Widget::new(0, 100);
    let visible = vec![false, true, true, true, false];
    let plan = widget.compose(0, 0, 640, &(4..9), &visible);
    match plan.action {
        Some(VirtualHScrollAction::Scroll(action)) => {
            assert_eq!(action.range_in_viewport, 5..7);
        }
        other => panic!("expected a report, got {other:?}"),
    }
    assert_eq!(widget.range_in_viewport, 5..7);
    assert!(widget.compose(0, 0, 640, &(4..9), &visible).action.is_none());
    assert!(widget.compose(0, 0, 640, &(4..6), &vec![false, false]).action.is_none());
    assert_eq!(widget.range_in_viewport, 5..7);

    // A single item in view gives an empty range.
    widget.compose(0, 0, 640, &(4..6), &vec![false, true]);
    assert_eq!(widget.range_in_viewport, 5..5);
}

#[test]
fn loaded_children_of_the_active_range_move() {
    let mut widget = Widget::new(0, 100);
    widget.active_range = 3..7;
    for idx in [1, 3, 6, 7] {
        widget.add_child(idx, ());
    }
    let plan = widget.compose(0, 0, 640, &(3..3), &vec![]);
    assert_eq!(plan.children, vec![3, 6]);
    assert!(!plan.animated);
    widget.set_autoscroll_velocity(1);
    assert!(widget.compose(0, 0, 640, &(3..3), &vec![]).animated);
}

#[test]
fn scroll_position_is_described() {
    let mut widget = Widget::new(0, 100);
    let last = Some(ItemSpan { index: 99, offset: 990, extent: 10 });
    let at_start = widget.accessibility(51, 0, 0, 640, last);
    assert_eq!(at_start.scroll_x, None);
    assert!(!at_start.scroll_up);
    assert!(at_start.scroll_down);
    assert!(at_start.clips_children && at_start.scroll_into_view);
    assert_eq!(at_start.orientation, Orientation::Vertical);

    let a_little_on = widget.accessibility(51, 5, 0, 640, None);
    assert_eq!(a_little_on.scroll_x, None);
    assert!(a_little_on.scroll_up);
    assert!(a_little_on.scroll_down);

    widget.scroll_to(4);
    let further_on = widget.accessibility(51, 210, 200, 640, None);
    assert_eq!(further_on.scroll_x, Some(4 * 51 + 10));
    assert!(further_on.scroll_up);

    widget.scroll_to(usize::MAX);
    assert_eq!(widget.accessibility(51, 210, 200, 640, None).scroll_x, None);

    let past = Some(ItemSpan { index: 100, offset: 990, extent: 10 });
    assert!(!widget.accessibility(51, 0, 0, 640, past).scroll_down);
    let flush = Some(ItemSpan { index: 100, offset: 630, extent: 10 });
    assert!(widget.accessibility(51, 0, 0, 640, flush).scroll_down);
}
