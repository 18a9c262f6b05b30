//! Loading children: what a driver does to the widget, and what it is told.

use std::ops::Range;

use xilem_understory_scroll::action::Passes;
use xilem_understory_scroll::virtual_hscroll::{Jump, MAX_MISSED_ACTIONS};
use xilem_understory_scroll::{
    VirtualHScroll, VirtualHScrollAction, VirtualHScrollFetchAction,
};

type Widget = VirtualHScroll<i64, &'static str>;

const LAYOUT: Passes = Passes {
    layout: true,
    compose: false,
    anim_frame: false,
    children_changed: false,
};

fn fetch(action: Option<VirtualHScrollAction>) -> VirtualHScrollFetchAction {
    match action {
        Some(VirtualHScrollAction::Fetch(fetch)) => fetch,
        other => panic!("expected a request, got {other:?}"),
    }
}

fn nothing_visible(strip: &Range<usize>) -> Vec<bool> {
    vec![false; strip.len()]
}

/// Does what a request asks for, and checks that the widget expects all of it.
fn drive(widget: &mut Widget, action: &VirtualHScrollFetchAction) {
    let handling = widget.will_handle_action(action);
    assert!(handling.expected);
    assert_eq!(handling.passes, LAYOUT);
    for idx in action.to_remove() {
        assert!(widget.releases_child(idx));
        let removal = widget.remove_child(idx);
        assert!(removal.expected);
        assert!(removal.child.is_some());
        assert!(!removal.report);
    }
    for idx in action.to_add() {
        assert!(widget.expects_child(idx));
        let addition = widget.add_child(idx, "child");
        assert!(addition.expected);
        assert!(addition.displaced.is_none());
    }
}

#[test]
fn new_widget_has_loaded_nothing() {
    let widget = Widget::new(7, 100);
    assert_eq!(widget.len(), 0);
    assert_eq!(widget.item_count, 100);
    assert_eq!(widget.active_range, 7..7);
    assert_eq!(widget.range_in_viewport, 7..7);
    assert_eq!(widget.anchor_index, 7);
    assert!(widget.action_handled);
    assert!(widget.left_to_right);
    assert_eq!(widget.autoscroll_velocity, 0);
    assert!(!widget.warned_not_dense);
    assert_eq!(widget.missed_actions_count, 0);
    assert!(!widget.expects_child(7));
    let setup = widget.list_setup();
    assert_eq!(setup.len, 100);
    assert_eq!(setup.default_extent, 180);
    assert_eq!(setup.viewport_extent, 0);
    assert_eq!(setup.overscan, 0);
    assert_eq!(setup.scroll_to_start_of, 7);
}

#[test]
fn builders_set_what_they_name() {
    let widget = Widget::new(1, 2)
        .with_len(30)
        .with_direction(false)
        .with_autoscroll_velocity(10);
    assert_eq!(widget.item_count, 30);
    assert!(!widget.left_to_right);
    assert_eq!(widget.autoscroll_velocity, 10);
    assert_eq!(widget.anchor_index, 1);
    assert_eq!(Widget::new(1, 2).with_len(0).item_count, 0);
}

#[test]
fn setters_ask_for_a_pass() {
    let mut widget = Widget::new(0, 10);
    assert_eq!(widget.set_len(20), LAYOUT);
    assert_eq!(widget.item_count, 20);
    assert_eq!(widget.set_direction(false), LAYOUT);
    assert!(!widget.left_to_right);
    assert_eq!(
        widget.set_autoscroll_velocity(-3),
        Passes { layout: false, compose: false, anim_frame: true, children_changed: false }
    );
    assert_eq!(widget.autoscroll_velocity, -3);
    assert_eq!(widget.scroll_to(15), Jump { to_start_of: 15, passes: LAYOUT });
    assert_eq!(widget.anchor_index, 15);
    assert_eq!(widget.active_range, 0..0);
}

#[test]
fn request_settles() {
    let mut widget = Widget::new(0, 100);
    let strip = 0..4;
    let action = fetch(widget.layout_strip(&strip, &nothing_visible(&strip)));
    assert_eq!(action.old_active, 0..0);
    assert_eq!(action.target, 0..4);
    assert!(!widget.action_handled);

    // The request is repeated until it is taken up.
    let again = fetch(widget.layout_strip(&strip, &nothing_visible(&strip)));
    assert_eq!(again.old_active, 0..0);
    assert_eq!(again.target, 0..4);

    drive(&mut widget, &action);
    assert!(widget.action_handled);
    assert_eq!(widget.active_range, 0..4);
    assert!(widget.layout_strip(&strip, &nothing_visible(&strip)).is_none());
    assert!(widget.action_handled);
}

#[test]
fn driver_keeps_children_dense() {
    let mut widget = Widget::new(0, 100);
    for strip in [0..5, 3..9, 20..24, 22..22, 19..23] {
        let action = fetch(widget.layout_strip(&strip, &nothing_visible(&strip)));
        drive(&mut widget, &action);
        assert_eq!(widget.child_indices(), strip.clone().collect::<Vec<_>>());
        assert_eq!(widget.len(), strip.len());
    }
}

#[test]
fn request_says_what_to_remove_and_to_add() {
    let action = VirtualHScrollFetchAction { old_active: 2..8, target: 4..10 };
    assert_eq!(action.to_remove(), vec![2, 3]);
    assert_eq!(action.to_add(), vec![8, 9]);

    let inside = VirtualHScrollFetchAction { old_active: 2..8, target: 4..6 };
    assert_eq!(inside.to_remove(), vec![2, 3, 6, 7]);
    assert_eq!(inside.to_add(), Vec::<usize>::new());

    let at_the_end = VirtualHScrollFetchAction {
        old_active: usize::MAX - 2..usize::MAX,
        target: 0..0,
    };
    assert_eq!(at_the_end.to_remove(), vec![usize::MAX - 2, usize::MAX - 1]);
}

#[test]
fn misrouted_request_is_noticed_and_taken_up() {
    let mut widget = Widget::new(0, 100);
    let action = VirtualHScrollFetchAction { old_active: 1..3, target: 5..8 };
    let handling = widget.will_handle_action(&action);
    assert!(!handling.expected);
    assert_eq!(handling.passes, LAYOUT);
    assert_eq!(widget.active_range, 5..8);
    assert!(widget.action_handled);
}

#[test]
fn stacked_request_goes_stale() {
    let mut widget = Widget::new(0, 100);
    let first = fetch(widget.layout_strip(&(0..10), &nothing_visible(&(0..10))));
    let second = fetch(widget.layout_strip(&(5..20), &nothing_visible(&(5..20))));
    assert_eq!(first.old_active, second.old_active);
    assert!(widget.expects_action(&first) && widget.expects_action(&second));
    assert!(widget.will_handle_action(&first).expected);
    assert!(!widget.expects_action(&second));
    assert!(!widget.will_handle_action(&second).expected);
}

#[test]
fn children_past_the_end_are_dropped_by_request() {
    let mut widget = Widget::new(0, 100);
    let action = fetch(widget.layout_strip(&(90..100), &nothing_visible(&(90..100))));
    drive(&mut widget, &action);
    widget.set_len(95);
    assert!(!widget.releases_child(97));
    let action = fetch(widget.layout_strip(&(90..95), &nothing_visible(&(90..95))));
    assert_eq!(action.to_remove(), vec![95, 96, 97, 98, 99]);
    drive(&mut widget, &action);
    assert_eq!(widget.child_indices(), vec![90, 91, 92, 93, 94]);
}

#[test]
fn children_are_added_displaced_changed_and_removed() {
    let mut widget = Widget::new(0, 100);
    let first = widget.add_child(4, "a");
    assert_eq!(first.displaced, None);
    assert_eq!(
        first.passes,
        Passes { layout: false, compose: false, anim_frame: false, children_changed: true }
    );
    assert_eq!(widget.add_child(2, "b").displaced, None);
    assert_eq!(widget.len(), 2);
    assert_eq!(widget.add_child(4, "c").displaced, Some("a"));
    assert_eq!(widget.len(), 2);
    assert_eq!(widget.child_indices(), vec![2, 4]);

    assert!(widget.has_child(2));
    *widget.child_mut(2) = "d";
    assert_eq!(*widget.child_mut(2), "d");
    assert_eq!(*widget.child_mut(4), "c");

    let removal = widget.remove_child(2);
    assert_eq!((removal.child, removal.report), (Some("d"), false));
    assert!(!widget.has_child(2));
    let removal = widget.remove_child(2);
    assert_eq!((removal.child, removal.report), (None, true));
    widget.warned_not_dense = true;
    let removal = widget.remove_child(2);
    assert_eq!((removal.child, removal.report), (None, false));
    assert_eq!(widget.len(), 1);
}

#[test]
fn unexpected_children_are_told_apart() {
    let mut widget = Widget::new(0, 100);
    let strip = 3..6;
    let action = fetch(widget.layout_strip(&strip, &nothing_visible(&strip)));
    // Before the request is taken up, nothing may be added or removed.
    assert!(!widget.expects_child(4));
    assert!(!widget.releases_child(9));
    assert!(!widget.add_child(4, "early").expected);
    assert!(!widget.remove_child(4).expected);
    widget.will_handle_action(&action);
    assert!(widget.expects_child(3));
    assert!(widget.expects_child(5));
    assert!(!widget.expects_child(6));
    assert!(widget.releases_child(6));
    assert!(!widget.releases_child(5));
    assert!(widget.add_child(5, "asked for").expected);
    assert!(!widget.add_child(6, "not asked for").expected);
    assert!(widget.remove_child(6).expected);
    assert!(!widget.remove_child(5).expected);
}

#[test]
fn strip_may_be_empty() {
    let mut widget = Widget::new(0, 100);
    assert_eq!(widget.set_len(0), LAYOUT);
    assert_eq!(widget.item_count, 0);
    assert_eq!(Widget::new(0, 100).with_len(0).list_setup().len, 0);
}

#[test]
fn missed_request_is_warned_of_once_and_given_up() {
    let mut widget = Widget::new(0, 100);
    let quiet = widget.paint();
    assert!(!quiet.late && !quiet.stuck);
    assert_eq!(widget.missed_actions_count, 0);

    let strip = 0..4;
    widget.layout_strip(&strip, &nothing_visible(&strip));
    for n in 0..=MAX_MISSED_ACTIONS {
        let report = widget.paint();
        assert_eq!(report.late, n == 0);
        assert!(!report.stuck);
        assert_eq!(widget.missed_actions_count, n + 1);
        assert!(!widget.action_handled);
    }
    let report = widget.paint();
    assert!(!report.late);
    assert!(report.stuck);
    assert_eq!(widget.missed_actions_count, 12);
    assert!(widget.action_handled);
    let after = widget.paint();
    assert!(!after.late && !after.stuck);
    assert_eq!(widget.missed_actions_count, 12);
}

#[test]
fn late_driver_is_not_warned_again() {
    let mut widget = Widget::new(0, 100);
    let strip = 0..4;
    let action = fetch(widget.layout_strip(&strip, &nothing_visible(&strip)));
    assert!(widget.paint().late);
    widget.paint();
    assert_eq!(widget.missed_actions_count, 2);
    widget.will_handle_action(&action);
    assert_eq!(widget.missed_actions_count, 1);
    let strip = 1..5;
    widget.layout_strip(&strip, &nothing_visible(&strip));
    assert!(!widget.paint().late);

    // A driver that was never late has no count to keep.
    let mut prompt = Widget::new(0, 100);
    prompt.will_handle_action(&action);
    assert_eq!(prompt.missed_actions_count, 0);
}

#[test]
fn missed_paints_wrap_around() {
    let mut widget = Widget::new(0, 100);
    widget.action_handled = false;
    widget.missed_actions_count = u32::MAX;
    assert!(widget.paint().stuck);
    assert_eq!(widget.missed_actions_count, 0);
}
