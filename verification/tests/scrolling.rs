//! Events that scroll the strip.

use std::ops::Range;

use xilem_understory_scroll::action::Passes;
use xilem_understory_scroll::input::{
    PostScrollResult, ScrollAccessAction, ScrollAccessUnit, ScrollKey, ScrollPointerEvent,
    ScrollTextEvent, ScrollUpdate, WheelTurn,
};
use xilem_understory_scroll::VirtualHScroll;

type Widget = VirtualHScroll<i64, ()>;

fn ltr() -> Widget {
    Widget::new(0, 100)
}

fn rtl() -> Widget {
    ltr().with_direction(false)
}

fn key(widget: &Widget, key: ScrollKey) -> Option<i64> {
    let reaction = widget.on_text_event(ScrollTextEvent::KeyDown(key))?;
    assert!(reaction.handled);
    assert!(!reaction.anim_frame);
    Some(reaction.scroll_by)
}

#[test]
fn keys_scroll_when_pressed() {
    assert_eq!(key(&ltr(), ScrollKey::PageDown), Some(2000));
    assert_eq!(key(&ltr(), ScrollKey::PageUp), Some(-2000));
    assert_eq!(key(&ltr(), ScrollKey::ArrowLeft), Some(20));
    assert_eq!(key(&ltr(), ScrollKey::ArrowRight), Some(-20));
    assert_eq!(key(&ltr(), ScrollKey::Other), None);

    assert_eq!(key(&rtl(), ScrollKey::PageDown), Some(2000));
    assert_eq!(key(&rtl(), ScrollKey::PageUp), Some(-2000));
    assert_eq!(key(&rtl(), ScrollKey::ArrowLeft), Some(-20));
    assert_eq!(key(&rtl(), ScrollKey::ArrowRight), Some(20));

    assert!(ltr().on_text_event(ScrollTextEvent::KeyUp(ScrollKey::PageDown)).is_none());
    assert!(ltr().on_text_event(ScrollTextEvent::Other).is_none());
}

fn access(
    widget: &Widget,
    action: ScrollAccessAction,
    unit: Option<ScrollAccessUnit>,
) -> Option<i64> {
    let reaction = widget.on_access_event(action, unit, 51, 640)?;
    assert!(reaction.handled);
    assert!(!reaction.anim_frame);
    Some(reaction.scroll_by)
}

#[test]
fn assistive_technologies_scroll_by_items_or_pages() {
    let left = ScrollAccessAction::ScrollLeft;
    let right = ScrollAccessAction::ScrollRight;
    assert_eq!(access(&ltr(), left, None), Some(-51));
    assert_eq!(access(&ltr(), right, None), Some(51));
    assert_eq!(access(&ltr(), right, Some(ScrollAccessUnit::Item)), Some(51));
    assert_eq!(access(&ltr(), left, Some(ScrollAccessUnit::Page)), Some(-640));
    assert_eq!(access(&rtl(), left, None), Some(51));
    assert_eq!(access(&rtl(), right, Some(ScrollAccessUnit::Page)), Some(-640));
    assert_eq!(access(&ltr(), ScrollAccessAction::Other, None), None);
}

#[test]
fn wheel_scrolls_by_its_horizontal_turn_or_else_its_vertical_one() {
    let wheel = |widget: Widget, x: i64, y: i64| {
        let event = ScrollPointerEvent::Wheel(WheelTurn::Pixels { x, y });
        let reaction = widget.on_pointer_event(event, 640, 480, 1).unwrap();
        assert!(!reaction.handled);
        assert!(!reaction.anim_frame);
        reaction.scroll_by
    };
    assert_eq!(wheel(ltr(), 30, 7), -30);
    assert_eq!(wheel(ltr(), 0, 7), -7);
    assert_eq!(wheel(rtl(), 30, 7), 30);
    assert_eq!(wheel(rtl(), 0, 7), 7);
    assert_eq!(wheel(ltr(), 0, 0), 0);
}

#[test]
fn lines_and_pages_are_the_same_at_every_scale_factor() {
    let widget = ltr();
    for scale_factor in [1, 2, 3] {
        let scroll_by = |turn: WheelTurn<i64>| {
            let event = ScrollPointerEvent::Wheel(turn);
            widget.on_pointer_event(event, 640, 480, scale_factor).unwrap().scroll_by
        };
        assert_eq!(scroll_by(WheelTurn::Lines { x: 2, y: 0 }), -240);
        assert_eq!(scroll_by(WheelTurn::Lines { x: 0, y: -1 }), 120);
        assert_eq!(scroll_by(WheelTurn::Pages { x: 1, y: 5 }), -640);
        assert_eq!(scroll_by(WheelTurn::Pages { x: 0, y: 1 }), -480);
    }
}

#[test]
fn pixels_of_a_turn_are_physical() {
    let scroll_by = |x: i64, y: i64| {
        let event = ScrollPointerEvent::Wheel(WheelTurn::Pixels { x, y });
        ltr().on_pointer_event(event, 640, 480, 2).unwrap().scroll_by
    };
    assert_eq!(scroll_by(30, 7), -15);
    assert_eq!(scroll_by(0, -8), 4);
    // However little it is, a horizontal turn comes first.
    assert_eq!(scroll_by(1, 100), -1);
    assert_eq!(scroll_by(-3, 100), 2);
}

#[test]
fn wheel_turns_are_counted_in_physical_pixels() {
    let steps = Widget::wheel_steps(640, 480, 2);
    assert_eq!((steps.line, steps.page_x, steps.page_y), (240, 1280, 960));
    assert_eq!(Widget::wheel_pixels(WheelTurn::Lines { x: 1, y: -2 }, &steps), (240, -480));
    assert_eq!(Widget::wheel_pixels(WheelTurn::Pages { x: 3, y: 1 }, &steps), (3840, 960));
    assert_eq!(Widget::wheel_pixels(WheelTurn::Pixels { x: 5, y: 6 }, &steps), (5, 6));
}

#[test]
fn strip_moves_by_itself() {
    assert!(ltr().on_anim_frame(1_000_000_000).is_none());
    let moving = ltr().with_autoscroll_velocity(10);
    let reaction = moving.on_anim_frame(3_000_000_000).unwrap();
    assert_eq!(reaction.scroll_by, -30);
    assert!(!reaction.handled);
    assert!(reaction.anim_frame);
    let mirrored = rtl().with_autoscroll_velocity(10);
    assert_eq!(mirrored.on_anim_frame(3_000_000_000).unwrap().scroll_by, 30);

    // Frames are much shorter than a second.
    assert_eq!(moving.on_anim_frame(500_000_000).unwrap().scroll_by, -5);
    let fast = ltr().with_autoscroll_velocity(1000);
    assert_eq!(fast.on_anim_frame(16_000_000).unwrap().scroll_by, -16);
    let back = ltr().with_autoscroll_velocity(-1000);
    assert_eq!(back.on_anim_frame(16_900_000).unwrap().scroll_by, 16);
    let fastest = ltr().with_autoscroll_velocity(i64::MIN);
    assert_eq!(fastest.on_anim_frame(u64::MAX).unwrap().scroll_by, i64::MAX);
}

#[test]
fn target_is_brought_into_view() {
    // To the right of the viewport, to its left, inside it, and all round it.
    let pan = |target: Range<i64>| {
        let reaction = ltr().update(ScrollUpdate::PanToChild(target), 100).unwrap();
        assert!(!reaction.handled && !reaction.anim_frame);
        reaction.scroll_by
    };
    assert_eq!(pan(120..150), 50);
    assert_eq!(pan(-30..-10), -30);
    assert_eq!(pan(20..40), 0);
    assert_eq!(pan(-20..300), 0);
}

#[test]
fn other_events_do_nothing() {
    assert!(ltr().on_pointer_event(ScrollPointerEvent::Other, 640, 480, 1).is_none());
    // Without a wheel there is nothing to scale.
    assert!(ltr().on_pointer_event(ScrollPointerEvent::Other, 640, 480, 0).is_none());
    assert!(ltr().update(ScrollUpdate::Other, 100).is_none());
}

#[test]
fn layout_is_due_when_the_anchor_is_left() {
    let widget = ltr();
    assert_eq!(widget.post_scroll(99, 100, 50), PostScrollResult::Layout);
    assert_eq!(widget.post_scroll(100, 100, 50), PostScrollResult::NoLayout);
    assert_eq!(widget.post_scroll(149, 100, 50), PostScrollResult::NoLayout);
    assert_eq!(widget.post_scroll(150, 100, 50), PostScrollResult::Layout);
    assert_eq!(
        widget.passes_post_scroll(150, 100, 50),
        Passes { layout: true, compose: true, anim_frame: false, children_changed: false }
    );
    assert_eq!(
        widget.passes_post_scroll(120, 100, 50),
        Passes { layout: false, compose: true, anim_frame: false, children_changed: false }
    );
}

#[test]
fn direction_turns_signs() {
    assert_eq!(ltr().direction_appropriate(5), 5);
    assert_eq!(rtl().direction_appropriate(5), -5);
    assert_eq!(ltr().scroll_offset_from_anchor(130, 100), 30);
}
