//! What a caller may rely on: how the arguments and the results of a call belong together.
//!
//! Each law speaks of a result `r` that a call may give according to its contract, and of nothing
//! but the fields of the widget, indices and the arithmetic of a number type.

use std::ops::Range;

use vstd::prelude::*;

use crate::accessibility::{AccessibilityPlan, Orientation};
use crate::action::{Passes, VirtualHScrollAction, VirtualHScrollFetchAction};
use crate::action::VirtualHScrollScrollAction;
use crate::effects::{
    law_first_in_view, law_last_in_view, law_mean_is_sum_by_number,
    law_moved_children_are_active_and_loaded, law_none_in_view,
    law_outside_is_complete_and_ordered,
};
use crate::input::{PostScrollResult, Reaction, ScrollAccessAction, ScrollAccessUnit, ScrollKey};
use crate::input::{ScrollPointerEvent, ScrollTextEvent, ScrollUpdate, WheelTurn};
use crate::layout::{ComposePlan, ItemSpan, LayoutPlan, LengthRequest, Placement};
use crate::layout::{find_first_visible, find_last_visible, find_mean_width};
use crate::pan::compute_pan_range;
use crate::scalar::Scalar;
use crate::virtual_hscroll::{Addition, Handling, Jump, ListSetup, PaintReport, Removal};
use crate::virtual_hscroll::VirtualHScroll;

verus! {

// --- Making and changing a widget

/// A new widget runs from left to right, stands still, has loaded and asked for nothing, and is
/// anchored where it is told to.
pub proof fn law_call_new<S: Scalar, W>(anchor: usize, len: usize, r: VirtualHScroll<S, W>)
    ensures
        call_ensures(VirtualHScroll::<S, W>::new, (anchor, len), r) ==> {
            &&& r.item_count == len
            &&& r.anchor_index == anchor
            &&& r.active_range.start == anchor && r.active_range.end == anchor
            &&& r.range_in_viewport.start == anchor && r.range_in_viewport.end == anchor
            &&& r.items@.dom() == Set::<usize>::empty()
            &&& r.action_handled && r.left_to_right && !r.warned_not_dense
            &&& r.autoscroll_velocity == S::spec_zero()
            &&& r.missed_actions_count == 0
        },
{
}

/// The list starts with all items 180 wide, at the start of the anchor, and with no viewport.
pub proof fn law_call_list_setup<S: Scalar, W>(w: VirtualHScroll<S, W>, r: ListSetup<S>)
    ensures
        call_ensures(VirtualHScroll::<S, W>::list_setup, (&w,), r) ==> {
            &&& r.len == w.item_count
            &&& r.default_extent == S::spec_whole(180)
            &&& r.viewport_extent == S::spec_zero() && r.overscan == S::spec_zero()
            &&& r.scroll_to_start_of == w.anchor_index
        },
{
}

/// Two widgets that differ at most in how many items there are, in direction and in velocity.
pub open spec fn built_alike<S, W>(a: VirtualHScroll<S, W>, b: VirtualHScroll<S, W>) -> bool {
    &&& a.active_range == b.active_range
    &&& a.action_handled == b.action_handled
    &&& a.items@ == b.items@
    &&& a.range_in_viewport == b.range_in_viewport
    &&& a.warned_not_dense == b.warned_not_dense
    &&& a.missed_actions_count == b.missed_actions_count
}

/// Each builder sets what it names and nothing else.
pub proof fn law_call_builders<S: Scalar, W>(
    w: VirtualHScroll<S, W>,
    len: usize,
    left_to_right: bool,
    velocity: S,
    r: VirtualHScroll<S, W>,
)
    ensures
        call_ensures(VirtualHScroll::<S, W>::with_len, (w, len), r) ==> {
            &&& built_alike(w, r)
            &&& r.item_count == len && r.anchor_index == w.anchor_index
            &&& r.left_to_right == w.left_to_right && r.autoscroll_velocity == w.autoscroll_velocity
        },
        call_ensures(VirtualHScroll::<S, W>::with_direction, (w, left_to_right), r) ==> {
            &&& built_alike(w, r)
            &&& r.item_count == w.item_count && r.anchor_index == w.anchor_index
            &&& r.left_to_right == left_to_right && r.autoscroll_velocity == w.autoscroll_velocity
        },
        call_ensures(VirtualHScroll::<S, W>::with_autoscroll_velocity, (w, velocity), r) ==> {
            &&& built_alike(w, r)
            &&& r.item_count == w.item_count && r.anchor_index == w.anchor_index
            &&& r.left_to_right == w.left_to_right && r.autoscroll_velocity == velocity
        },
{
}

/// Setting the number of items sets it, asks for a layout, and does nothing else.
pub proof fn law_call_set_len<S: Scalar, W>(w: &mut VirtualHScroll<S, W>, len: usize, r: Passes)
    requires
        call_ensures(VirtualHScroll::<S, W>::set_len, (w, len), r),
    ensures
        built_alike(*old(w), *final(w)),
        final(w).item_count == len,
        final(w).anchor_index == old(w).anchor_index,
        final(w).left_to_right == old(w).left_to_right,
        final(w).autoscroll_velocity == old(w).autoscroll_velocity,
        r.layout && !r.compose && !r.anim_frame && !r.children_changed,
{
}

/// Setting the direction sets it, asks for a layout, and does nothing else.
pub proof fn law_call_set_direction<S: Scalar, W>(
    w: &mut VirtualHScroll<S, W>,
    left_to_right: bool,
    r: Passes,
)
    requires
        call_ensures(VirtualHScroll::<S, W>::set_direction, (w, left_to_right), r),
    ensures
        built_alike(*old(w), *final(w)),
        final(w).item_count == old(w).item_count,
        final(w).anchor_index == old(w).anchor_index,
        final(w).left_to_right == left_to_right,
        final(w).autoscroll_velocity == old(w).autoscroll_velocity,
        r.layout && !r.compose && !r.anim_frame && !r.children_changed,
{
}

/// Setting the velocity sets it, asks for an animation frame, and does nothing else.
pub proof fn law_call_set_autoscroll_velocity<S: Scalar, W>(
    w: &mut VirtualHScroll<S, W>,
    velocity: S,
    r: Passes,
)
    requires
        call_ensures(VirtualHScroll::<S, W>::set_autoscroll_velocity, (w, velocity), r),
    ensures
        built_alike(*old(w), *final(w)),
        final(w).item_count == old(w).item_count,
        final(w).anchor_index == old(w).anchor_index,
        final(w).left_to_right == old(w).left_to_right,
        final(w).autoscroll_velocity == velocity,
        r.anim_frame && !r.layout && !r.compose && !r.children_changed,
{
}

/// Scrolling to an item makes it the anchor, starts the viewport where it starts, asks for a
/// layout, and does nothing else.
pub proof fn law_call_scroll_to<S: Scalar, W>(w: &mut VirtualHScroll<S, W>, idx: usize, r: Jump)
    requires
        call_ensures(VirtualHScroll::<S, W>::scroll_to, (w, idx), r),
    ensures
        built_alike(*old(w), *final(w)),
        final(w).item_count == old(w).item_count,
        final(w).anchor_index == idx,
        final(w).left_to_right == old(w).left_to_right,
        final(w).autoscroll_velocity == old(w).autoscroll_velocity,
        r.to_start_of == idx,
        r.passes.layout && !r.passes.compose && !r.passes.anim_frame && !r.passes.children_changed,
{
}

// --- Loading children

/// What a request has its driver remove is what was active and is not asked for any more. What it
/// has it add is what is asked for and was not active. Both come in increasing order.
pub proof fn law_call_request(action: VirtualHScrollFetchAction, r: Vec<usize>)
    ensures
        call_ensures(VirtualHScrollFetchAction::to_remove, (&action,), r) ==> {
            &&& forall|i: usize| #[trigger]
                r@.contains(i) <==> action.old_active.start <= i && i < action.old_active.end && !(
                action.target.start <= i && i < action.target.end)
            &&& forall|j: int, k: int| 0 <= j < k < r@.len() ==> r@[j] < r@[k]
        },
        call_ensures(VirtualHScrollFetchAction::to_add, (&action,), r) ==> {
            &&& forall|i: usize| #[trigger]
                r@.contains(i) <==> action.target.start <= i && i < action.target.end && !(
                action.old_active.start <= i && i < action.old_active.end)
            &&& forall|j: int, k: int| 0 <= j < k < r@.len() ==> r@[j] < r@[k]
        },
{
    law_outside_is_complete_and_ordered(action.old_active, action.target);
    law_outside_is_complete_and_ordered(action.target, action.old_active);
}

/// A driver is meant to take up a request that starts from the active range, to add what is active
/// and to remove what is not, once it has taken up the last request.
pub proof fn law_call_expectations<S: Scalar, W>(
    w: VirtualHScroll<S, W>,
    action: VirtualHScrollFetchAction,
    idx: usize,
    r: bool,
)
    ensures
        call_ensures(VirtualHScroll::<S, W>::expects_action, (&w, &action), r) ==> (r
            <==> action.old_active.start == w.active_range.start && action.old_active.end
            == w.active_range.end),
        call_ensures(VirtualHScroll::<S, W>::expects_child, (&w, idx), r) ==> (r
            <==> w.action_handled && w.active_range.start <= idx && idx < w.active_range.end),
        call_ensures(VirtualHScroll::<S, W>::releases_child, (&w, idx), r) ==> (r
            <==> w.action_handled && !(w.active_range.start <= idx && idx < w.active_range.end)),
        call_ensures(VirtualHScroll::<S, W>::has_child, (&w, idx), r) ==> (r
            <==> w.items@.contains_key(idx)),
{
}

/// A request that is taken up makes its target active and is answered. Of missed paints, one is
/// remembered. A layout is asked for, and nothing else changes.
pub proof fn law_call_will_handle_action<S: Scalar, W>(
    w: &mut VirtualHScroll<S, W>,
    action: VirtualHScrollFetchAction,
    r: Handling,
)
    requires
        call_ensures(VirtualHScroll::<S, W>::will_handle_action, (w, &action), r),
    ensures
        r.expected <==> action.old_active == old(w).active_range,
        r.passes.layout && !r.passes.compose && !r.passes.anim_frame && !r.passes.children_changed,
        final(w).active_range == action.target,
        final(w).action_handled,
        old(w).missed_actions_count == 0 ==> final(w).missed_actions_count == 0,
        old(w).missed_actions_count > 0 ==> final(w).missed_actions_count == 1,
        final(w).item_count == old(w).item_count,
        final(w).items@ == old(w).items@,
        final(w).anchor_index == old(w).anchor_index,
        final(w).range_in_viewport == old(w).range_in_viewport,
        final(w).left_to_right == old(w).left_to_right,
        final(w).autoscroll_velocity == old(w).autoscroll_velocity,
        final(w).warned_not_dense == old(w).warned_not_dense,
{
}

/// Two widgets that differ at most in their children.
pub open spec fn alike_but_for_children<S, W>(
    a: VirtualHScroll<S, W>,
    b: VirtualHScroll<S, W>,
) -> bool {
    &&& a.item_count == b.item_count
    &&& a.active_range == b.active_range
    &&& a.action_handled == b.action_handled
    &&& a.anchor_index == b.anchor_index
    &&& a.range_in_viewport == b.range_in_viewport
    &&& a.left_to_right == b.left_to_right
    &&& a.autoscroll_velocity == b.autoscroll_velocity
    &&& a.warned_not_dense == b.warned_not_dense
    &&& a.missed_actions_count == b.missed_actions_count
}

/// Adding a child puts it at its index and gives back the one that stood there. The other children
/// stay, and so does the rest of the widget.
pub proof fn law_call_add_child<S: Scalar, W>(
    w: &mut VirtualHScroll<S, W>,
    idx: usize,
    child: W,
    r: Addition<W>,
)
    requires
        call_ensures(VirtualHScroll::<S, W>::add_child, (w, idx, child), r),
    ensures
        r.expected <==> old(w).action_handled && old(w).active_range.start <= idx
            && idx < old(w).active_range.end,
        old(w).items@.contains_key(idx) ==> r.displaced == Some(old(w).items@[idx]),
        !old(w).items@.contains_key(idx) ==> r.displaced is None,
        r.passes.children_changed && !r.passes.layout && !r.passes.compose && !r.passes.anim_frame,
        final(w).items@.contains_key(idx),
        final(w).items@[idx] == child,
        forall|i: usize|
            i != idx ==> (#[trigger] final(w).items@.contains_key(i)
                <==> old(w).items@.contains_key(i)),
        forall|i: usize|
            i != idx && old(w).items@.contains_key(i)
                ==> #[trigger] final(w).items@[i] == old(w).items@[i],
        alike_but_for_children(*old(w), *final(w)),
{
}

/// Removing a child takes it away and gives it back. If there was none, that is reported unless it
/// is known already. The other children stay, and so does the rest of the widget.
pub proof fn law_call_remove_child<S: Scalar, W>(
    w: &mut VirtualHScroll<S, W>,
    idx: usize,
    r: Removal<W>,
)
    requires
        call_ensures(VirtualHScroll::<S, W>::remove_child, (w, idx), r),
    ensures
        r.expected <==> old(w).action_handled && !(old(w).active_range.start <= idx
            && idx < old(w).active_range.end),
        old(w).items@.contains_key(idx) ==> r.child == Some(old(w).items@[idx]) && !r.report,
        !old(w).items@.contains_key(idx)
            ==> r.child is None && r.report == !old(w).warned_not_dense,
        !final(w).items@.contains_key(idx),
        forall|i: usize|
            i != idx ==> (#[trigger] final(w).items@.contains_key(i)
                <==> old(w).items@.contains_key(i)),
        forall|i: usize|
            i != idx && old(w).items@.contains_key(i)
                ==> #[trigger] final(w).items@[i] == old(w).items@[i],
        alike_but_for_children(*old(w), *final(w)),
{
}

/// The indices of the loaded children are all of them, in increasing order, and as many as their
/// number says.
pub proof fn law_call_children<S: Scalar, W>(w: VirtualHScroll<S, W>, n: usize, r: Vec<usize>)
    ensures
        call_ensures(VirtualHScroll::<S, W>::len, (&w,), n) ==> n == w.items@.dom().len(),
        call_ensures(VirtualHScroll::<S, W>::child_indices, (&w,), r) ==> {
            &&& forall|i: usize| #[trigger] r@.contains(i) <==> w.items@.contains_key(i)
            &&& forall|j: int, k: int| 0 <= j < k < r@.len() ==> r@[j] < r@[k]
        },
{
    if call_ensures(VirtualHScroll::<S, W>::child_indices, (&w,), r) {
        assert forall|i: usize| #[trigger] r@.contains(i) <==> w.items@.contains_key(i) by {
            assert(r@.to_set().contains(i) <==> w.items@.dom().contains(i));
        }
    }
}

/// A paint counts a request that is unanswered, warns of it if none had been counted, and gives it
/// up if more than ten had been. It leaves everything else alone.
pub proof fn law_call_paint<S: Scalar, W>(w: &mut VirtualHScroll<S, W>, r: PaintReport)
    requires
        call_ensures(VirtualHScroll::<S, W>::paint, (w,), r),
    ensures
        r.late <==> !old(w).action_handled && old(w).missed_actions_count == 0,
        r.stuck <==> !old(w).action_handled && old(w).missed_actions_count > 10,
        final(w).action_handled <==> old(w).action_handled || old(w).missed_actions_count > 10,
        old(w).action_handled ==> final(w).missed_actions_count == old(w).missed_actions_count,
        !old(w).action_handled && old(w).missed_actions_count < u32::MAX
            ==> final(w).missed_actions_count == old(w).missed_actions_count + 1,
        !old(w).action_handled && old(w).missed_actions_count == u32::MAX
            ==> final(w).missed_actions_count == 0,
        final(w).item_count == old(w).item_count,
        final(w).active_range == old(w).active_range,
        final(w).items@ == old(w).items@,
        final(w).anchor_index == old(w).anchor_index,
        final(w).range_in_viewport == old(w).range_in_viewport,
        final(w).left_to_right == old(w).left_to_right,
        final(w).autoscroll_velocity == old(w).autoscroll_velocity,
        final(w).warned_not_dense == old(w).warned_not_dense,
{
}

// --- Scrolling

/// What tells one direction of the strip from the other, for a distance.
pub open spec fn along<S: Scalar, W>(w: VirtualHScroll<S, W>, delta: S) -> S {
    if w.left_to_right {
        delta
    } else {
        delta.spec_negated()
    }
}

/// A distance on screen is one along a strip that runs from left to right, and the same with its
/// sign turned along one that runs from right to left.
pub proof fn law_call_direction<S: Scalar, W>(w: VirtualHScroll<S, W>, delta: S, other: S, r: S)
    ensures
        call_ensures(VirtualHScroll::<S, W>::direction_appropriate, (&w, delta), r) ==> {
            &&& w.left_to_right ==> r == delta
            &&& !w.left_to_right ==> r == delta.spec_negated()
        },
        call_ensures(VirtualHScroll::<S, W>::scroll_offset_from_anchor, (&w, delta, other), r)
            ==> r == delta.spec_minus(other),
{
}

/// After a scroll, children are moved, and laid out again if the viewport does not start within the
/// anchor.
pub proof fn law_call_post_scroll<S: Scalar, W>(
    w: VirtualHScroll<S, W>,
    scroll_offset: S,
    anchor_offset: S,
    anchor_extent: S,
    due: PostScrollResult,
    r: Passes,
)
    ensures
        call_ensures(
            VirtualHScroll::<S, W>::post_scroll,
            (&w, scroll_offset, anchor_offset, anchor_extent),
            due,
        ) ==> (due is Layout <==> scroll_offset.spec_below(anchor_offset)
            || anchor_offset.spec_plus(anchor_extent).spec_at_most(scroll_offset)),
        call_ensures(
            VirtualHScroll::<S, W>::passes_post_scroll,
            (&w, scroll_offset, anchor_offset, anchor_extent),
            r,
        ) ==> {
            &&& r.layout <==> scroll_offset.spec_below(anchor_offset) || anchor_offset.spec_plus(
                anchor_extent,
            ).spec_at_most(scroll_offset)
            &&& r.compose && !r.anim_frame && !r.children_changed
        },
{
}

/// The wheel scrolls against as many logical pixels as it was turned by: horizontally or, if not
/// so, vertically. A line is 120 of them and a page the size of the viewport. No other pointer
/// event does anything.
pub proof fn law_call_on_pointer_event<S: Scalar, W>(
    w: VirtualHScroll<S, W>,
    event: ScrollPointerEvent<S>,
    width: S,
    height: S,
    f: S,
    r: Option<Reaction<S>>,
)
    ensures
        call_ensures(
            VirtualHScroll::<S, W>::on_pointer_event,
            (&w, event, width, height, f),
            r,
        ) ==> match event {
            ScrollPointerEvent::Wheel(turn) => {
                let line = S::spec_whole(120).spec_times(f);
                let (px, py) = match turn {
                    WheelTurn::Lines { x, y } => (x.spec_times(line), y.spec_times(line)),
                    WheelTurn::Pages { x, y } => (
                        x.spec_times(width.spec_times(f)),
                        y.spec_times(height.spec_times(f)),
                    ),
                    WheelTurn::Pixels { x, y } => (x, y),
                };
                let turned = if px.spec_unscaled(f).spec_is_zero() {
                    py.spec_unscaled(f)
                } else {
                    px.spec_unscaled(f)
                };
                &&& r is Some
                &&& w.left_to_right ==> r->0.scroll_by == turned.spec_negated()
                &&& !w.left_to_right ==> r->0.scroll_by == turned.spec_negated().spec_negated()
                &&& !r->0.handled && !r->0.anim_frame
            },
            ScrollPointerEvent::Other => r is None,
        },
{
}

/// A page key scrolls by 2000 and an arrow key by 20 when it is pressed, and the event goes no
/// further. No other text event does anything.
pub proof fn law_call_on_text_event<S: Scalar, W>(
    w: VirtualHScroll<S, W>,
    event: ScrollTextEvent,
    r: Option<Reaction<S>>,
)
    ensures
        call_ensures(VirtualHScroll::<S, W>::on_text_event, (&w, event), r) ==> {
            let scrolls = match event {
                ScrollTextEvent::KeyDown(key) => !(key is Other),
                _ => false,
            };
            &&& scrolls <==> r is Some
            &&& r is Some ==> r->0.handled && !r->0.anim_frame
            &&& event == ScrollTextEvent::KeyDown(ScrollKey::PageDown) ==> r->0.scroll_by
                == S::spec_whole(2000)
            &&& event == ScrollTextEvent::KeyDown(ScrollKey::PageUp) ==> r->0.scroll_by
                == S::spec_whole(2000).spec_negated()
            &&& event == ScrollTextEvent::KeyDown(ScrollKey::ArrowLeft) ==> r->0.scroll_by == along(
                w,
                S::spec_whole(20),
            )
            &&& event == ScrollTextEvent::KeyDown(ScrollKey::ArrowRight) ==> r->0.scroll_by
                == along(w, S::spec_whole(20)).spec_negated()
        },
{
}

/// An assistive technology scrolls by the width of the viewport if it asks for a page, and by that
/// of the anchor if not, and the event goes no further. No other request does anything.
pub proof fn law_call_on_access_event<S: Scalar, W>(
    w: VirtualHScroll<S, W>,
    action: ScrollAccessAction,
    unit: Option<ScrollAccessUnit>,
    anchor_extent: S,
    width: S,
    r: Option<Reaction<S>>,
)
    ensures
        call_ensures(
            VirtualHScroll::<S, W>::on_access_event,
            (&w, action, unit, anchor_extent, width),
            r,
        ) ==> {
            let amount = match unit {
                Some(ScrollAccessUnit::Page) => width,
                Some(ScrollAccessUnit::Item) => anchor_extent,
                None => anchor_extent,
            };
            &&& r is None <==> action is Other
            &&& r is Some ==> r->0.handled && !r->0.anim_frame
            &&& action is ScrollRight ==> r->0.scroll_by == along(w, amount)
            &&& action is ScrollLeft ==> r->0.scroll_by == along(w, amount).spec_negated()
        },
{
}

/// A strip with a velocity moves by it at every frame, however short, and asks for the next one. A
/// strip without one does nothing.
pub proof fn law_call_on_anim_frame<S: Scalar, W>(
    w: VirtualHScroll<S, W>,
    interval: u64,
    r: Option<Reaction<S>>,
)
    ensures
        call_ensures(VirtualHScroll::<S, W>::on_anim_frame, (&w, interval), r) ==> {
            &&& r is None <==> w.autoscroll_velocity.spec_is_zero()
            &&& r is Some ==> {
                &&& r->0.anim_frame && !r->0.handled
                &&& r->0.scroll_by == along(
                    w,
                    w.autoscroll_velocity.spec_travel(interval),
                ).spec_negated()
            }
        },
{
}

/// A request to show a target scrolls by as much as the viewport has to move, which stays if it
/// shows the target or nothing else. No other notice does anything.
pub proof fn law_call_update<S: Scalar, W>(
    w: VirtualHScroll<S, W>,
    event: ScrollUpdate<S>,
    width: S,
    r: Option<Reaction<S>>,
)
    ensures
        call_ensures(VirtualHScroll::<S, W>::update, (&w, event, width), r) ==> match event {
            ScrollUpdate::PanToChild(t) => {
                let zero = S::spec_zero();
                let inside = zero.spec_at_most(t.start) && t.end.spec_at_most(width);
                let around = t.start.spec_at_most(zero) && width.spec_at_most(t.end);
                let all = width.spec_minus(zero);
                let part = all.spec_least(t.end.spec_minus(t.start));
                &&& r is Some
                &&& !r->0.handled && !r->0.anim_frame
                &&& inside || around ==> r->0.scroll_by == zero
                &&& !inside && !around && t.start.spec_at_most(zero) ==> r->0.scroll_by
                    == t.end.spec_minus(part)
                &&& !inside && !around && !t.start.spec_at_most(zero) ==> r->0.scroll_by
                    == t.start.spec_plus(part).spec_minus(all)
            },
            ScrollUpdate::Other => r is None,
        },
{
}

// --- Layouts

/// The widget takes the space it is given, and 100 if its content decides.
pub proof fn law_call_measure<S: Scalar, W>(request: LengthRequest<S>, r: S)
    ensures
        call_ensures(VirtualHScroll::<S, W>::measure, (request,), r) ==> {
            &&& request is MinContent || request is MaxContent ==> r == S::spec_whole(100)
            &&& request matches LengthRequest::FitContent(space) ==> r == space
        },
{
}

/// A layout keeps a page before the viewport and two behind it loaded, clips children to the
/// widget, and leaves the anchor where it was in the viewport.
pub proof fn law_call_layout_plan<S: Scalar, W>(
    w: VirtualHScroll<S, W>,
    scroll_offset: S,
    anchor_offset: S,
    widths: Vec<S>,
    width: S,
    height: S,
    r: LayoutPlan<S>,
    new_anchor_offset: S,
    new_scroll_offset: S,
)
    requires
        call_ensures(
            VirtualHScroll::<S, W>::layout_plan,
            (&w, scroll_offset, anchor_offset, &widths, width, height),
            r,
        ),
    ensures
        r.viewport_extent == width,
        r.overscan_before == width,
        r.overscan_after == width.spec_times(S::spec_whole(2)),
        r.clip_width == width,
        r.clip_height == height,
        r.offset_from_anchor == scroll_offset.spec_minus(anchor_offset),
        call_ensures(LayoutPlan::<S>::scroll_offset, (&r, new_anchor_offset), new_scroll_offset)
            ==> new_scroll_offset == scroll_offset.spec_minus(anchor_offset).spec_plus(
            new_anchor_offset,
        ),
{
}

/// In whole pixels, items that are not loaded are taken to be as wide as all the loaded ones are on
/// average, rounded down. Where these have no width, nothing changes.
pub proof fn law_call_layout_plan_mean<W>(
    w: VirtualHScroll<i64, W>,
    scroll_offset: i64,
    anchor_offset: i64,
    widths: Vec<i64>,
    width: i64,
    height: i64,
    r: LayoutPlan<i64>,
)
    requires
        call_ensures(
            VirtualHScroll::<i64, W>::layout_plan,
            (&w, scroll_offset, anchor_offset, &widths, width, height),
            r,
        ),
        forall|k: int| 0 <= k < widths@.len() ==> #[trigger] widths@[k] >= 0,
        widths@.fold_left(0int, |sum: int, width: i64| sum + width) <= i64::MAX,
        widths@.len() <= usize::MAX,
    ensures
        ({
            let sum = widths@.fold_left(0int, |sum: int, width: i64| sum + width);
            let n = widths@.len();
            &&& r.default_extent is None <==> sum == 0
            &&& r.default_extent matches Some(mean) ==> mean * n <= sum && sum < (mean + 1) * n
        }),
{
    law_mean_is_sum_by_number(
        widths@,
        match r.default_extent {
            Some(mean) => mean,
            None => 0,
        },
    );
}

/// A layout that finds other items near the viewport than the active ones sends a request for
/// exactly them, which is then unanswered. Else it sends none.
pub proof fn law_call_layout_strip_requests<S: Scalar, W>(
    w: &mut VirtualHScroll<S, W>,
    strip: Range<usize>,
    visible: Vec<bool>,
    r: Option<VirtualHScrollAction>,
)
    requires
        call_ensures(VirtualHScroll::<S, W>::layout_strip, (w, &strip, &visible), r),
    ensures
        old(w).active_range != strip ==> {
            &&& r == Some(
                VirtualHScrollAction::Fetch(
                    VirtualHScrollFetchAction { old_active: old(w).active_range, target: strip },
                ),
            )
            &&& !final(w).action_handled
        },
        old(w).active_range == strip ==> {
            &&& r is None
            &&& final(w).action_handled == old(w).action_handled
        },
        final(w).item_count == old(w).item_count,
        final(w).active_range == old(w).active_range,
        final(w).items@ == old(w).items@,
        final(w).range_in_viewport == old(w).range_in_viewport,
        final(w).left_to_right == old(w).left_to_right,
        final(w).autoscroll_velocity == old(w).autoscroll_velocity,
        final(w).warned_not_dense == old(w).warned_not_dense,
        final(w).missed_actions_count == old(w).missed_actions_count,
        (forall|j: int| 0 <= j < visible@.len() ==> !visible@[j])
            ==> final(w).anchor_index == old(w).anchor_index,
{
    if forall|j: int| 0 <= j < visible@.len() ==> !visible@[j] {
        law_none_in_view(strip, visible@);
    }
}

/// A layout moves the anchor to the first item in view.
pub proof fn law_call_layout_strip_anchors<S: Scalar, W>(
    w: &mut VirtualHScroll<S, W>,
    strip: Range<usize>,
    visible: Vec<bool>,
    r: Option<VirtualHScrollAction>,
    k: int,
)
    requires
        call_ensures(VirtualHScroll::<S, W>::layout_strip, (w, &strip, &visible), r),
        strip.start + visible@.len() <= usize::MAX,
        0 <= k < visible@.len(),
        visible@[k],
        forall|j: int| 0 <= j < k ==> !visible@[j],
    ensures
        final(w).anchor_index == strip.start + k,
{
    law_first_in_view(strip, visible@, k);
}

/// Each child goes somewhere: one near the viewport as far right of the anchor's start as it begins
/// behind it or, along a strip that runs from right to left, with its right edge as far left. Any
/// other is put away.
pub proof fn law_call_layout_place<S: Scalar, W>(
    w: VirtualHScroll<S, W>,
    strip: Range<usize>,
    anchor_offset: S,
    spans: Vec<ItemSpan<S>>,
    r: Vec<Placement<S>>,
    k: int,
)
    requires
        call_ensures(
            VirtualHScroll::<S, W>::layout_place,
            (&w, &strip, anchor_offset, &spans),
            r,
        ),
        0 <= k < spans@.len(),
    ensures
        r@.len() == spans@.len(),
        ({
            let span = spans@[k];
            let behind = span.offset.spec_minus(anchor_offset);
            if strip.start <= span.index && span.index < strip.end {
                r@[k] matches Placement::Place { index, x, y } && {
                    &&& index == span.index
                    &&& y == S::spec_zero()
                    &&& w.left_to_right ==> x == behind
                    &&& !w.left_to_right ==> x == behind.spec_negated().spec_minus(span.extent)
                }
            } else {
                r@[k] matches Placement::Stash { index } && index == span.index
            }
        }),
{
}

/// The loaded children of the active range move, by how far the viewport starts behind the anchor:
/// back in a strip that runs from left to right, and forth from the viewport's right edge in one
/// that runs from right to left.
pub proof fn law_call_compose_moves<S: Scalar, W>(
    w: &mut VirtualHScroll<S, W>,
    scroll_offset: S,
    anchor_offset: S,
    width: S,
    strip: Range<usize>,
    visible: Vec<bool>,
    r: ComposePlan<S>,
)
    requires
        call_ensures(
            VirtualHScroll::<S, W>::compose,
            (w, scroll_offset, anchor_offset, width, &strip, &visible),
            r,
        ),
    ensures
        ({
            let offset = scroll_offset.spec_minus(anchor_offset);
            &&& old(w).left_to_right ==> r.translation == offset.spec_negated().spec_plus(
                S::spec_zero(),
            )
            &&& !old(w).left_to_right ==> r.translation
                == offset.spec_negated().spec_negated().spec_plus(width)
        }),
        r.translation_y == S::spec_zero(),
        r.animated == !old(w).autoscroll_velocity.spec_is_zero(),
        forall|i: usize| #[trigger]
            r.children@.contains(i)
                <==> old(w).active_range.start <= i && i < old(w).active_range.end
                    && old(w).items@.contains_key(i),
        forall|j: int, k: int|
            0 <= j < k < r.children@.len() ==> r.children@[j] < r.children@[k],
{
    law_moved_children_are_active_and_loaded(old(w)@);
}

/// Every change of the children in view is reported: with the `first`th flag the first that is set
/// and the `last`th the last one, the driver is told of the range between them, unless that is what
/// it was told last. Either way the widget remembers that range.
pub proof fn law_call_compose_reports<S: Scalar, W>(
    w: &mut VirtualHScroll<S, W>,
    scroll_offset: S,
    anchor_offset: S,
    width: S,
    strip: Range<usize>,
    visible: Vec<bool>,
    r: ComposePlan<S>,
    first: int,
    last: int,
)
    requires
        call_ensures(
            VirtualHScroll::<S, W>::compose,
            (w, scroll_offset, anchor_offset, width, &strip, &visible),
            r,
        ),
        strip.start + visible@.len() <= usize::MAX,
        0 <= first <= last < visible@.len(),
        visible@[first],
        visible@[last],
        forall|j: int| 0 <= j < first || last < j < visible@.len() ==> !visible@[j],
    ensures
        ({
            let seen = Range {
                start: (strip.start + first) as usize,
                end: (strip.start + last) as usize,
            };
            &&& final(w).range_in_viewport == seen
            &&& seen != old(w).range_in_viewport ==> r.action == Some(
                VirtualHScrollAction::Scroll(VirtualHScrollScrollAction { range_in_viewport: seen }),
            )
            &&& seen == old(w).range_in_viewport ==> r.action is None
        }),
{
    law_first_in_view(strip, visible@, first);
    law_last_in_view(strip, visible@, last);
}

/// Moving children changes nothing of the widget but what it remembers of the view, and not even
/// that where no item is in view: then nothing is reported.
pub proof fn law_call_compose_changes_little<S: Scalar, W>(
    w: &mut VirtualHScroll<S, W>,
    scroll_offset: S,
    anchor_offset: S,
    width: S,
    strip: Range<usize>,
    visible: Vec<bool>,
    r: ComposePlan<S>,
)
    requires
        call_ensures(
            VirtualHScroll::<S, W>::compose,
            (w, scroll_offset, anchor_offset, width, &strip, &visible),
            r,
        ),
    ensures
        final(w).item_count == old(w).item_count,
        final(w).active_range == old(w).active_range,
        final(w).action_handled == old(w).action_handled,
        final(w).items@ == old(w).items@,
        final(w).anchor_index == old(w).anchor_index,
        final(w).left_to_right == old(w).left_to_right,
        final(w).autoscroll_velocity == old(w).autoscroll_velocity,
        final(w).warned_not_dense == old(w).warned_not_dense,
        final(w).missed_actions_count == old(w).missed_actions_count,
        (forall|j: int| 0 <= j < visible@.len() ==> !visible@[j])
            ==> r.action is None && final(w).range_in_viewport == old(w).range_in_viewport,
{
    if forall|j: int| 0 <= j < visible@.len() ==> !visible@[j] {
        law_none_in_view(strip, visible@);
    }
}

/// The first item in view is the one before which there is none, and the last one that behind which
/// there is none. Where no item is in view, there is neither.
pub proof fn law_call_find_visible(
    strip: Range<usize>,
    visible: Vec<bool>,
    k: int,
    r: Option<usize>,
)
    requires
        strip.start + visible@.len() <= usize::MAX,
    ensures
        call_ensures(find_first_visible, (&strip, &visible), r) && 0 <= k < visible@.len()
            && visible@[k] && (forall|j: int| 0 <= j < k ==> !visible@[j]) ==> r == Some(
            (strip.start + k) as usize,
        ),
        call_ensures(find_last_visible, (&strip, &visible), r) && 0 <= k < visible@.len()
            && visible@[k] && (forall|j: int| k < j < visible@.len() ==> !visible@[j]) ==> r
            == Some((strip.start + k) as usize),
        (call_ensures(find_first_visible, (&strip, &visible), r) || call_ensures(
            find_last_visible,
            (&strip, &visible),
            r,
        )) && (forall|j: int| 0 <= j < visible@.len() ==> !visible@[j]) ==> r is None,
{
    if 0 <= k < visible@.len() && visible@[k] {
        if forall|j: int| 0 <= j < k ==> !visible@[j] {
            law_first_in_view(strip, visible@, k);
        }
        if forall|j: int| k < j < visible@.len() ==> !visible@[j] {
            law_last_in_view(strip, visible@, k);
        }
    }
    if forall|j: int| 0 <= j < visible@.len() ==> !visible@[j] {
        law_none_in_view(strip, visible@);
    }
}

/// In whole pixels, the mean width is the sum of all widths divided by their number, rounded down.
/// There is none where the sum is 0.
pub proof fn law_call_find_mean_width(widths: Vec<i64>, r: Option<i64>)
    requires
        call_ensures(find_mean_width::<i64>, (&widths,), r),
        forall|k: int| 0 <= k < widths@.len() ==> #[trigger] widths@[k] >= 0,
        widths@.fold_left(0int, |sum: int, width: i64| sum + width) <= i64::MAX,
        widths@.len() <= usize::MAX,
    ensures
        ({
            let sum = widths@.fold_left(0int, |sum: int, width: i64| sum + width);
            let n = widths@.len();
            &&& r is None <==> sum == 0
            &&& r matches Some(mean) ==> mean * n <= sum && sum < (mean + 1) * n
        }),
{
    law_mean_is_sum_by_number(
        widths@,
        match r {
            Some(mean) => mean,
            None => 0,
        },
    );
}

/// A viewport stays if either of it and the target reaches at least as far as the other on both
/// sides. Else, with as much of the target as fits, it ends at the near end of that part and keeps
/// its width.
pub proof fn law_call_compute_pan_range<S: Scalar>(v: Range<S>, t: Range<S>, r: Range<S>)
    requires
        call_ensures(compute_pan_range::<S>, (v, t), r),
    ensures
        ({
            let inside = v.start.spec_at_most(t.start) && t.end.spec_at_most(v.end);
            let around = t.start.spec_at_most(v.start) && v.end.spec_at_most(t.end);
            let width = v.end.spec_minus(v.start);
            let part = width.spec_least(t.end.spec_minus(t.start));
            &&& inside || around ==> r == v
            &&& !inside && !around && t.start.spec_at_most(v.start) ==> {
                &&& r.start == t.end.spec_minus(part)
                &&& r.end == r.start.spec_plus(width)
            }
            &&& !inside && !around && !t.start.spec_at_most(v.start) ==> {
                &&& r.end == t.start.spec_plus(part)
                &&& r.start == r.end.spec_minus(width)
            }
        }),
{
}

// --- Assistive technologies

/// An assistive technology is told how far the strip has been scrolled, were all items before the
/// anchor of the default width, and that it can be scrolled back unless it stands at its start, and
/// on unless its last item is past the end.
pub proof fn law_call_accessibility<S: Scalar, W>(
    w: VirtualHScroll<S, W>,
    default_extent: S,
    scroll_offset: S,
    anchor_offset: S,
    viewport_extent: S,
    last: Option<ItemSpan<S>>,
    r: AccessibilityPlan<S>,
)
    requires
        call_ensures(
            VirtualHScroll::<S, W>::accessibility,
            (&w, default_extent, scroll_offset, anchor_offset, viewport_extent, last),
            r,
        ),
    ensures
        r.clips_children,
        r.orientation == Orientation::Vertical,
        r.scroll_into_view,
        w.anchor_index == 0 || w.anchor_index == usize::MAX ==> r.scroll_x is None,
        0 < w.anchor_index && w.anchor_index < usize::MAX ==> r.scroll_x == Some(
            S::spec_whole(w.anchor_index).spec_times(default_extent).spec_plus(
                scroll_offset.spec_minus(anchor_offset),
            ),
        ),
        r.scroll_up <==> w.anchor_index > 0 || S::spec_zero().spec_below(
            scroll_offset.spec_minus(anchor_offset),
        ),
        r.scroll_down <==> !(last matches Some(span) && span.index == w.item_count
            && !span.offset.spec_plus(span.extent).spec_minus(scroll_offset).spec_minus(
            viewport_extent,
        ).spec_is_zero()),
{
}

} // verus!
