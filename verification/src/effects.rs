//! What each operation does to the widget and what it answers, case by case.
//!
//! These laws speak of the fields of a state, of indices and of the arithmetic of a number type
//! only, so that they can be read without the definitions of what they are about.

use std::ops::Range;

use vstd::prelude::*;

use crate::action::{index_seq, index_set, lemma_filter_members, range_len, seq_outside};
use crate::action::{VirtualHScrollAction, VirtualHScrollFetchAction, VirtualHScrollScrollAction};
use crate::input::{left_anchor, ScrollAccessAction, ScrollKey, WheelSteps, WheelTurn};
use crate::input::{turned_by, wheel_steps_over};
use crate::layout::{first_visible, last_visible, mean_width, range_seen, total_width};
use crate::layout::{is_first_set, is_last_set, ItemSpan, Placement};
use crate::pan::panned;
use crate::ruler::{law_pixels_are_exact, pixels, Ruler};
use crate::scalar::{nearest_i64, Scalar};
use crate::virtual_hscroll::ScrollState;

verus! {

// --- Indices

/// A half-open range holds the indices from its start up to, but not including, its end.
pub proof fn law_range_is_half_open(r: Range<usize>, i: usize)
    ensures
        index_set(r).contains(i) <==> r.start <= i && i < r.end,
        r.start <= r.end ==> range_len(r) == r.end - r.start,
        r.start > r.end ==> range_len(r) == 0,
{
}

/// The indices of one range that are not in another come in increasing order, and are all those
/// and no others.
pub proof fn law_outside_is_complete_and_ordered(r: Range<usize>, other: Range<usize>)
    ensures
        forall|i: usize| #[trigger]
            seq_outside(r, other).contains(i) <==> r.start <= i && i < r.end && !(other.start <= i
                && i < other.end),
        forall|j: int, k: int|
            0 <= j < k < seq_outside(r, other).len() ==> #[trigger] seq_outside(r, other)[j]
                < #[trigger] seq_outside(r, other)[k],
{
    let all = index_seq(r);
    let keep = |i: usize| !index_set(other).contains(i);
    assert forall|i: usize| #[trigger]
        seq_outside(r, other).contains(i) <==> r.start <= i && i < r.end && !(other.start <= i && i
            < other.end) by {
        lemma_filter_members(all, keep, i);
        if r.start <= i && i < r.end {
            assert(all[i - r.start] == i);
        }
    }
    lemma_filter_increases(all, keep);
}

proof fn lemma_filter_increases(all: Seq<usize>, keep: spec_fn(usize) -> bool)
    requires
        forall|j: int, k: int| 0 <= j < k < all.len() ==> all[j] < all[k],
    ensures
        forall|j: int, k: int|
            0 <= j < k < all.filter(keep).len() ==> all.filter(keep)[j] < all.filter(keep)[k],
    decreases all.len(),
{
    reveal(Seq::filter);
    if all.len() > 0 {
        let init = all.drop_last();
        lemma_filter_increases(init, keep);
        let kept = init.filter(keep);
        assert forall|j: int| 0 <= j < kept.len() implies kept[j] < all.last() by {
            lemma_filter_members(init, keep, kept[j]);
            assert(kept.contains(kept[j]));
            let k = init.index_of(kept[j]);
            assert(all[k] < all[all.len() - 1]);
        }
    }
}

// --- The driver's protocol

/// A new widget runs from left to right, stands still, has loaded and asked for nothing, and is
/// anchored where it is told to.
pub proof fn law_new_widget<S: Scalar, W>(anchor: usize, len: usize)
    ensures
        ({
            let s = ScrollState::<S, W>::initial(anchor, len);
            &&& s.item_count == len
            &&& s.anchor_index == anchor
            &&& s.active_range.start == anchor && s.active_range.end == anchor
            &&& s.range_in_viewport.start == anchor && s.range_in_viewport.end == anchor
            &&& s.items.dom() == Set::<usize>::empty()
            &&& s.action_handled && s.left_to_right && !s.warned_not_dense
            &&& s.autoscroll_velocity == S::spec_zero()
            &&& s.missed_actions_count == 0
        }),
{
}

/// Whenever the items near the viewport are not those that are active, a layout sends a request for
/// exactly them, which is then unanswered. Where they are the same, it sends none and leaves an
/// earlier request as it was.
pub proof fn law_request_is_sent_when_due<S: Scalar, W>(
    s: ScrollState<S, W>,
    strip: Range<usize>,
    visible: Seq<bool>,
)
    ensures
        s.active_range != strip ==> {
            &&& s.fetch(strip) == Some(
                VirtualHScrollAction::Fetch(
                    VirtualHScrollFetchAction { old_active: s.active_range, target: strip },
                ),
            )
            &&& !s.laid_out(strip, visible).action_handled
        },
        s.active_range == strip ==> {
            &&& s.fetch(strip) is None
            &&& s.laid_out(strip, visible).action_handled == s.action_handled
        },
{
}

/// What is asked for after a layout, be it active already or by the request that is sent, is
/// exactly what is near the viewport.
pub proof fn law_wanted_items_are_those_near_the_viewport<S: Scalar, W>(
    s: ScrollState<S, W>,
    strip: Range<usize>,
    idx: usize,
)
    ensures
        ({
            let wanted = match s.fetch(strip) {
                Some(VirtualHScrollAction::Fetch(action)) => action.target,
                _ => s.active_range,
            };
            wanted.start <= idx && idx < wanted.end <==> strip.start <= idx && idx < strip.end
        }),
{
}

/// A layout moves the anchor to the first item in view.
pub proof fn law_layout_anchors_at_first_in_view<S: Scalar, W>(
    s: ScrollState<S, W>,
    strip: Range<usize>,
    visible: Seq<bool>,
    k: int,
)
    requires
        strip.start + visible.len() <= usize::MAX,
        0 <= k < visible.len(),
        visible[k],
        forall|j: int| 0 <= j < k ==> !visible[j],
    ensures
        s.laid_out(strip, visible).anchor_index == strip.start + k,
{
    law_first_in_view(strip, visible, k);
}

/// Where no item is in view, a layout keeps the anchor. In any case it changes nothing but the
/// anchor and whether a request is unanswered.
pub proof fn law_layout_changes_little<S: Scalar, W>(
    s: ScrollState<S, W>,
    strip: Range<usize>,
    visible: Seq<bool>,
)
    ensures
        ({
            let t = s.laid_out(strip, visible);
            &&& (forall|j: int| 0 <= j < visible.len() ==> !visible[j]) ==> t.anchor_index
                == s.anchor_index
            &&& t.item_count == s.item_count
            &&& t.active_range == s.active_range
            &&& t.items == s.items
            &&& t.range_in_viewport == s.range_in_viewport
            &&& t.left_to_right == s.left_to_right
            &&& t.autoscroll_velocity == s.autoscroll_velocity
            &&& t.warned_not_dense == s.warned_not_dense
            &&& t.missed_actions_count == s.missed_actions_count
        }),
{
}

/// A driver is meant to take up a request that starts from the active range, to add what is active
/// and to remove what is not, once it has taken up the last request.
pub proof fn law_driver_is_expected<S: Scalar, W>(
    s: ScrollState<S, W>,
    action: VirtualHScrollFetchAction,
    idx: usize,
)
    ensures
        s.expects_action(action) <==> action.old_active.start == s.active_range.start
            && action.old_active.end == s.active_range.end,
        s.expects_child(idx) <==> s.action_handled && s.active_range.start <= idx && idx
            < s.active_range.end,
        s.releases_child(idx) <==> s.action_handled && (idx < s.active_range.start || idx
            >= s.active_range.end),
{
}

/// A request that is taken up makes its target active and is answered. Of missed paints, one is
/// remembered. Nothing else changes.
pub proof fn law_taking_up_a_request<S: Scalar, W>(
    s: ScrollState<S, W>,
    action: VirtualHScrollFetchAction,
)
    ensures
        ({
            let t = s.handling(action);
            &&& t.active_range == action.target
            &&& t.action_handled
            &&& s.missed_actions_count == 0 ==> t.missed_actions_count == 0
            &&& s.missed_actions_count > 0 ==> t.missed_actions_count == 1
            &&& t.item_count == s.item_count
            &&& t.items == s.items
            &&& t.anchor_index == s.anchor_index
            &&& t.range_in_viewport == s.range_in_viewport
            &&& t.left_to_right == s.left_to_right
            &&& t.autoscroll_velocity == s.autoscroll_velocity
            &&& t.warned_not_dense == s.warned_not_dense
        }),
{
}

/// Adding a child puts it at its index and leaves the others alone. Removing one takes it away and
/// leaves the others alone. Nothing else changes.
pub proof fn law_children_come_and_go<S: Scalar, W>(s: ScrollState<S, W>, idx: usize, child: W)
    ensures
        s.with_child(idx, child).items.contains_key(idx),
        s.with_child(idx, child).items[idx] == child,
        !s.without_child(idx).items.contains_key(idx),
        forall|i: usize|
            i != idx ==> (#[trigger] s.with_child(idx, child).items.contains_key(i)
                <==> s.items.contains_key(i)) && s.with_child(idx, child).items[i] == s.items[i],
        forall|i: usize|
            i != idx ==> (#[trigger] s.without_child(idx).items.contains_key(i)
                <==> s.items.contains_key(i)) && s.without_child(idx).items[i] == s.items[i],
        s.with_child(idx, child) == (ScrollState { items: s.with_child(idx, child).items, ..s }),
        s.without_child(idx) == (ScrollState { items: s.without_child(idx).items, ..s }),
{
    assert(forall|i: usize|
        i != idx && !s.items.contains_key(i) ==> s.with_child(idx, child).items[i] == s.items[i]);
    assert(forall|i: usize|
        i != idx && !s.items.contains_key(i) ==> s.without_child(idx).items[i] == s.items[i]);
}

/// A paint leaves a widget alone whose request has been answered. It counts one that has not, warns
/// of it if none had been counted, and gives it up if more than ten had been.
pub proof fn law_paint_counts_missed_requests<S: Scalar, W>(s: ScrollState<S, W>)
    ensures
        s.late() <==> !s.action_handled && s.missed_actions_count == 0,
        s.stuck() <==> !s.action_handled && s.missed_actions_count > 10,
        s.action_handled ==> s.painted() == s,
        !s.action_handled ==> {
            let t = s.painted();
            &&& t.action_handled <==> s.missed_actions_count > 10
            &&& s.missed_actions_count < u32::MAX ==> t.missed_actions_count
                == s.missed_actions_count + 1
            &&& s.missed_actions_count == u32::MAX ==> t.missed_actions_count == 0
            &&& t == (ScrollState {
                action_handled: t.action_handled,
                missed_actions_count: t.missed_actions_count,
                ..s
            })
        },
{
}

// --- Children in view

/// The first item in view is the one before which there is none.
pub proof fn law_first_in_view(strip: Range<usize>, visible: Seq<bool>, k: int)
    requires
        strip.start + visible.len() <= usize::MAX,
        0 <= k < visible.len(),
        visible[k],
        forall|j: int| 0 <= j < k ==> !visible[j],
    ensures
        first_visible(strip, visible) == Some((strip.start + k) as usize),
{
    assert(is_first_set(visible, k));
}

/// The last item in view is the one behind which there is none.
pub proof fn law_last_in_view(strip: Range<usize>, visible: Seq<bool>, k: int)
    requires
        strip.start + visible.len() <= usize::MAX,
        0 <= k < visible.len(),
        visible[k],
        forall|j: int| k < j < visible.len() ==> !visible[j],
    ensures
        last_visible(strip, visible) == Some((strip.start + k) as usize),
{
    assert(is_last_set(visible, k));
}

/// Where no item is in view, there is neither a first nor a last one.
pub proof fn law_none_in_view(strip: Range<usize>, visible: Seq<bool>)
    requires
        forall|j: int| 0 <= j < visible.len() ==> !visible[j],
    ensures
        first_visible(strip, visible) is None,
        last_visible(strip, visible) is None,
        range_seen(strip, visible) is None,
{
}

/// Every change of the children in view is reported: with the `first`th flag the first that is set
/// and the `last`th the last one, the driver is told of the range between them, unless that is what
/// it was told last. Either way the widget remembers that range, and changes nothing else.
pub proof fn law_change_of_view_is_reported<S: Scalar, W>(
    s: ScrollState<S, W>,
    strip: Range<usize>,
    visible: Seq<bool>,
    first: int,
    last: int,
)
    requires
        strip.start + visible.len() <= usize::MAX,
        0 <= first <= last < visible.len(),
        visible[first],
        visible[last],
        forall|j: int| 0 <= j < first || last < j < visible.len() ==> !visible[j],
    ensures
        ({
            let seen = Range {
                start: (strip.start + first) as usize,
                end: (strip.start + last) as usize,
            };
            &&& range_seen(strip, visible) == Some(seen)
            &&& seen != s.range_in_viewport ==> s.scrolled_into_view(strip, visible) == Some(
                VirtualHScrollAction::Scroll(VirtualHScrollScrollAction { range_in_viewport: seen }),
            )
            &&& seen == s.range_in_viewport ==> s.scrolled_into_view(strip, visible) is None
            &&& s.composed(strip, visible) == (ScrollState { range_in_viewport: seen, ..s })
        }),
{
    law_first_in_view(strip, visible, first);
    law_last_in_view(strip, visible, last);
}

/// The children that are moved are the loaded ones of the active range, each once and in order.
pub proof fn law_moved_children_are_active_and_loaded<S: Scalar, W>(s: ScrollState<S, W>)
    ensures
        forall|i: usize| #[trigger]
            s.active_children().contains(i) <==> s.active_range.start <= i && i
                < s.active_range.end && s.items.contains_key(i),
        forall|j: int, k: int|
            0 <= j < k < s.active_children().len() ==> #[trigger] s.active_children()[j]
                < #[trigger] s.active_children()[k],
{
    let all = index_seq(s.active_range);
    let keep = |i: usize| s.items.contains_key(i);
    assert forall|i: usize| #[trigger]
        s.active_children().contains(i) <==> s.active_range.start <= i && i < s.active_range.end
            && s.items.contains_key(i) by {
        lemma_filter_members(all, keep, i);
        if s.active_range.start <= i && i < s.active_range.end {
            assert(all[i - s.active_range.start] == i);
        }
    }
    lemma_filter_increases(all, keep);
}

// --- Scrolling

/// A distance on screen is one along a strip that runs from left to right, and the same with its
/// sign turned along one that runs from right to left. Nothing else of the widget matters.
pub proof fn law_direction_decides_sign<S: Scalar, W>(s: ScrollState<S, W>, delta: S)
    ensures
        s.left_to_right ==> s.direction_appropriate(delta) == delta,
        !s.left_to_right ==> s.direction_appropriate(delta) == delta.spec_negated(),
{
}

/// The wheel scrolls against its horizontal turn or, if there is none, against its vertical one,
/// and the other way round in a strip that runs from right to left.
pub proof fn law_wheel_scrolls_against_its_turn<S: Scalar, W>(s: ScrollState<S, W>, x: S, y: S)
    ensures
        s.left_to_right && !x.spec_is_zero() ==> s.wheel_delta(x, y) == x.spec_negated(),
        s.left_to_right && x.spec_is_zero() ==> s.wheel_delta(x, y) == y.spec_negated(),
        !s.left_to_right && !x.spec_is_zero() ==> s.wheel_delta(x, y)
            == x.spec_negated().spec_negated(),
        !s.left_to_right && x.spec_is_zero() ==> s.wheel_delta(x, y)
            == y.spec_negated().spec_negated(),
{
}

/// On a ruler, the wheel scrolls by just as much as it was turned, against the turn in a strip that
/// runs from left to right and along with it in one that runs from right to left.
pub proof fn law_wheel_scrolls_against_its_turn_on_ruler<S: Scalar, W>(
    s: ScrollState<S, W>,
    r: Ruler<S>,
    x: S,
    y: S,
)
    requires
        r.exact(),
        r.has(x),
        r.has(y),
    ensures
        ({
            let turn = if r.at(x) != 0 {
                r.at(x)
            } else {
                r.at(y)
            };
            &&& s.left_to_right ==> r.at(s.wheel_delta(x, y)) == -turn
            &&& !s.left_to_right ==> r.at(s.wheel_delta(x, y)) == turn
        }),
{
}

/// A line of the wheel is 120 logical pixels on either axis and a page the size of the viewport.
/// Both are counted in physical pixels, of which a scale factor says how many a logical one is.
pub proof fn law_wheel_turns_in_physical_pixels<S: Scalar>(
    turn: WheelTurn<S>,
    steps: WheelSteps<S>,
    width: S,
    height: S,
    scale_factor: S,
)
    ensures
        wheel_steps_over(width, height, scale_factor).line == S::spec_whole(120).spec_times(
            scale_factor,
        ),
        wheel_steps_over(width, height, scale_factor).page_x == width.spec_times(scale_factor),
        wheel_steps_over(width, height, scale_factor).page_y == height.spec_times(scale_factor),
        turn matches WheelTurn::Lines { x, y } ==> turned_by(turn, steps).0 == x.spec_times(
            steps.line,
        ) && turned_by(turn, steps).1 == y.spec_times(steps.line),
        turn matches WheelTurn::Pages { x, y } ==> turned_by(turn, steps).0 == x.spec_times(
            steps.page_x,
        ) && turned_by(turn, steps).1 == y.spec_times(steps.page_y),
        turn matches WheelTurn::Pixels { x, y } ==> turned_by(turn, steps).0 == x && turned_by(
            turn,
            steps,
        ).1 == y,
{
}

/// A turn of the wheel scrolls against so many logical pixels as its physical ones make up,
/// whatever the state of a strip that runs from left to right, and along with them in one that
/// runs from right to left.
pub proof fn law_turn_scrolls<S: Scalar, W>(
    s: ScrollState<S, W>,
    turn: WheelTurn<S>,
    width: S,
    height: S,
    f: S,
)
    ensures
        ({
            let line = S::spec_whole(120).spec_times(f);
            let (px, py) = match turn {
                WheelTurn::Lines { x, y } => (x.spec_times(line), y.spec_times(line)),
                WheelTurn::Pages { x, y } => (
                    x.spec_times(width.spec_times(f)),
                    y.spec_times(height.spec_times(f)),
                ),
                WheelTurn::Pixels { x, y } => (x, y),
            };
            let turned = if px.spec_unscaled(f).spec_is_zero() {
                py.spec_unscaled(f)
            } else {
                px.spec_unscaled(f)
            };
            let delta = s.turn_delta(turn, width, height, f);
            &&& s.left_to_right ==> delta == turned.spec_negated()
            &&& !s.left_to_right ==> delta == turned.spec_negated().spec_negated()
        }),
{
}

/// The page keys scroll on and back by 2000, the arrow keys by 20: on screen, the strip goes the
/// way of the arrow. No other key scrolls, and nothing but the direction of the strip matters.
pub proof fn law_keys_scroll<S: Scalar, W>(s: ScrollState<S, W>)
    ensures
        s.key_delta(ScrollKey::PageDown) == Some(S::spec_whole(2000)),
        s.key_delta(ScrollKey::PageUp) == Some(S::spec_whole(2000).spec_negated()),
        s.left_to_right ==> {
            &&& s.key_delta(ScrollKey::ArrowLeft) == Some(S::spec_whole(20))
            &&& s.key_delta(ScrollKey::ArrowRight) == Some(S::spec_whole(20).spec_negated())
        },
        !s.left_to_right ==> {
            &&& s.key_delta(ScrollKey::ArrowLeft) == Some(S::spec_whole(20).spec_negated())
            &&& s.key_delta(ScrollKey::ArrowRight) == Some(
                S::spec_whole(20).spec_negated().spec_negated(),
            )
        },
        s.key_delta(ScrollKey::Other) is None,
{
}

/// In whole pixels, the same in numbers.
pub proof fn law_keys_scroll_pixels<W>(s: ScrollState<i64, W>)
    ensures
        s.key_delta(ScrollKey::PageDown) == Some(2000i64),
        s.key_delta(ScrollKey::PageUp) == Some(-2000i64),
        s.key_delta(ScrollKey::ArrowLeft) == Some(
            if s.left_to_right {
                20i64
            } else {
                -20i64
            },
        ),
        s.key_delta(ScrollKey::ArrowRight) == Some(
            if s.left_to_right {
                -20i64
            } else {
                20i64
            },
        ),
{
}

/// An assistive technology that asks to scroll right scrolls a strip that runs from left to right
/// on by the amount, and one that asks to scroll left scrolls it back. Along a strip that runs from
/// right to left it is the other way round. No other request scrolls.
pub proof fn law_access_scrolls<S: Scalar, W>(s: ScrollState<S, W>, amount: S)
    ensures
        s.left_to_right ==> {
            &&& s.access_delta(ScrollAccessAction::ScrollRight, amount) == Some(amount)
            &&& s.access_delta(ScrollAccessAction::ScrollLeft, amount) == Some(
                amount.spec_negated(),
            )
        },
        !s.left_to_right ==> {
            &&& s.access_delta(ScrollAccessAction::ScrollRight, amount) == Some(
                amount.spec_negated(),
            )
            &&& s.access_delta(ScrollAccessAction::ScrollLeft, amount) == Some(
                amount.spec_negated().spec_negated(),
            )
        },
        s.access_delta(ScrollAccessAction::Other, amount) is None,
{
}

/// By itself, a strip that runs from left to right moves against its velocity for as long as it has
/// been given, and one that runs from right to left along with it.
pub proof fn law_strip_moves_by_itself<S: Scalar, W>(s: ScrollState<S, W>, nanos: u64)
    ensures
        s.left_to_right ==> s.autoscroll_delta(nanos) == s.autoscroll_velocity.spec_travel(
            nanos,
        ).spec_negated(),
        !s.left_to_right ==> s.autoscroll_delta(nanos) == s.autoscroll_velocity.spec_travel(
            nanos,
        ).spec_negated().spec_negated(),
{
}

/// In whole pixels, the strip moves by its velocity times the time, rounded towards 0 and stopped
/// at the end of `i64`, with the sign of the velocity turned in a strip that runs from left to
/// right.
pub proof fn law_strip_moves_by_velocity_times_time<W>(s: ScrollState<i64, W>, nanos: u64)
    ensures
        ({
            let moved = vstd::math::abs(s.autoscroll_delta(nanos) as int);
            let exact = vstd::math::abs(s.autoscroll_velocity as int) * nanos;
            &&& moved <= i64::MAX
            &&& moved * 1_000_000_000 <= exact
            &&& exact < (moved + 1) * 1_000_000_000 || moved == i64::MAX
            &&& s.left_to_right == (s.autoscroll_velocity >= 0) ==> s.autoscroll_delta(nanos) <= 0
            &&& s.left_to_right != (s.autoscroll_velocity >= 0) ==> s.autoscroll_delta(nanos) >= 0
        }),
{
    let v = vstd::math::abs(s.autoscroll_velocity as int) as int;
    assert(v * nanos >= 0) by (nonlinear_arith)
        requires
            v >= 0,
    ;
}

/// A layout is due when the viewport starts before the anchor does, or where it ends or behind.
pub proof fn law_anchor_is_left<S: Scalar>(scroll_offset: S, anchor_offset: S, anchor_extent: S)
    ensures
        scroll_offset.spec_below(anchor_offset) ==> left_anchor(
            scroll_offset,
            anchor_offset,
            anchor_extent,
        ),
        anchor_offset.spec_plus(anchor_extent).spec_at_most(scroll_offset) ==> left_anchor(
            scroll_offset,
            anchor_offset,
            anchor_extent,
        ),
        left_anchor(scroll_offset, anchor_offset, anchor_extent) ==> scroll_offset.spec_below(
            anchor_offset,
        ) || anchor_offset.spec_plus(anchor_extent).spec_at_most(scroll_offset),
{
}

/// On a ruler, no layout is due exactly while the viewport starts within the anchor.
pub proof fn law_anchor_is_left_on_ruler<S: Scalar>(
    r: Ruler<S>,
    scroll_offset: S,
    anchor_offset: S,
    anchor_extent: S,
)
    requires
        r.exact(),
        r.has(scroll_offset),
        r.has(anchor_offset),
        r.has(anchor_extent),
        r.reaches(r.at(anchor_offset) + r.at(anchor_extent)),
    ensures
        !left_anchor(scroll_offset, anchor_offset, anchor_extent) <==> r.at(anchor_offset) <= r.at(
            scroll_offset,
        ) && r.at(scroll_offset) < r.at(anchor_offset) + r.at(anchor_extent),
{
}

/// A viewport stays if either of it and the target reaches at least as far as the other on both
/// sides. Else, with as much of the target as fits, it ends at the near end of that part and keeps
/// its width.
pub proof fn law_pan<S: Scalar>(v: Range<S>, t: Range<S>)
    ensures
        ({
            let p = panned(v, t);
            let inside = v.start.spec_at_most(t.start) && t.end.spec_at_most(v.end);
            let around = t.start.spec_at_most(v.start) && v.end.spec_at_most(t.end);
            let width = v.end.spec_minus(v.start);
            let part = width.spec_least(t.end.spec_minus(t.start));
            &&& inside || around ==> p == v
            &&& !inside && !around && t.start.spec_at_most(v.start) ==> {
                &&& p.start == t.end.spec_minus(part)
                &&& p.end == p.start.spec_plus(width)
            }
            &&& !inside && !around && !t.start.spec_at_most(v.start) ==> {
                &&& p.end == t.start.spec_plus(part)
                &&& p.start == p.end.spec_minus(width)
            }
        }),
{
}

/// On a ruler, a viewport that is panned keeps its width, shows all of the target or nothing else,
/// and goes no farther than any other viewport of its width that does so.
pub proof fn law_pan_is_nearest_on_ruler<S: Scalar>(
    r: Ruler<S>,
    v: Range<S>,
    t: Range<S>,
    other_start: int,
)
    requires
        r.exact(),
        r.measures(v),
        r.measures(t),
    ensures
        ({
            let p = panned(v, t);
            let width = r.at(v.end) - r.at(v.start);
            let shows = |start: int|
                {
                    ||| start <= r.at(t.start) && r.at(t.end) <= start + width
                    ||| r.at(t.start) <= start && start + width <= r.at(t.end)
                };
            &&& r.at(p.end) - r.at(p.start) == width
            &&& shows(r.at(p.start))
            &&& shows(other_start) ==> vstd::math::abs(r.at(p.start) - r.at(v.start))
                <= vstd::math::abs(other_start - r.at(v.start))
        }),
{
    let width = v.end.spec_minus(v.start);
    let part = width.spec_least(t.end.spec_minus(t.start));
    assert(r.has(width) && r.has(part));
}

// --- Positions

/// An active child goes as far right of the anchor's start as it begins behind it or, where the
/// strip runs from right to left, with its right edge as far left. It goes to the top. Any other
/// child is put away.
pub proof fn law_child_goes<S: Scalar, W>(
    s: ScrollState<S, W>,
    strip: Range<usize>,
    anchor_offset: S,
    span: ItemSpan<S>,
)
    ensures
        ({
            let behind = span.offset.spec_minus(anchor_offset);
            let near = strip.start <= span.index && span.index < strip.end;
            let placement = s.placement(strip, anchor_offset, span);
            &&& near && s.left_to_right ==> placement == (Placement::Place {
                index: span.index,
                x: behind,
                y: S::spec_zero(),
            })
            &&& near && !s.left_to_right ==> placement == (Placement::Place {
                index: span.index,
                x: behind.spec_negated().spec_minus(span.extent),
                y: S::spec_zero(),
            })
            &&& !near ==> placement == (Placement::<S>::Stash { index: span.index })
        }),
{
}

/// Children move back by as much as the viewport starts behind the anchor, and forth along a strip
/// that runs from right to left, which starts at the right edge of the viewport.
pub proof fn law_children_move<S: Scalar, W>(s: ScrollState<S, W>, offset: S, width: S)
    ensures
        s.left_to_right ==> s.translation(offset, width) == offset.spec_negated().spec_plus(
            S::spec_zero(),
        ),
        !s.left_to_right ==> s.translation(offset, width)
            == offset.spec_negated().spec_negated().spec_plus(width),
{
}

/// The total width of no child is 0, and each child adds its width to that of those before it.
pub proof fn law_every_child_counts<S: Scalar>(widths: Seq<S>, next: S)
    ensures
        total_width(Seq::<S>::empty()) == S::spec_zero(),
        total_width(widths.push(next)) == total_width(widths).spec_plus(next),
{
    assert(widths.push(next).drop_last() =~= widths);
}

/// The mean width of some children is their total width shared by all of them, unless that is 0. No
/// child has no mean width.
pub proof fn law_mean_is_shared_by_all<S: Scalar>(widths: Seq<S>)
    requires
        widths.len() <= usize::MAX,
    ensures
        widths.len() == 0 ==> mean_width(widths) is None,
        total_width(widths).spec_is_zero() ==> mean_width(widths) is None,
        widths.len() > 0 && !total_width(widths).spec_is_zero() ==> mean_width(widths) == Some(
            total_width(widths).spec_share(widths.len() as usize),
        ),
{
}

/// On a ruler, the total width is the sum of all widths.
pub proof fn law_total_is_the_sum_on_ruler<S: Scalar>(r: Ruler<S>, widths: Seq<S>)
    requires
        r.exact(),
        forall|k: int| 0 <= k < widths.len()
            ==> r.has(#[trigger] widths[k]) && r.at(widths[k]) >= 0,
        widths.fold_left(0int, |sum: int, width: S| sum + r.at(width)) <= r.reach,
    ensures
        r.has(total_width(widths)),
        r.at(total_width(widths)) == widths.fold_left(0int, |sum: int, width: S| sum + r.at(width)),
        r.at(total_width(widths)) >= 0,
    decreases widths.len(),
{
    if widths.len() > 0 {
        let init = widths.drop_last();
        let add = |sum: int, width: S| sum + r.at(width);
        reveal_with_fuel(Seq::fold_left, 2);
        assert(widths.fold_left(0int, add) == init.fold_left(0int, add) + r.at(widths.last()));
        assert(r.at(widths[widths.len() - 1]) >= 0);
        assert forall|k: int| 0 <= k < init.len() implies r.has(#[trigger] init[k]) && r.at(init[k])
            >= 0 by {
            assert(r.has(widths[k]));
        }
        law_total_is_the_sum_on_ruler(r, init);
        law_every_child_counts(init, widths.last());
        assert(init.push(widths.last()) =~= widths);
    } else {
        reveal_with_fuel(Seq::fold_left, 1);
        assert(widths =~= Seq::empty());
        law_every_child_counts(widths, S::spec_zero());
    }
}

/// In whole pixels, the mean width is the sum of all widths divided by their number, rounded down.
pub proof fn law_mean_is_sum_by_number(widths: Seq<i64>, mean: i64)
    requires
        widths.len() <= usize::MAX,
        forall|k: int| 0 <= k < widths.len() ==> #[trigger] widths[k] >= 0,
        widths.fold_left(0int, |sum: int, width: i64| sum + width) <= i64::MAX,
    ensures
        ({
            let sum = widths.fold_left(0int, |sum: int, width: i64| sum + width);
            &&& mean_width(widths) is None <==> sum == 0
            &&& mean_width(widths) == Some(mean) ==> mean * widths.len() <= sum && sum < (mean + 1)
                * widths.len()
        }),
{
    let r = pixels();
    law_pixels_are_exact();
    let plain = |sum: int, width: i64| sum + width;
    let read = |sum: int, width: i64| sum + r.at(width);
    assert(plain =~= read);
    assert forall|k: int| 0 <= k < widths.len() implies r.has(#[trigger] widths[k]) && r.at(
        widths[k],
    ) >= 0 by {
        assert(widths[k] >= 0);
    }
    law_total_is_the_sum_on_ruler(r, widths);
    let sum = total_width(widths) as int;
    let n = widths.len() as int;
    if n == 0 {
        assert(widths =~= Seq::empty());
        law_every_child_counts(widths, 0i64);
    } else {
        assert((sum / n) * n <= sum && sum < (sum / n + 1) * n && 0 <= sum / n <= sum)
            by (nonlinear_arith)
            requires
                sum >= 0,
                n > 0,
        ;
    }
}

// --- What assistive technologies are told

/// The scroll position is that of the anchor, were all items before it of the default width, and
/// how far the viewport starts behind it. It is told of no anchor that is the first item or that
/// no item can be.
pub proof fn law_scroll_position<S: Scalar, W>(
    s: ScrollState<S, W>,
    default_extent: S,
    offset_from_anchor: S,
)
    ensures
        s.scroll_position(default_extent, offset_from_anchor) is None <==> s.anchor_index == 0
            || s.anchor_index == usize::MAX,
        0 < s.anchor_index && s.anchor_index < usize::MAX ==> s.scroll_position(
            default_extent,
            offset_from_anchor,
        ) == Some(
            S::spec_whole(s.anchor_index).spec_times(default_extent).spec_plus(offset_from_anchor),
        ),
{
}

/// An item is past the end if its index is the number of items, unless it ends just where the
/// viewport does.
pub proof fn law_past_end<S: Scalar, W>(
    s: ScrollState<S, W>,
    last: ItemSpan<S>,
    scroll_offset: S,
    viewport_extent: S,
)
    ensures
        s.past_end(last, scroll_offset, viewport_extent) ==> last.index == s.item_count,
        last.index == s.item_count ==> s.past_end(last, scroll_offset, viewport_extent)
            == !last.offset.spec_plus(last.extent).spec_minus(scroll_offset).spec_minus(
            viewport_extent,
        ).spec_is_zero(),
{
}

// --- Whole pixels

/// An integer in the range of `i64` is kept, one above it becomes the greatest and one below it the
/// least `i64`.
pub proof fn law_nearest_pixel(n: int)
    ensures
        i64::MIN <= n <= i64::MAX ==> nearest_i64(n) == n,
        n > i64::MAX ==> nearest_i64(n) == i64::MAX,
        n < i64::MIN ==> nearest_i64(n) == i64::MIN,
{
}

/// Sums, differences, products and signs of whole pixels are those of integers where these are in
/// the range of `i64`, and the nearest bound where they are not.
pub proof fn law_pixel_arithmetic(a: i64, b: i64, n: usize)
    ensures
        i64::spec_zero() == 0,
        n <= i64::MAX ==> i64::spec_whole(n) == n,
        n > i64::MAX ==> i64::spec_whole(n) == i64::MAX,
        i64::MIN <= a + b <= i64::MAX ==> a.spec_plus(b) == a + b,
        a + b > i64::MAX ==> a.spec_plus(b) == i64::MAX,
        a + b < i64::MIN ==> a.spec_plus(b) == i64::MIN,
        i64::MIN <= a - b <= i64::MAX ==> a.spec_minus(b) == a - b,
        a - b > i64::MAX ==> a.spec_minus(b) == i64::MAX,
        a - b < i64::MIN ==> a.spec_minus(b) == i64::MIN,
        i64::MIN <= a * b <= i64::MAX ==> a.spec_times(b) == a * b,
        a * b > i64::MAX ==> a.spec_times(b) == i64::MAX,
        a * b < i64::MIN ==> a.spec_times(b) == i64::MIN,
        a > i64::MIN ==> a.spec_negated() == -a,
        a == i64::MIN ==> a.spec_negated() == i64::MAX,
        a <= b ==> a.spec_least(b) == a,
        b <= a ==> a.spec_least(b) == b,
        a.spec_is_zero() <==> a == 0,
        a.spec_below(b) <==> a < b,
        a.spec_at_most(b) <==> a <= b,
        a.spec_is_scale_factor() <==> a > 0,
{
}

/// Whole pixels that are shared are rounded towards 0, and keep their sign.
pub proof fn law_pixels_are_shared(a: i64, count: usize)
    requires
        count > 0,
    ensures
        ({
            let part = vstd::math::abs(a.spec_share(count) as int);
            &&& a >= 0 ==> a.spec_share(count) >= 0
            &&& a <= 0 ==> a.spec_share(count) <= 0
            &&& a > i64::MIN || count > 1 ==> part * count <= vstd::math::abs(a as int)
                && vstd::math::abs(a as int) < (part + 1) * count
            &&& a == i64::MIN && count == 1 ==> a.spec_share(count) == a
        }),
{
    let n = vstd::math::abs(a as int) as int;
    let d = count as int;
    assert((n / d) * d <= n && n < (n / d + 1) * d && 0 <= n / d <= n) by (nonlinear_arith)
        requires
            n >= 0,
            d > 0,
    ;
}

/// Physical pixels in logical ones are rounded away from 0, and keep their sign.
pub proof fn law_pixels_are_unscaled(a: i64, scale_factor: i64)
    requires
        scale_factor > 0,
    ensures
        ({
            let logical = vstd::math::abs(a.spec_unscaled(scale_factor) as int);
            &&& a >= 0 ==> a.spec_unscaled(scale_factor) >= 0
            &&& a <= 0 ==> a.spec_unscaled(scale_factor) <= 0
            &&& vstd::math::abs(a as int) <= logical * scale_factor
            &&& (logical - 1) * scale_factor < vstd::math::abs(a as int)
        }),
{
    let n = vstd::math::abs(a as int) as int;
    let d = scale_factor as int;
    let q = (n + d - 1) / d;
    assert(n <= q * d && (q - 1) * d < n && 0 <= q <= n) by (nonlinear_arith)
        requires
            n >= 0,
            d > 0,
            q == (n + d - 1) / d,
    ;
}

/// A velocity times a duration is rounded towards 0, keeps its sign, and stops at the ends of
/// `i64`.
pub proof fn law_pixels_travel(v: i64, nanos: u64)
    ensures
        ({
            let moved = v.spec_travel(nanos) as int;
            let exact = vstd::math::abs(v as int) * nanos;
            &&& v >= 0 ==> moved >= 0
            &&& v <= 0 ==> moved <= 0
            &&& vstd::math::abs(moved) * 1_000_000_000 <= exact
            &&& exact < (vstd::math::abs(moved) + 1) * 1_000_000_000 || moved == i64::MAX || moved
                == i64::MIN
        }),
{
    let n = vstd::math::abs(v as int) as int;
    assert(n * nanos >= 0) by (nonlinear_arith)
        requires
            n >= 0,
    ;
    assert(v <= 0 && v >= 0 ==> n * nanos == 0) by (nonlinear_arith)
        requires
            n == vstd::math::abs(v as int),
    ;
}

} // verus!
