//! What holds of the widget as a whole.

use std::ops::Range;

use vstd::prelude::*;

use crate::action::{index_seq, index_set, lemma_filter_members, range_len, seq_outside};
use crate::action::{VirtualHScrollAction, VirtualHScrollFetchAction};
use crate::input::{left_anchor, ScrollAccessAction, ScrollKey, WheelTurn};
use crate::input::{DELTA_LINE, DELTA_PAGE, DELTA_WHEEL_LINE};
use crate::layout::{is_first_set, is_last_set, range_seen, ItemSpan, Placement};
use crate::pan::{covers, panned};
use crate::ruler::{law_scaling_cancels, lemma_rounding_up_keeps, Ruler};
use crate::scalar::Scalar;
use crate::virtual_hscroll::{ScrollState, MAX_MISSED_ACTIONS};

verus! {

// --- Loading children

/// A new widget expects no child: it has not asked for any.
pub proof fn law_new_widget_expects_no_child<S: Scalar, W>(anchor: usize, len: usize, idx: usize)
    ensures
        !ScrollState::<S, W>::initial(anchor, len).expects_child(idx),
{
}

/// A request is accepted by the widget that sent it. Once it has been taken up, the items it asks
/// for are the active ones, and a layout that finds the same items near the viewport sends no
/// other request.
pub proof fn law_request_settles<S: Scalar, W>(
    s: ScrollState<S, W>,
    strip: Range<usize>,
    visible: Seq<bool>,
    action: VirtualHScrollFetchAction,
)
    requires
        s.fetch(strip) == Some(VirtualHScrollAction::Fetch(action)),
    ensures
        ({
            let sent = s.laid_out(strip, visible);
            let taken = sent.handling(action);
            &&& !sent.action_handled
            &&& sent.expects_action(action)
            &&& action.target != action.old_active
            &&& taken.active_range == strip
            &&& taken.action_handled
            &&& taken.fetch(strip) is None
            &&& taken.laid_out(strip, visible) == taken
        }),
{
}

/// Until a request is taken up, every layout that finds the same items near the viewport sends
/// the same request, and changes nothing.
pub proof fn law_layout_is_idempotent<S: Scalar, W>(
    s: ScrollState<S, W>,
    strip: Range<usize>,
    visible: Seq<bool>,
)
    ensures
        s.laid_out(strip, visible).fetch(strip) == s.fetch(strip),
        s.laid_out(strip, visible).laid_out(strip, visible) == s.laid_out(strip, visible),
{
}

/// Of two requests that were sent from the same active range, taking one up makes the other stale:
/// it no longer starts from the range that is active.
pub proof fn law_stacked_request_goes_stale<S: Scalar, W>(
    s: ScrollState<S, W>,
    first: VirtualHScrollFetchAction,
    second: VirtualHScrollFetchAction,
)
    requires
        s.fetch(first.target) == Some(VirtualHScrollAction::Fetch(first)),
        s.fetch(second.target) == Some(VirtualHScrollAction::Fetch(second)),
    ensures
        !s.handling(first).expects_action(second),
{
}

/// When the strip has been cut down to `len` items, a layout that finds no others near the viewport
/// sends a request that drops every active child past the new end, so that the driver removes it
/// when it takes the request up, and not before.
pub proof fn law_children_past_the_end_are_dropped<S: Scalar, W>(
    s: ScrollState<S, W>,
    len: usize,
    strip: Range<usize>,
    visible: Seq<bool>,
    idx: usize,
)
    requires
        strip.end <= len <= idx,
        index_set(s.active_range).contains(idx),
    ensures
        ({
            let cut = ScrollState { item_count: len, ..s };
            &&& !cut.releases_child(idx)
            &&& cut.fetch(strip) matches Some(VirtualHScrollAction::Fetch(action))
            &&& index_set(action.old_active).contains(idx)
            &&& !index_set(action.target).contains(idx)
            &&& seq_outside(action.old_active, action.target).contains(idx)
            &&& cut.laid_out(strip, visible).expects_action(action)
            &&& cut.laid_out(strip, visible).handling(action).releases_child(idx)
        }),
{
    let all = index_seq(s.active_range);
    lemma_filter_members(all, |i: usize| !index_set(strip).contains(i), idx);
    assert(all[idx - s.active_range.start] == idx);
}

/// The state after the children at `doomed` have been removed, one after the other.
pub open spec fn after_removals<S: Scalar, W>(
    s: ScrollState<S, W>,
    doomed: Seq<usize>,
) -> ScrollState<S, W>
    decreases doomed.len(),
{
    if doomed.len() == 0 {
        s
    } else {
        after_removals(s, doomed.drop_last()).without_child(doomed.last())
    }
}

/// The state after children have been added, one after the other.
pub open spec fn after_additions<S: Scalar, W>(
    s: ScrollState<S, W>,
    added: Seq<(usize, W)>,
) -> ScrollState<S, W>
    decreases added.len(),
{
    if added.len() == 0 {
        s
    } else {
        after_additions(s, added.drop_last()).with_child(added.last().0, added.last().1)
    }
}

/// The indices at which children are added.
pub open spec fn indices_of<W>(added: Seq<(usize, W)>) -> Set<usize> {
    added.map_values(|entry: (usize, W)| entry.0).to_set()
}

proof fn lemma_after_removals<S: Scalar, W>(s: ScrollState<S, W>, doomed: Seq<usize>)
    ensures
        after_removals(s, doomed) == (ScrollState {
            items: s.items.remove_keys(doomed.to_set()),
            ..s
        }),
    decreases doomed.len(),
{
    if doomed.len() == 0 {
        assert(s.items.remove_keys(doomed.to_set()) =~= s.items);
    } else {
        lemma_after_removals(s, doomed.drop_last());
        assert(doomed =~= doomed.drop_last().push(doomed.last()));
        assert forall|i: usize| #[trigger]
            doomed.to_set().contains(i) == (doomed.drop_last().to_set().contains(i) || i
                == doomed.last()) by {
            if doomed.contains(i) && i != doomed.last() {
                let k = doomed.index_of(i);
                assert(doomed.drop_last()[k] == i);
            }
            if doomed.drop_last().contains(i) {
                let k = doomed.drop_last().index_of(i);
                assert(doomed[k] == i);
            }
            assert(doomed[doomed.len() - 1] == doomed.last());
        }
        assert(s.items.remove_keys(doomed.drop_last().to_set()).remove(doomed.last())
            =~= s.items.remove_keys(doomed.to_set()));
    }
}

proof fn lemma_after_additions<S: Scalar, W>(s: ScrollState<S, W>, added: Seq<(usize, W)>)
    ensures
        after_additions(s, added).items.dom() == s.items.dom().union(indices_of(added)),
        after_additions(s, added) == (ScrollState {
            items: after_additions(s, added).items,
            ..s
        }),
        forall|i: usize|
            !indices_of(added).contains(i) && s.items.contains_key(i)
                ==> #[trigger] after_additions(s, added).items[i] == s.items[i],
    decreases added.len(),
{
    let key = |entry: (usize, W)| entry.0;
    if added.len() == 0 {
        assert(s.items.dom().union(indices_of(added)) =~= s.items.dom());
    } else {
        let init = added.drop_last();
        lemma_after_additions(s, init);
        assert forall|i: usize| #[trigger]
            indices_of(added).contains(i) == (indices_of(init).contains(i) || i
                == added.last().0) by {
            let all = added.map_values(key);
            let some = init.map_values(key);
            if all.contains(i) && i != added.last().0 {
                let k = all.index_of(i);
                assert(some[k] == i);
            }
            if some.contains(i) {
                let k = some.index_of(i);
                assert(all[k] == i);
            }
            assert(all[added.len() - 1] == added.last().0);
        }
        assert(after_additions(s, added).items.dom() =~= s.items.dom().union(indices_of(added)));
    }
}

/// A driver that takes up the request of a widget, removes what is no longer active and adds what
/// has become active does nothing that the widget does not expect. If the loaded children were
/// those of the active range, they are so again, and those that stay active are left alone.
pub proof fn law_driver_keeps_children_dense<S: Scalar, W>(
    s: ScrollState<S, W>,
    action: VirtualHScrollFetchAction,
    doomed: Seq<usize>,
    added: Seq<(usize, W)>,
)
    requires
        s.expects_action(action),
        s.items.dom() == index_set(s.active_range),
        doomed.to_set() == index_set(action.old_active).difference(index_set(action.target)),
        indices_of(added) == index_set(action.target).difference(index_set(action.old_active)),
    ensures
        ({
            let taken = s.handling(action);
            let removed = after_removals(taken, doomed);
            let done = after_additions(removed, added);
            &&& forall|i: usize| doomed.to_set().contains(i) ==> #[trigger] taken.releases_child(i)
            &&& forall|i: usize|
                indices_of(added).contains(i) ==> #[trigger] removed.expects_child(i)
            &&& forall|i: usize|
                indices_of(added).contains(i) ==> !#[trigger] removed.items.contains_key(i)
            &&& done.items.dom() == index_set(action.target)
            &&& forall|i: usize|
                index_set(action.old_active).contains(i) && index_set(action.target).contains(i)
                    ==> #[trigger] done.items[i] == s.items[i]
            &&& done.active_range == action.target
            &&& done.action_handled
        }),
{
    let taken = s.handling(action);
    let removed = after_removals(taken, doomed);
    lemma_after_removals(taken, doomed);
    lemma_after_additions(removed, added);
    assert(after_additions(removed, added).items.dom() =~= index_set(action.target));
}

/// The number of loaded children grows by one with a child at an index that had none, stays with
/// one that displaces another, and shrinks by one with a child that is removed.
pub proof fn law_len_counts_children<S: Scalar, W>(s: ScrollState<S, W>, idx: usize, child: W)
    requires
        s.items.dom().finite(),
    ensures
        s.with_child(idx, child).items.len() == s.items.len() + (if s.items.contains_key(idx) {
            0int
        } else {
            1int
        }),
        s.without_child(idx).items.len() == s.items.len() - (if s.items.contains_key(idx) {
            1int
        } else {
            0int
        }),
{
    assert(s.with_child(idx, child).items.dom() =~= s.items.dom().insert(idx));
    assert(s.without_child(idx).items.dom() =~= s.items.dom().remove(idx));
}

/// Removing a child undoes adding it at an index that had none.
pub proof fn law_remove_undoes_add<S: Scalar, W>(s: ScrollState<S, W>, idx: usize, child: W)
    requires
        !s.items.contains_key(idx),
    ensures
        s.with_child(idx, child).without_child(idx) == s,
{
    assert(s.with_child(idx, child).without_child(idx).items =~= s.items);
}

// --- Late drivers

/// The state after `n` paints in a row.
pub open spec fn painted_times<S: Scalar, W>(s: ScrollState<S, W>, n: nat) -> ScrollState<S, W>
    decreases n,
{
    if n == 0 {
        s
    } else {
        painted_times(s, (n - 1) as nat).painted()
    }
}

/// A request that no one has missed yet is warned of at its first paint and at no other, is given
/// up at the paint after [`MAX_MISSED_ACTIONS`] and one more have missed it, and at no other, and
/// after that further paints change nothing.
pub proof fn law_missed_request_is_warned_of_once_and_given_up<S: Scalar, W>(
    s: ScrollState<S, W>,
    n: nat,
)
    requires
        !s.action_handled,
        s.missed_actions_count == 0,
    ensures
        painted_times(s, n).late() == (n == 0),
        painted_times(s, n).stuck() == (n == MAX_MISSED_ACTIONS + 1),
        painted_times(s, n).action_handled == (n > MAX_MISSED_ACTIONS + 1),
        painted_times(s, n).missed_actions_count == (if n <= MAX_MISSED_ACTIONS + 1 {
            n as int
        } else {
            MAX_MISSED_ACTIONS + 2
        }),
    decreases n,
{
    if n > 0 {
        law_missed_request_is_warned_of_once_and_given_up(s, (n - 1) as nat);
    }
}

/// A driver that has been warned once and then takes up requests is not warned again of a later
/// request.
pub proof fn law_late_driver_is_not_warned_again<S: Scalar, W>(
    s: ScrollState<S, W>,
    action: VirtualHScrollFetchAction,
    strip: Range<usize>,
    visible: Seq<bool>,
)
    requires
        s.missed_actions_count > 0,
    ensures
        !s.handling(action).laid_out(strip, visible).late(),
{
}

// --- Children in view

proof fn lemma_some_first_set(visible: Seq<bool>, k: int) -> (first: int)
    requires
        0 <= k < visible.len(),
        visible[k],
    ensures
        is_first_set(visible, first),
        first <= k,
    decreases k,
{
    if exists|j: int| 0 <= j < k && visible[j] {
        let j = choose|j: int| 0 <= j < k && visible[j];
        lemma_some_first_set(visible, j)
    } else {
        k
    }
}

proof fn lemma_some_last_set(visible: Seq<bool>, k: int) -> (last: int)
    requires
        0 <= k < visible.len(),
        visible[k],
    ensures
        is_last_set(visible, last),
        k <= last,
    decreases visible.len() - k,
{
    if exists|j: int| k < j < visible.len() && visible[j] {
        let j = choose|j: int| k < j < visible.len() && visible[j];
        lemma_some_last_set(visible, j)
    } else {
        k
    }
}

/// Where any item is in view, the anchor after a layout is one: the first of them. The range that
/// is reported to the driver begins there and does not run backwards, and no item outside it is in
/// view, save the one at its end.
pub proof fn law_anchor_is_first_in_view<S: Scalar, W>(
    s: ScrollState<S, W>,
    strip: Range<usize>,
    visible: Seq<bool>,
    k: int,
)
    requires
        visible.len() == range_len(strip),
        0 <= k < visible.len(),
        visible[k],
    ensures
        ({
            let anchor = s.laid_out(strip, visible).anchor_index;
            &&& index_set(strip).contains(anchor)
            &&& visible[anchor - strip.start]
            &&& range_seen(strip, visible) matches Some(seen)
            &&& seen.start == anchor
            &&& seen.start <= strip.start + k <= seen.end
            &&& index_set(strip).contains(seen.end)
            &&& visible[seen.end - strip.start]
        }),
{
    let first = lemma_some_first_set(visible, k);
    let last = lemma_some_last_set(visible, k);
    assert(is_first_set(visible, first));
    assert(is_last_set(visible, last));
}

/// Where no item is in view, a layout keeps its anchor and nothing is reported.
pub proof fn law_nothing_in_view_changes_nothing<S: Scalar, W>(
    s: ScrollState<S, W>,
    strip: Range<usize>,
    visible: Seq<bool>,
)
    requires
        forall|k: int| 0 <= k < visible.len() ==> !visible[k],
    ensures
        s.laid_out(strip, visible).anchor_index == s.anchor_index,
        s.composed(strip, visible) == s,
        s.scrolled_into_view(strip, visible) is None,
{
}

/// The driver is told of the children in view once: not again while they stay the same.
pub proof fn law_view_is_reported_once<S: Scalar, W>(
    s: ScrollState<S, W>,
    strip: Range<usize>,
    visible: Seq<bool>,
)
    ensures
        s.composed(strip, visible).scrolled_into_view(strip, visible) is None,
        s.composed(strip, visible).composed(strip, visible) == s.composed(strip, visible),
{
}

/// Once a request has been taken up, the children that are moved are those that layouts place:
/// the loaded ones that were asked for.
pub proof fn law_moved_children_are_placed<S: Scalar, W>(
    s: ScrollState<S, W>,
    anchor_offset: S,
    span: ItemSpan<S>,
)
    requires
        s.items.contains_key(span.index),
    ensures
        s.active_children().contains(span.index) == (s.placement(
            s.active_range,
            anchor_offset,
            span,
        ) is Place),
{
    let all = index_seq(s.active_range);
    let loaded = |i: usize| s.items.contains_key(i);
    lemma_filter_members(all, loaded, span.index);
    if index_set(s.active_range).contains(span.index) {
        assert(all[span.index - s.active_range.start] == span.index);
    }
}

// --- Directions

/// Turning the direction of the strip turns the sign of what the mouse wheel, the arrow keys,
/// assistive technologies and the strip itself scroll by.
pub proof fn law_direction_mirrors_scrolling<S: Scalar, W>(
    s: ScrollState<S, W>,
    x: S,
    y: S,
    amount: S,
    nanos: u64,
)
    requires
        s.left_to_right,
    ensures
        ({
            let mirrored = ScrollState { left_to_right: false, ..s };
            &&& mirrored.wheel_delta(x, y) == s.wheel_delta(x, y).spec_negated()
            &&& mirrored.key_delta(ScrollKey::ArrowLeft)->0 == s.key_delta(
                ScrollKey::ArrowLeft,
            )->0.spec_negated()
            &&& mirrored.key_delta(ScrollKey::ArrowRight)->0 == s.key_delta(
                ScrollKey::ArrowRight,
            )->0.spec_negated()
            &&& mirrored.access_delta(ScrollAccessAction::ScrollLeft, amount)->0
                == s.access_delta(ScrollAccessAction::ScrollLeft, amount)->0.spec_negated()
            &&& mirrored.access_delta(ScrollAccessAction::ScrollRight, amount)->0
                == s.access_delta(ScrollAccessAction::ScrollRight, amount)->0.spec_negated()
            &&& mirrored.autoscroll_delta(nanos) == s.autoscroll_delta(nanos).spec_negated()
        }),
{
}

/// The page keys do not depend on the direction of the strip.
pub proof fn law_page_keys_ignore_direction<S: Scalar, W>(
    s: ScrollState<S, W>,
    left_to_right: bool,
)
    ensures
        ({
            let turned = ScrollState { left_to_right, ..s };
            &&& turned.key_delta(ScrollKey::PageDown) == s.key_delta(ScrollKey::PageDown)
            &&& turned.key_delta(ScrollKey::PageUp) == s.key_delta(ScrollKey::PageUp)
        }),
{
}

/// Whatever the direction, each scrolling key has one that scrolls by the same distance with its
/// sign turned, and so has each request of an assistive technology.
pub proof fn law_opposites_turn_the_sign<S: Scalar, W>(s: ScrollState<S, W>, amount: S)
    ensures
        s.key_delta(ScrollKey::PageUp)->0 == s.key_delta(ScrollKey::PageDown)->0.spec_negated(),
        s.key_delta(ScrollKey::ArrowRight)->0 == s.key_delta(
            ScrollKey::ArrowLeft,
        )->0.spec_negated(),
        s.access_delta(ScrollAccessAction::ScrollLeft, amount)->0 == s.access_delta(
            ScrollAccessAction::ScrollRight,
            amount,
        )->0.spec_negated(),
{
}

/// In whole pixels, each scrolling key has one that undoes it, and so has each request of an
/// assistive technology.
pub proof fn law_opposites_cancel<W>(s: ScrollState<i64, W>, amount: i64)
    requires
        amount > i64::MIN,
    ensures
        s.key_delta(ScrollKey::PageDown)->0 + s.key_delta(ScrollKey::PageUp)->0 == 0,
        s.key_delta(ScrollKey::ArrowLeft)->0 + s.key_delta(ScrollKey::ArrowRight)->0 == 0,
        s.access_delta(ScrollAccessAction::ScrollLeft, amount)->0 + s.access_delta(
            ScrollAccessAction::ScrollRight,
            amount,
        )->0 == 0,
{
}

/// A wheel that only turns vertically scrolls as far as one that turns as much horizontally.
pub proof fn law_vertical_wheel_scrolls_too<S: Scalar, W>(
    s: ScrollState<S, W>,
    still: S,
    turn: S,
    other: S,
)
    requires
        still.spec_is_zero(),
        !turn.spec_is_zero(),
    ensures
        s.wheel_delta(still, turn) == s.wheel_delta(turn, other),
{
}

/// A turn of the wheel by lines or pages scrolls equally far at every scale factor: by so many
/// logical lines, or widths and heights of the viewport.
pub proof fn law_scale_factor_cancels<W>(
    s: ScrollState<i64, W>,
    x: i64,
    y: i64,
    width: i64,
    height: i64,
    scale_factor: i64,
)
    requires
        scale_factor > 0,
        DELTA_WHEEL_LINE * scale_factor <= i64::MAX,
        i64::MIN <= width * scale_factor <= i64::MAX,
        i64::MIN <= height * scale_factor <= i64::MAX,
        i64::MIN <= x * (DELTA_WHEEL_LINE * scale_factor) <= i64::MAX,
        i64::MIN <= y * (DELTA_WHEEL_LINE * scale_factor) <= i64::MAX,
        i64::MIN <= x * (width * scale_factor) <= i64::MAX,
        i64::MIN <= y * (height * scale_factor) <= i64::MAX,
    ensures
        s.turn_delta(WheelTurn::Lines { x, y }, width, height, scale_factor) == s.wheel_delta(
            (x * DELTA_WHEEL_LINE) as i64,
            (y * DELTA_WHEEL_LINE) as i64,
        ),
        s.turn_delta(WheelTurn::Pages { x, y }, width, height, scale_factor) == s.wheel_delta(
            (x * width) as i64,
            (y * height) as i64,
        ),
{
    lemma_scale_cancels(x, DELTA_WHEEL_LINE as int, scale_factor);
    lemma_scale_cancels(y, DELTA_WHEEL_LINE as int, scale_factor);
    lemma_scale_cancels(x, width as int, scale_factor);
    lemma_scale_cancels(y, height as int, scale_factor);
}

proof fn lemma_scale_cancels(n: i64, step: int, scale_factor: i64)
    requires
        scale_factor > 0,
        i64::MIN <= n * (step * scale_factor) <= i64::MAX,
    ensures
        i64::MIN <= n * step <= i64::MAX,
        ((n * (step * scale_factor)) as i64).spec_unscaled(scale_factor) == n * step,
{
    let d = scale_factor as int;
    let q = n * step;
    assert(n * (step * d) == q * d) by (nonlinear_arith)
        requires
            q == n * step,
    ;
    assert(vstd::math::abs(q) <= vstd::math::abs(q * d)) by (nonlinear_arith)
        requires
            d > 0,
    ;
    lemma_rounding_up_keeps(q, d);
}

/// In whole pixels, a velocity of `v` pixels per second moves the strip by `v` pixels in each
/// second, whatever its direction.
pub proof fn law_velocity_is_per_second<W>(s: ScrollState<i64, W>, seconds: u64)
    requires
        seconds * 1_000_000_000 <= u64::MAX,
        i64::MIN < s.autoscroll_velocity * seconds <= i64::MAX,
    ensures
        s.autoscroll_delta((seconds * 1_000_000_000) as u64) == (if s.left_to_right {
            -(s.autoscroll_velocity * seconds)
        } else {
            s.autoscroll_velocity * seconds
        }),
{
    let v = s.autoscroll_velocity as int;
    assert(v * (seconds * 1_000_000_000) == (v * seconds) * 1_000_000_000) by (nonlinear_arith);
    assert((-v) * (seconds * 1_000_000_000) == (-(v * seconds)) * 1_000_000_000)
        by (nonlinear_arith);
    assert(v >= 0 ==> v * seconds >= 0) by (nonlinear_arith);
    assert(v < 0 ==> v * seconds <= 0) by (nonlinear_arith);
}

// --- Distances and positions, in any number type

/// A scrolling key and the one that undoes it scroll by distances that add up to 0, and so do
/// requests of an assistive technology.
pub proof fn law_opposites_cancel_on_ruler<S: Scalar, W>(
    s: ScrollState<S, W>,
    r: Ruler<S>,
    amount: S,
)
    requires
        r.exact(),
        r.has(S::spec_whole(DELTA_PAGE)),
        r.has(S::spec_whole(DELTA_LINE)),
        r.has(amount),
    ensures
        r.at(s.key_delta(ScrollKey::PageDown)->0) + r.at(s.key_delta(ScrollKey::PageUp)->0) == 0,
        r.at(s.key_delta(ScrollKey::ArrowLeft)->0) + r.at(s.key_delta(ScrollKey::ArrowRight)->0)
            == 0,
        r.at(s.access_delta(ScrollAccessAction::ScrollLeft, amount)->0) + r.at(
            s.access_delta(ScrollAccessAction::ScrollRight, amount)->0,
        ) == 0,
{
}

/// A turn of the wheel by lines or pages scrolls as far as if there were no scale factor.
pub proof fn law_scale_factor_cancels_on_ruler<S: Scalar, W>(
    s: ScrollState<S, W>,
    r: Ruler<S>,
    x: S,
    y: S,
    width: S,
    height: S,
    scale_factor: S,
)
    requires
        r.exact(),
        r.exact_products(),
        r.has(x),
        r.has(y),
        r.has(width),
        r.has(height),
        r.has(scale_factor),
        scale_factor.spec_is_scale_factor(),
        r.has(S::spec_whole(DELTA_WHEEL_LINE)),
        ({
            let line = S::spec_whole(DELTA_WHEEL_LINE);
            &&& r.has_product(line, scale_factor)
            &&& r.has_product(x, line)
            &&& r.has_product(y, line)
            &&& r.has_product(x, line.spec_times(scale_factor))
            &&& r.has_product(y, line.spec_times(scale_factor))
        }),
        r.has_product(width, scale_factor),
        r.has_product(height, scale_factor),
        r.has_product(x, width),
        r.has_product(y, height),
        r.has_product(x, width.spec_times(scale_factor)),
        r.has_product(y, height.spec_times(scale_factor)),
    ensures
        ({
            let line = S::spec_whole(DELTA_WHEEL_LINE);
            &&& r.at(s.turn_delta(WheelTurn::Lines { x, y }, width, height, scale_factor)) == r.at(
                s.wheel_delta(x.spec_times(line), y.spec_times(line)),
            )
            &&& r.at(s.turn_delta(WheelTurn::Pages { x, y }, width, height, scale_factor)) == r.at(
                s.wheel_delta(x.spec_times(width), y.spec_times(height)),
            )
        }),
{
    let line = S::spec_whole(DELTA_WHEEL_LINE);
    law_scaling_cancels(r, x, line, scale_factor);
    law_scaling_cancels(r, y, line, scale_factor);
    law_scaling_cancels(r, x, width, scale_factor);
    law_scaling_cancels(r, y, height, scale_factor);
}

/// Where the left edge of a placed child stands in the viewport.
pub open spec fn on_screen_on_ruler<S: Scalar, W>(
    s: ScrollState<S, W>,
    r: Ruler<S>,
    x: S,
    scroll_offset: S,
    anchor_offset: S,
    width: S,
) -> int {
    r.at(x) + r.at(s.translation(scroll_offset.spec_minus(anchor_offset), width))
}

/// A child of a strip that runs from left to right stands as far right of the viewport's left edge
/// as it begins behind the scroll offset. In a strip that runs from right to left, its right edge
/// stands as far left of the viewport's right edge. Which item is the anchor makes no difference.
pub proof fn law_children_follow_scroll_offset_on_ruler<S: Scalar, W>(
    s: ScrollState<S, W>,
    r: Ruler<S>,
    strip: Range<usize>,
    span: ItemSpan<S>,
    scroll_offset: S,
    anchor_offset: S,
    width: S,
)
    requires
        r.exact(),
        index_set(strip).contains(span.index),
        r.moderate(span.offset),
        r.moderate(span.extent),
        r.moderate(scroll_offset),
        r.moderate(anchor_offset),
        r.moderate(width),
    ensures
        s.placement(strip, anchor_offset, span) matches Placement::Place { index, x, y } && {
            let left = on_screen_on_ruler(s, r, x, scroll_offset, anchor_offset, width);
            let behind = r.at(span.offset) - r.at(scroll_offset);
            &&& index == span.index
            &&& r.at(y) == 0
            &&& s.left_to_right ==> left == behind
            &&& !s.left_to_right ==> left + r.at(span.extent) == r.at(width) - behind
        },
{
}

/// An item whose start the viewport starts at stands at the edge of the viewport from which the
/// strip runs.
pub proof fn law_jump_aligns_item_on_ruler<S: Scalar, W>(
    s: ScrollState<S, W>,
    r: Ruler<S>,
    strip: Range<usize>,
    span: ItemSpan<S>,
    anchor_offset: S,
    width: S,
)
    requires
        r.exact(),
        index_set(strip).contains(span.index),
        r.moderate(span.offset),
        r.moderate(span.extent),
        r.moderate(anchor_offset),
        r.moderate(width),
    ensures
        s.placement(strip, anchor_offset, span) matches Placement::Place { index, x, y } && {
            let left = on_screen_on_ruler(s, r, x, span.offset, anchor_offset, width);
            &&& s.left_to_right ==> left == 0
            &&& !s.left_to_right ==> left + r.at(span.extent) == r.at(width)
        },
{
    law_children_follow_scroll_offset_on_ruler(
        s,
        r,
        strip,
        span,
        span.offset,
        anchor_offset,
        width,
    );
}

/// Children that adjoin in the strip adjoin where they are placed, in either direction.
pub proof fn law_neighbours_adjoin_on_ruler<S: Scalar, W>(
    s: ScrollState<S, W>,
    r: Ruler<S>,
    strip: Range<usize>,
    anchor_offset: S,
    a: ItemSpan<S>,
    b: ItemSpan<S>,
)
    requires
        r.exact(),
        index_set(strip).contains(a.index),
        index_set(strip).contains(b.index),
        r.at(b.offset) == r.at(a.offset) + r.at(a.extent),
        r.moderate(anchor_offset),
        r.moderate(a.offset),
        r.moderate(a.extent),
        r.moderate(b.offset),
        r.moderate(b.extent),
    ensures
        ({
            let first = s.placement(strip, anchor_offset, a);
            let second = s.placement(strip, anchor_offset, b);
            &&& s.left_to_right ==> r.at(second->x) == r.at(first->x) + r.at(a.extent)
            &&& !s.left_to_right ==> r.at(second->x) + r.at(b.extent) == r.at(first->x)
        }),
{
}

/// Whether an item overlaps a viewport.
pub open spec fn in_view_on_ruler<S: Scalar>(
    r: Ruler<S>,
    span: ItemSpan<S>,
    scroll_offset: S,
    viewport_extent: S,
) -> bool {
    &&& r.at(span.offset) < r.at(scroll_offset) + r.at(viewport_extent)
    &&& r.at(scroll_offset) < r.at(span.offset) + r.at(span.extent)
}

/// A scroll after which no layout is due leaves the anchor the first item in view, so that a
/// layout would choose it again.
pub proof fn law_anchor_that_is_not_left_stays_on_ruler<S: Scalar, W>(
    s: ScrollState<S, W>,
    r: Ruler<S>,
    strip: Range<usize>,
    spans: Seq<ItemSpan<S>>,
    visible: Seq<bool>,
    scroll_offset: S,
    viewport_extent: S,
    k: int,
)
    requires
        r.exact(),
        r.has(scroll_offset),
        spans.len() == visible.len() == range_len(strip),
        forall|i: int|
            0 <= i < spans.len() ==> visible[i] == in_view_on_ruler(
                r,
                #[trigger] spans[i],
                scroll_offset,
                viewport_extent,
            ),
        forall|i: int, j: int|
            0 <= i < j < spans.len() ==> r.at((#[trigger] spans[i]).offset) + r.at(spans[i].extent)
                <= r.at((#[trigger] spans[j]).offset),
        0 < r.at(viewport_extent),
        0 <= k < spans.len(),
        s.anchor_index == strip.start + k,
        r.has(spans[k].offset),
        r.has(spans[k].extent),
        r.reaches(r.at(spans[k].offset) + r.at(spans[k].extent)),
        !left_anchor(scroll_offset, spans[k].offset, spans[k].extent),
    ensures
        s.laid_out(strip, visible).anchor_index == s.anchor_index,
        visible[k],
{
    assert(visible[k] == in_view_on_ruler(r, spans[k], scroll_offset, viewport_extent));
    assert forall|j: int| 0 <= j < k implies !visible[j] by {
        assert(visible[j] == in_view_on_ruler(r, spans[j], scroll_offset, viewport_extent));
        assert(r.at(spans[j].offset) + r.at(spans[j].extent) <= r.at(spans[k].offset));
    }
    assert(is_first_set(visible, k));
}

/// Scrolling to where a layout plans to scroll keeps the anchor where it was in the viewport,
/// however much the items before it have grown or shrunk.
pub proof fn law_layout_keeps_anchor_in_place_on_ruler<S: Scalar>(
    r: Ruler<S>,
    scroll_offset: S,
    anchor_offset: S,
    new_anchor_offset: S,
)
    requires
        r.exact(),
        r.moderate(scroll_offset),
        r.moderate(anchor_offset),
        r.moderate(new_anchor_offset),
    ensures
        r.at(scroll_offset.spec_minus(anchor_offset).spec_plus(new_anchor_offset)) - r.at(
            new_anchor_offset,
        ) == r.at(scroll_offset) - r.at(anchor_offset),
{
}

// --- Positions, in whole pixels

/// A coordinate so far from the ends of `i64` that a few of them can be added up.
pub open spec fn moderate(x: i64) -> bool {
    -0x0800_0000_0000_0000 <= x <= 0x0800_0000_0000_0000
}

/// Where the left edge of a placed child stands in the viewport.
pub open spec fn on_screen<W>(
    s: ScrollState<i64, W>,
    x: i64,
    scroll_offset: i64,
    anchor_offset: i64,
    width: i64,
) -> int {
    x + s.translation(scroll_offset.spec_minus(anchor_offset), width)
}

/// A child of a strip that runs from left to right stands as far right of the viewport's left edge
/// as it begins behind the scroll offset. In a strip that runs from right to left, its right edge
/// stands as far left of the viewport's right edge. Which item is the anchor makes no difference.
pub proof fn law_children_follow_scroll_offset<W>(
    s: ScrollState<i64, W>,
    strip: Range<usize>,
    span: ItemSpan<i64>,
    scroll_offset: i64,
    anchor_offset: i64,
    width: i64,
)
    requires
        index_set(strip).contains(span.index),
        moderate(span.offset),
        moderate(span.extent),
        moderate(scroll_offset),
        moderate(anchor_offset),
        moderate(width),
    ensures
        s.placement(strip, anchor_offset, span) matches Placement::Place { index, x, y } && {
            let left = on_screen(s, x, scroll_offset, anchor_offset, width);
            &&& index == span.index
            &&& y == 0
            &&& s.left_to_right ==> left == span.offset - scroll_offset
            &&& !s.left_to_right ==> left + span.extent == width - (span.offset - scroll_offset)
        },
{
}

/// An item whose start the viewport starts at stands at the edge of the viewport from which the
/// strip runs.
pub proof fn law_jump_aligns_item<W>(
    s: ScrollState<i64, W>,
    strip: Range<usize>,
    span: ItemSpan<i64>,
    anchor_offset: i64,
    width: i64,
)
    requires
        index_set(strip).contains(span.index),
        moderate(span.offset),
        moderate(span.extent),
        moderate(anchor_offset),
        moderate(width),
    ensures
        s.placement(strip, anchor_offset, span) matches Placement::Place { index, x, y } && {
            let left = on_screen(s, x, span.offset, anchor_offset, width);
            &&& s.left_to_right ==> left == 0
            &&& !s.left_to_right ==> left + span.extent == width
        },
{
    law_children_follow_scroll_offset(s, strip, span, span.offset, anchor_offset, width);
}

/// Children that adjoin in the strip adjoin where they are placed, in either direction.
pub proof fn law_neighbours_adjoin<W>(
    s: ScrollState<i64, W>,
    strip: Range<usize>,
    anchor_offset: i64,
    a: ItemSpan<i64>,
    b: ItemSpan<i64>,
)
    requires
        index_set(strip).contains(a.index),
        index_set(strip).contains(b.index),
        b.offset == a.offset + a.extent,
        moderate(anchor_offset),
        moderate(a.offset),
        moderate(a.extent),
        moderate(b.offset),
        moderate(b.extent),
    ensures
        ({
            let first = s.placement(strip, anchor_offset, a);
            let second = s.placement(strip, anchor_offset, b);
            &&& s.left_to_right ==> second->x == first->x + a.extent
            &&& !s.left_to_right ==> second->x + b.extent == first->x
        }),
{
}

/// Whether an item overlaps a viewport.
pub open spec fn in_view(span: ItemSpan<i64>, scroll_offset: i64, viewport_extent: i64) -> bool {
    span.offset < scroll_offset + viewport_extent && scroll_offset < span.offset + span.extent
}

/// A scroll after which no layout is due leaves the anchor the first item in view, so that a
/// layout would choose it again.
pub proof fn law_anchor_that_is_not_left_stays<W>(
    s: ScrollState<i64, W>,
    strip: Range<usize>,
    spans: Seq<ItemSpan<i64>>,
    visible: Seq<bool>,
    scroll_offset: i64,
    viewport_extent: i64,
    k: int,
)
    requires
        spans.len() == visible.len() == range_len(strip),
        forall|i: int|
            0 <= i < spans.len() ==> visible[i] == in_view(
                #[trigger] spans[i],
                scroll_offset,
                viewport_extent,
            ),
        forall|i: int, j: int|
            0 <= i < j < spans.len() ==> (#[trigger] spans[i]).offset + spans[i].extent
                <= (#[trigger] spans[j]).offset,
        0 < viewport_extent,
        0 <= k < spans.len(),
        s.anchor_index == strip.start + k,
        spans[k].offset + spans[k].extent <= i64::MAX,
        !left_anchor(scroll_offset, spans[k].offset, spans[k].extent),
    ensures
        s.laid_out(strip, visible).anchor_index == s.anchor_index,
        visible[k],
{
    assert(visible[k] == in_view(spans[k], scroll_offset, viewport_extent));
    assert forall|j: int| 0 <= j < k implies !visible[j] by {
        assert(visible[j] == in_view(spans[j], scroll_offset, viewport_extent));
        assert(spans[j].offset + spans[j].extent <= spans[k].offset);
    }
    assert(is_first_set(visible, k));
}

/// Scrolling to where a layout plans to scroll keeps the anchor where it was in the viewport,
/// however much the items before it have grown or shrunk.
pub proof fn law_layout_keeps_anchor_in_place(
    scroll_offset: i64,
    anchor_offset: i64,
    new_anchor_offset: i64,
)
    requires
        moderate(scroll_offset),
        moderate(anchor_offset),
        moderate(new_anchor_offset),
    ensures
        scroll_offset.spec_minus(anchor_offset).spec_plus(new_anchor_offset) - new_anchor_offset
            == scroll_offset - anchor_offset,
{
}

/// A request to show what is in view already, or what fills the view already, scrolls nowhere.
pub proof fn law_shown_target_scrolls_nowhere<S: Scalar>(width: S, target: Range<S>)
    requires
        ({
            let viewport = Range { start: S::spec_zero(), end: width };
            covers(viewport, target) || covers(target, viewport)
        }),
    ensures
        panned(Range { start: S::spec_zero(), end: width }, target).start == S::spec_zero(),
{
}

} // verus!
