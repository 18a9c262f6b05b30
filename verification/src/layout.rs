//! Where the children stand, and which of them have to be loaded.

use std::ops::Range;

use vstd::prelude::*;

use crate::action::{
    copy_range, index_seq, index_set, range_contains, range_len, same_range,
};
use crate::action::{
    VirtualHScrollAction, VirtualHScrollFetchAction, VirtualHScrollScrollAction,
};
use crate::scalar::Scalar;
use crate::virtual_hscroll::{ScrollState, VirtualHScroll};

verus! {

/// The length of the widget along either axis when its content decides, in logical pixels.
pub const DEFAULT_LENGTH: usize = 100;

/// How a length is asked for.
#[derive(Debug)]
pub enum LengthRequest<S> {
    /// The least length that the content can do with.
    MinContent,
    /// The length that the content would like.
    MaxContent,
    /// What the content would like of the given space.
    FitContent(S),
}

/// Where an item lies in the strip.
#[derive(Debug)]
pub struct ItemSpan<S> {
    /// Which item it is.
    pub index: usize,
    /// Where it begins.
    pub offset: S,
    /// How wide it is.
    pub extent: S,
}

/// What a layout sets up before it asks which items are near the viewport.
#[derive(Debug)]
pub struct LayoutPlan<S> {
    /// How far the viewport starts behind the start of the anchor.
    pub offset_from_anchor: S,
    /// The width to take items for that are not loaded, if it changes.
    pub default_extent: Option<S>,
    /// The width of the viewport.
    pub viewport_extent: S,
    /// How far before the viewport items have to be loaded.
    pub overscan_before: S,
    /// How far behind the viewport items have to be loaded.
    pub overscan_after: S,
    /// The width of the part of the widget in which children show.
    pub clip_width: S,
    /// Its height.
    pub clip_height: S,
}

/// Where a child goes.
#[derive(Debug)]
pub enum Placement<S> {
    /// It is placed at `x` and `y`.
    Place {
        /// Which child it is.
        index: usize,
        /// Where its left edge goes.
        x: S,
        /// Where its top edge goes.
        y: S,
    },
    /// It is no longer asked for, and is put away until its driver removes it.
    Stash {
        /// Which child it is.
        index: usize,
    },
}

/// How the children move when the strip has been scrolled.
#[derive(Debug)]
pub struct ComposePlan<S> {
    /// How far each child stands from where it was placed, horizontally.
    pub translation: S,
    /// How far it does vertically.
    pub translation_y: S,
    /// Whether the strip is moving by itself.
    pub animated: bool,
    /// The children that move, in the order of their indices.
    pub children: Vec<usize>,
    /// What the driver is told, if other children have come into view.
    pub action: Option<VirtualHScrollAction>,
}

/// `visible[k]` is the first flag that is set.
pub open spec fn is_first_set(visible: Seq<bool>, k: int) -> bool {
    &&& 0 <= k < visible.len()
    &&& visible[k]
    &&& forall|j: int| 0 <= j < k ==> !visible[j]
}

/// `visible[k]` is the last flag that is set.
pub open spec fn is_last_set(visible: Seq<bool>, k: int) -> bool {
    &&& 0 <= k < visible.len()
    &&& visible[k]
    &&& forall|j: int| k < j < visible.len() ==> !visible[j]
}

/// The first index of `strip` whose flag is set.
pub open spec fn first_visible(strip: Range<usize>, visible: Seq<bool>) -> Option<usize> {
    if exists|k: int| is_first_set(visible, k) {
        Some((strip.start + choose|k: int| is_first_set(visible, k)) as usize)
    } else {
        None
    }
}

/// The last index of `strip` whose flag is set.
pub open spec fn last_visible(strip: Range<usize>, visible: Seq<bool>) -> Option<usize> {
    if exists|k: int| is_last_set(visible, k) {
        Some((strip.start + choose|k: int| is_last_set(visible, k)) as usize)
    } else {
        None
    }
}

/// From the first index of `strip` whose flag is set to the last one, if there are any.
pub open spec fn range_seen(strip: Range<usize>, visible: Seq<bool>) -> Option<Range<usize>> {
    match (first_visible(strip, visible), last_visible(strip, visible)) {
        (Some(first), Some(last)) => Some(Range { start: first, end: last }),
        _ => None,
    }
}

/// The sum of a sequence of widths, added up from the left.
pub open spec fn total_width<S: Scalar>(widths: Seq<S>) -> S
    decreases widths.len(),
{
    if widths.len() == 0 {
        S::spec_zero()
    } else {
        total_width(widths.drop_last()).spec_plus(widths.last())
    }
}

/// The mean of a sequence of widths, if there are any and they do not add up to 0.
pub open spec fn mean_width<S: Scalar>(widths: Seq<S>) -> Option<S> {
    if total_width(widths).spec_is_zero() || widths.len() == 0 {
        None
    } else {
        Some(total_width(widths).spec_share(widths.len() as usize))
    }
}

impl<S: Scalar, W> ScrollState<S, W> {
    /// What a layout asks the driver for, now that the items of `strip` should be loaded.
    pub open spec fn fetch(self, strip: Range<usize>) -> Option<VirtualHScrollAction> {
        if self.active_range == strip {
            None
        } else {
            Some(
                VirtualHScrollAction::Fetch(
                    VirtualHScrollFetchAction { old_active: self.active_range, target: strip },
                ),
            )
        }
    }

    /// A layout has found out that the items of `strip` should be loaded, and which of them are
    /// in view.
    pub open spec fn laid_out(self, strip: Range<usize>, visible: Seq<bool>) -> Self {
        ScrollState {
            anchor_index: match first_visible(strip, visible) {
                Some(i) => i,
                None => self.anchor_index,
            },
            action_handled: self.action_handled && self.active_range == strip,
            ..self
        }
    }

    /// Where a child goes.
    pub open spec fn placement(
        self,
        strip: Range<usize>,
        anchor_offset: S,
        span: ItemSpan<S>,
    ) -> Placement<S> {
        if index_set(strip).contains(span.index) {
            let x = span.offset.spec_minus(anchor_offset);
            Placement::Place {
                index: span.index,
                x: if self.left_to_right {
                    x
                } else {
                    x.spec_negated().spec_minus(span.extent)
                },
                y: S::spec_zero(),
            }
        } else {
            Placement::Stash { index: span.index }
        }
    }

    /// How far children stand from where they were placed, horizontally.
    pub open spec fn translation(self, offset_from_anchor: S, width: S) -> S {
        self.direction_appropriate(offset_from_anchor).spec_negated().spec_plus(
            if self.left_to_right {
                S::spec_zero()
            } else {
                width
            },
        )
    }

    /// The loaded children of the active range, in the order of their indices.
    pub open spec fn active_children(self) -> Seq<usize> {
        index_seq(self.active_range).filter(|i: usize| self.items.contains_key(i))
    }

    /// What the driver is told of the children in view, if they are others than before.
    pub open spec fn scrolled_into_view(self, strip: Range<usize>, visible: Seq<bool>) -> Option<
        VirtualHScrollAction,
    > {
        match range_seen(strip, visible) {
            Some(seen) => if self.range_in_viewport == seen {
                None
            } else {
                Some(
                    VirtualHScrollAction::Scroll(
                        VirtualHScrollScrollAction { range_in_viewport: seen },
                    ),
                )
            },
            None => None,
        }
    }

    /// The children have been moved.
    pub open spec fn composed(self, strip: Range<usize>, visible: Seq<bool>) -> Self {
        ScrollState {
            range_in_viewport: match range_seen(strip, visible) {
                Some(seen) => seen,
                None => self.range_in_viewport,
            },
            ..self
        }
    }
}

/// Returns the first index of `strip` whose flag is set.
pub fn find_first_visible(strip: &Range<usize>, visible: &Vec<bool>) -> (r: Option<usize>)
    requires
        visible@.len() == range_len(*strip),
    ensures
        r == first_visible(*strip, visible@),
{
    let mut k: usize = 0;
    while k < visible.len()
        invariant
            k <= visible@.len() == range_len(*strip),
            forall|j: int| 0 <= j < k ==> !visible@[j],
        decreases visible@.len() - k,
    {
        if visible[k] {
            assert(is_first_set(visible@, k as int));
            return Some(strip.start + k);
        }
        k += 1;
    }
    None
}

/// Returns the last index of `strip` whose flag is set.
pub fn find_last_visible(strip: &Range<usize>, visible: &Vec<bool>) -> (r: Option<usize>)
    requires
        visible@.len() == range_len(*strip),
    ensures
        r == last_visible(*strip, visible@),
{
    let mut k: usize = visible.len();
    while k > 0
        invariant
            k <= visible@.len() == range_len(*strip),
            forall|j: int| k <= j < visible@.len() ==> !visible@[j],
        decreases k,
    {
        k -= 1;
        if visible[k] {
            assert(is_last_set(visible@, k as int));
            return Some(strip.start + k);
        }
    }
    None
}

/// Returns the mean of the widths of the loaded children, unless it says nothing about items
/// that are not loaded.
pub fn find_mean_width<S: Scalar>(widths: &Vec<S>) -> (r: Option<S>)
    ensures
        r == mean_width(widths@),
{
    let mut total = S::zero();
    let mut k: usize = 0;
    while k < widths.len()
        invariant
            k <= widths@.len(),
            total == total_width(widths@.take(k as int)),
        decreases widths@.len() - k,
    {
        total = total.plus(widths[k]);
        k += 1;
        proof {
            assert(widths@.take(k as int).drop_last() =~= widths@.take(k - 1));
        }
    }
    proof {
        assert(widths@.take(k as int) =~= widths@);
    }
    if !total.is_zero() && widths.len() != 0 {
        Some(total.share(widths.len()))
    } else {
        None
    }
}

impl<S: Scalar> LayoutPlan<S> {
    /// Returns where to scroll to so that the anchor stays where it is in the viewport, now that
    /// it begins at `anchor_offset`.
    pub fn scroll_offset(&self, anchor_offset: S) -> (r: S)
        ensures
            r == self.offset_from_anchor.spec_plus(anchor_offset),
    {
        self.offset_from_anchor.plus(anchor_offset)
    }
}

impl<S: Scalar, W> VirtualHScroll<S, W> {
    /// Returns the length of the widget along an axis.
    pub fn measure(request: LengthRequest<S>) -> (r: S)
        ensures
            r == (match request {
                LengthRequest::MinContent => S::spec_whole(DEFAULT_LENGTH),
                LengthRequest::MaxContent => S::spec_whole(DEFAULT_LENGTH),
                LengthRequest::FitContent(space) => space,
            }),
    {
        match request {
            LengthRequest::MinContent => S::whole(DEFAULT_LENGTH),
            LengthRequest::MaxContent => S::whole(DEFAULT_LENGTH),
            LengthRequest::FitContent(space) => space,
        }
    }

    /// Begins a layout in a viewport of the given size, outside of which children do not show.
    ///
    /// `widths` are those of the loaded children, in order. A page before the viewport and two
    /// pages behind it have to be loaded.
    pub fn layout_plan(
        &self,
        scroll_offset: S,
        anchor_offset: S,
        widths: &Vec<S>,
        width: S,
        height: S,
    ) -> (r: LayoutPlan<S>)
        ensures
            r == (LayoutPlan {
                offset_from_anchor: scroll_offset.spec_minus(anchor_offset),
                default_extent: mean_width(widths@),
                viewport_extent: width,
                overscan_before: width,
                overscan_after: width.spec_times(S::spec_whole(2)),
                clip_width: width,
                clip_height: height,
            }),
    {
        LayoutPlan {
            offset_from_anchor: self.scroll_offset_from_anchor(scroll_offset, anchor_offset),
            default_extent: find_mean_width(widths),
            viewport_extent: width,
            overscan_before: width,
            overscan_after: width.times(S::whole(2)),
            clip_width: width,
            clip_height: height,
        }
    }

    /// Takes the result of asking which items are near the viewport.
    ///
    /// `strip` are the items that should be loaded, and `visible[k]` says whether the one at
    /// `strip.start + k` is in view, at least in part. The first of those becomes the anchor. The
    /// driver is asked for the items of `strip` if it was last told to have others loaded.
    pub fn layout_strip(&mut self, strip: &Range<usize>, visible: &Vec<bool>) -> (r: Option<
        VirtualHScrollAction,
    >)
        requires
            visible@.len() == range_len(*strip),
        ensures
            final(self)@ == old(self)@.laid_out(*strip, visible@),
            r == old(self)@.fetch(*strip),
    {
        if let Some(anchor_index) = find_first_visible(strip, visible) {
            self.anchor_index = anchor_index;
        }
        if same_range(&self.active_range, strip) {
            None
        } else {
            self.action_handled = false;
            Some(
                VirtualHScrollAction::Fetch(
                    VirtualHScrollFetchAction {
                        old_active: copy_range(&self.active_range),
                        target: copy_range(strip),
                    },
                ),
            )
        }
    }

    /// Says where each child goes: those of `strip` are placed, others are put away.
    pub fn layout_place(
        &self,
        strip: &Range<usize>,
        anchor_offset: S,
        spans: &Vec<ItemSpan<S>>,
    ) -> (r: Vec<Placement<S>>)
        ensures
            r@ == spans@.map_values(|span: ItemSpan<S>|
                self@.placement(*strip, anchor_offset, span)),
    {
        let mut placements: Vec<Placement<S>> = Vec::new();
        let mut k: usize = 0;
        while k < spans.len()
            invariant
                k <= spans@.len(),
                placements@.len() == k,
                forall|j: int|
                    0 <= j < k ==> placements@[j] == self@.placement(
                        *strip,
                        anchor_offset,
                        spans@[j],
                    ),
            decreases spans@.len() - k,
        {
            let span = &spans[k];
            let placement = if range_contains(strip, span.index) {
                let x = span.offset.minus(anchor_offset);
                Placement::Place {
                    index: span.index,
                    x: if self.left_to_right {
                        x
                    } else {
                        x.negated().minus(span.extent)
                    },
                    y: S::zero(),
                }
            } else {
                Placement::Stash { index: span.index }
            };
            placements.push(placement);
            k += 1;
        }
        placements
    }

    /// Returns the loaded children of the active range, in order.
    pub fn active_children(&self) -> (r: Vec<usize>)
        ensures
            r@ == self@.active_children(),
    {
        let ghost loaded = |i: usize| self@.items.contains_key(i);
        let ghost all = index_seq(self.active_range);
        let mut children: Vec<usize> = Vec::new();
        let mut idx: usize = self.active_range.start;
        proof {
            reveal(Seq::filter);
            assert(all.take(0) =~= Seq::empty());
        }
        while idx < self.active_range.end
            invariant
                all == index_seq(self.active_range),
                loaded == (|i: usize| self@.items.contains_key(i)),
                self.active_range.start <= idx,
                idx <= self.active_range.end || idx == self.active_range.start,
                children@ == all.take(idx - self.active_range.start).filter(loaded),
            decreases self.active_range.end - idx,
        {
            if self.items.contains_key(&idx) {
                children.push(idx);
            }
            proof {
                let k = idx - self.active_range.start;
                reveal(Seq::filter);
                assert(all.take(k + 1).drop_last() =~= all.take(k));
                assert(all.take(k + 1).last() == idx);
            }
            idx += 1;
        }
        proof {
            assert(all.take(idx - self.active_range.start) =~= all);
        }
        children
    }

    /// Moves the children once the strip has been scrolled.
    ///
    /// `strip` and `visible` are as for [`VirtualHScroll::layout_strip`]. The driver is told of the
    /// range from the first child in view to the last one, if it was last told of another.
    pub fn compose(
        &mut self,
        scroll_offset: S,
        anchor_offset: S,
        width: S,
        strip: &Range<usize>,
        visible: &Vec<bool>,
    ) -> (r: ComposePlan<S>)
        requires
            visible@.len() == range_len(*strip),
        ensures
            final(self)@ == old(self)@.composed(*strip, visible@),
            r.translation == old(self)@.translation(
                scroll_offset.spec_minus(anchor_offset),
                width,
            ),
            r.translation_y == S::spec_zero(),
            r.animated == !old(self)@.autoscroll_velocity.spec_is_zero(),
            r.children@ == old(self)@.active_children(),
            r.action == old(self)@.scrolled_into_view(*strip, visible@),
    {
        let offset = self.scroll_offset_from_anchor(scroll_offset, anchor_offset);
        let translation = self.direction_appropriate(offset).negated().plus(
            if self.left_to_right {
                S::zero()
            } else {
                width
            },
        );
        let animated = !self.autoscroll_velocity.is_zero();
        let children = self.active_children();
        let mut action = None;
        match (find_first_visible(strip, visible), find_last_visible(strip, visible)) {
            (Some(first), Some(last)) => {
                let seen = Range { start: first, end: last };
                if !same_range(&self.range_in_viewport, &seen) {
                    self.range_in_viewport = copy_range(&seen);
                    action = Some(
                        VirtualHScrollAction::Scroll(
                            VirtualHScrollScrollAction { range_in_viewport: seen },
                        ),
                    );
                }
            },
            _ => {},
        }
        ComposePlan { translation, translation_y: S::zero(), animated, children, action }
    }
}

} // verus!
