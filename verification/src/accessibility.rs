//! What the widget tells assistive technologies.

use vstd::prelude::*;

use crate::layout::ItemSpan;
use crate::scalar::Scalar;
use crate::virtual_hscroll::{ScrollState, VirtualHScroll};

verus! {

/// A direction in which content runs.
#[derive(Clone, Copy, Debug, PartialEq, Eq, Structural)]
pub enum Orientation {
    /// From side to side.
    Horizontal,
    /// From top to bottom.
    Vertical,
}

/// What the widget tells an assistive technology of itself and of its scroll position.
#[derive(Debug)]
pub struct AccessibilityPlan<S> {
    /// Whether children do not show outside the widget.
    pub clips_children: bool,
    /// In which direction it is scrolled, as far as an assistive technology is concerned.
    pub orientation: Orientation,
    /// About how far the strip has been scrolled, if that can be said.
    pub scroll_x: Option<S>,
    /// Whether it can be scrolled back.
    pub scroll_up: bool,
    /// Whether it can be scrolled on.
    pub scroll_down: bool,
    /// Whether each child can be scrolled into view.
    pub scroll_into_view: bool,
}

impl<S: Scalar, W> ScrollState<S, W> {
    /// About how far the strip has been scrolled, taking every item before the anchor for one of
    /// the default width. At the first item, and at an index that no item can have, nothing is
    /// said.
    pub open spec fn scroll_position(self, default_extent: S, offset_from_anchor: S) -> Option<S> {
        if self.anchor_index == 0 || self.anchor_index == usize::MAX {
            None
        } else {
            Some(
                S::spec_whole(self.anchor_index).spec_times(default_extent).spec_plus(
                    offset_from_anchor,
                ),
            )
        }
    }

    /// Whether `last` lies past the last item and ends elsewhere than the viewport does.
    pub open spec fn past_end(
        self,
        last: ItemSpan<S>,
        scroll_offset: S,
        viewport_extent: S,
    ) -> bool {
        &&& last.index == self.item_count
        &&& !last.offset.spec_plus(last.extent).spec_minus(scroll_offset).spec_minus(
            viewport_extent,
        ).spec_is_zero()
    }
}

impl<S: Scalar, W> VirtualHScroll<S, W> {
    /// Describes the widget and its scroll position.
    ///
    /// The scroll actions that are offered are those up and down, which go with a vertical
    /// orientation.
    ///
    /// `last` is the last item that should be loaded, if there is any.
    pub fn accessibility(
        &self,
        default_extent: S,
        scroll_offset: S,
        anchor_offset: S,
        viewport_extent: S,
        last: Option<ItemSpan<S>>,
    ) -> (r: AccessibilityPlan<S>)
        ensures
            ({
                let offset = scroll_offset.spec_minus(anchor_offset);
                r == (AccessibilityPlan {
                    clips_children: true,
                    orientation: Orientation::Vertical,
                    scroll_x: self@.scroll_position(default_extent, offset),
                    scroll_up: self@.anchor_index != 0 || S::spec_zero().spec_below(offset),
                    scroll_down: match last {
                        Some(last) => !self@.past_end(last, scroll_offset, viewport_extent),
                        None => true,
                    },
                    scroll_into_view: true,
                })
            }),
    {
        let offset = self.scroll_offset_from_anchor(scroll_offset, anchor_offset);
        let scroll_x = if self.anchor_index != 0 && self.anchor_index != usize::MAX {
            Some(S::whole(self.anchor_index).times(default_extent).plus(offset))
        } else {
            None
        };
        let scroll_up = self.anchor_index != 0 || S::zero().below(offset);
        let at_end = match last {
            Some(last) => last.index == self.item_count && !last.offset.plus(last.extent).minus(
                scroll_offset,
            ).minus(viewport_extent).is_zero(),
            None => false,
        };
        AccessibilityPlan {
            clips_children: true,
            orientation: Orientation::Vertical,
            scroll_x,
            scroll_up,
            scroll_down: !at_end,
            scroll_into_view: true,
        }
    }
}

} // verus!
