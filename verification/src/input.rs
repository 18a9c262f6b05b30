//! What the widget does when it is scrolled by its user, its host or by itself.

use std::ops::Range;

use vstd::prelude::*;

use crate::action::Passes;
use crate::pan::{compute_pan_range, panned};
use crate::scalar::Scalar;
use crate::virtual_hscroll::{ScrollState, VirtualHScroll};

verus! {

/// How far a page key scrolls, in logical pixels.
///
/// This is unreasonably far, so that scrolling past everything that is loaded can be tried out.
pub const DELTA_PAGE: usize = 2000;

/// How far an arrow key scrolls, in logical pixels.
pub const DELTA_LINE: usize = 20;

/// How far one line of a mouse wheel scrolls, in logical pixels.
pub const DELTA_WHEEL_LINE: usize = 120;

/// A key, as far as scrolling goes.
#[derive(Clone, Copy, Debug, PartialEq, Eq, Structural)]
pub enum ScrollKey {
    /// The page down key.
    PageDown,
    /// The page up key.
    PageUp,
    /// The left arrow key.
    ArrowLeft,
    /// The right arrow key.
    ArrowRight,
    /// Any other key.
    Other,
}

/// A text event, as far as scrolling goes.
#[derive(Clone, Copy, Debug, PartialEq, Eq, Structural)]
pub enum ScrollTextEvent {
    /// A key has been pressed.
    KeyDown(ScrollKey),
    /// A key has been released.
    KeyUp(ScrollKey),
    /// Anything else: composed text, the clipboard, a change of window focus.
    Other,
}

/// A request of an assistive technology, as far as scrolling goes.
#[derive(Clone, Copy, Debug, PartialEq, Eq, Structural)]
pub enum ScrollAccessAction {
    /// To scroll left.
    ScrollLeft,
    /// To scroll right.
    ScrollRight,
    /// Anything else.
    Other,
}

/// How far an assistive technology asks to scroll.
#[derive(Clone, Copy, Debug, PartialEq, Eq, Structural)]
pub enum ScrollAccessUnit {
    /// By one item.
    Item,
    /// By one viewport.
    Page,
}

/// The sizes of a mouse wheel's steps, in physical pixels.
#[derive(Debug)]
pub struct WheelSteps<S> {
    /// One line, on either axis.
    pub line: S,
    /// One page on the horizontal axis.
    pub page_x: S,
    /// One page on the vertical axis.
    pub page_y: S,
}

/// How far a mouse wheel was turned.
#[derive(Debug)]
pub enum WheelTurn<S> {
    /// By so many pages.
    Pages {
        /// On the horizontal axis.
        x: S,
        /// On the vertical axis.
        y: S,
    },
    /// By so many lines.
    Lines {
        /// On the horizontal axis.
        x: S,
        /// On the vertical axis.
        y: S,
    },
    /// By so many physical pixels.
    Pixels {
        /// On the horizontal axis.
        x: S,
        /// On the vertical axis.
        y: S,
    },
}

/// A pointer event, as far as scrolling goes.
#[derive(Debug)]
pub enum ScrollPointerEvent<S> {
    /// A mouse wheel has been turned.
    Wheel(WheelTurn<S>),
    /// Anything else: a press, a move, a gesture.
    Other,
}

/// A notice of the host, as far as scrolling goes.
#[derive(Debug)]
pub enum ScrollUpdate<S> {
    /// A part of a child is to be brought into view. The range is relative to the viewport.
    PanToChild(Range<S>),
    /// Anything else: a change of focus, of hovering, of the widget's own status.
    Other,
}

/// What an event makes the widget do.
#[derive(Debug)]
pub struct Reaction<S> {
    /// How far the strip is scrolled, before it is stopped at its ends.
    pub scroll_by: S,
    /// Whether the event goes to no other widget.
    pub handled: bool,
    /// Whether the widget wants to hear of the next animation frame.
    pub anim_frame: bool,
}

/// Whether the children have to be laid out again after a scroll.
#[derive(Clone, Copy, Debug, PartialEq, Eq, Structural)]
pub enum PostScrollResult {
    /// They do: the anchor is another one.
    Layout,
    /// It is enough to move them.
    NoLayout,
}

/// The sizes of a mouse wheel's steps over a viewport of the given logical size.
pub open spec fn wheel_steps_over<S: Scalar>(width: S, height: S, scale_factor: S) -> WheelSteps<
    S,
> {
    WheelSteps {
        line: S::spec_whole(DELTA_WHEEL_LINE).spec_times(scale_factor),
        page_x: width.spec_times(scale_factor),
        page_y: height.spec_times(scale_factor),
    }
}

/// How far a mouse wheel was turned on either axis, in physical pixels.
pub open spec fn turned_by<S: Scalar>(turn: WheelTurn<S>, steps: WheelSteps<S>) -> (S, S) {
    match turn {
        WheelTurn::Pages { x, y } => (x.spec_times(steps.page_x), y.spec_times(steps.page_y)),
        WheelTurn::Lines { x, y } => (x.spec_times(steps.line), y.spec_times(steps.line)),
        WheelTurn::Pixels { x, y } => (x, y),
    }
}

/// Whether a viewport that starts at `scroll_offset` starts outside the anchor.
pub open spec fn left_anchor<S: Scalar>(
    scroll_offset: S,
    anchor_offset: S,
    anchor_extent: S,
) -> bool {
    scroll_offset.spec_below(anchor_offset) || anchor_offset.spec_plus(anchor_extent).spec_at_most(
        scroll_offset,
    )
}

impl<S: Scalar, W> ScrollState<S, W> {
    /// A distance on screen, as a distance along the strip, and the other way round.
    pub open spec fn direction_appropriate(self, delta: S) -> S {
        if self.left_to_right {
            delta
        } else {
            delta.spec_negated()
        }
    }

    /// How far a turn of the mouse wheel by `x` and `y` logical pixels scrolls.
    pub open spec fn wheel_delta(self, x: S, y: S) -> S {
        self.direction_appropriate(
            (if x.spec_is_zero() {
                y
            } else {
                x
            }).spec_negated(),
        )
    }

    /// How far a turn of the mouse wheel over a viewport of the given logical size scrolls.
    pub open spec fn turn_delta(
        self,
        turn: WheelTurn<S>,
        width: S,
        height: S,
        scale_factor: S,
    ) -> S {
        let (x, y) = turned_by(turn, wheel_steps_over(width, height, scale_factor));
        self.wheel_delta(x.spec_unscaled(scale_factor), y.spec_unscaled(scale_factor))
    }

    /// How far a key scrolls, if it scrolls.
    pub open spec fn key_delta(self, key: ScrollKey) -> Option<S> {
        match key {
            ScrollKey::PageDown => Some(S::spec_whole(DELTA_PAGE)),
            ScrollKey::PageUp => Some(S::spec_whole(DELTA_PAGE).spec_negated()),
            ScrollKey::ArrowLeft => Some(self.direction_appropriate(S::spec_whole(DELTA_LINE))),
            ScrollKey::ArrowRight => Some(
                self.direction_appropriate(S::spec_whole(DELTA_LINE)).spec_negated(),
            ),
            ScrollKey::Other => None,
        }
    }

    /// How far a request of an assistive technology scrolls, if it scrolls.
    pub open spec fn access_delta(self, action: ScrollAccessAction, amount: S) -> Option<S> {
        match action {
            ScrollAccessAction::ScrollLeft => Some(
                self.direction_appropriate(amount).spec_negated(),
            ),
            ScrollAccessAction::ScrollRight => Some(self.direction_appropriate(amount)),
            ScrollAccessAction::Other => None,
        }
    }

    /// How far the strip has moved by itself after `nanos` nanoseconds.
    pub open spec fn autoscroll_delta(self, nanos: u64) -> S {
        self.direction_appropriate(self.autoscroll_velocity.spec_travel(nanos)).spec_negated()
    }
}

impl<S: Scalar, W> VirtualHScroll<S, W> {
    /// Turns a distance on screen into one along the strip, and the other way round.
    pub fn direction_appropriate(&self, delta: S) -> (r: S)
        ensures
            r == self@.direction_appropriate(delta),
    {
        if self.left_to_right {
            delta
        } else {
            delta.negated()
        }
    }

    /// Returns how far the viewport starts behind the start of the anchor.
    pub fn scroll_offset_from_anchor(&self, scroll_offset: S, anchor_offset: S) -> (r: S)
        ensures
            r == scroll_offset.spec_minus(anchor_offset),
    {
        scroll_offset.minus(anchor_offset)
    }

    /// Decides, once the strip has been scrolled and stopped at its ends, whether the children
    /// have to be laid out again.
    pub fn post_scroll(&self, scroll_offset: S, anchor_offset: S, anchor_extent: S) -> (r:
        PostScrollResult)
        ensures
            r == (if left_anchor(scroll_offset, anchor_offset, anchor_extent) {
                PostScrollResult::Layout
            } else {
                PostScrollResult::NoLayout
            }),
    {
        if scroll_offset.below(anchor_offset) || anchor_offset.plus(anchor_extent).at_most(
            scroll_offset,
        ) {
            PostScrollResult::Layout
        } else {
            PostScrollResult::NoLayout
        }
    }

    /// Returns the passes to run once the strip has been scrolled and stopped at its ends.
    pub fn passes_post_scroll(
        &self,
        scroll_offset: S,
        anchor_offset: S,
        anchor_extent: S,
    ) -> (r: Passes)
        ensures
            r == (Passes {
                layout: left_anchor(scroll_offset, anchor_offset, anchor_extent),
                compose: true,
                anim_frame: false,
                children_changed: false,
            }),
    {
        let layout = match self.post_scroll(scroll_offset, anchor_offset, anchor_extent) {
            PostScrollResult::Layout => true,
            PostScrollResult::NoLayout => false,
        };
        Passes { layout, compose: true, anim_frame: false, children_changed: false }
    }

    /// Returns the sizes of a mouse wheel's steps over a viewport of the given logical size.
    pub fn wheel_steps(width: S, height: S, scale_factor: S) -> (r: WheelSteps<S>)
        ensures
            r == wheel_steps_over(width, height, scale_factor),
    {
        WheelSteps {
            line: S::whole(DELTA_WHEEL_LINE).times(scale_factor),
            page_x: width.times(scale_factor),
            page_y: height.times(scale_factor),
        }
    }

    /// Returns how far a mouse wheel was turned on either axis, in physical pixels.
    pub fn wheel_pixels(turn: WheelTurn<S>, steps: &WheelSteps<S>) -> (r: (S, S))
        ensures
            r == turned_by(turn, *steps),
    {
        match turn {
            WheelTurn::Pages { x, y } => (x.times(steps.page_x), y.times(steps.page_y)),
            WheelTurn::Lines { x, y } => (x.times(steps.line), y.times(steps.line)),
            WheelTurn::Pixels { x, y } => (x, y),
        }
    }

    /// Reacts to a pointer event over a viewport of the given logical size: turning the mouse
    /// wheel scrolls.
    ///
    /// A wheel that only turns vertically scrolls the strip too.
    pub fn on_pointer_event(
        &self,
        event: ScrollPointerEvent<S>,
        width: S,
        height: S,
        scale_factor: S,
    ) -> (r: Option<Reaction<S>>)
        requires
            event is Wheel ==> scale_factor.spec_is_scale_factor(),
        ensures
            r == (match event {
                ScrollPointerEvent::Wheel(turn) => Some(
                    Reaction {
                        scroll_by: self@.turn_delta(turn, width, height, scale_factor),
                        handled: false,
                        anim_frame: false,
                    },
                ),
                ScrollPointerEvent::Other => None,
            }),
    {
        let turn = match event {
            ScrollPointerEvent::Wheel(turn) => turn,
            ScrollPointerEvent::Other => {
                return None;
            },
        };
        let steps = Self::wheel_steps(width, height, scale_factor);
        let (physical_x, physical_y) = Self::wheel_pixels(turn, &steps);
        let x = physical_x.unscaled(scale_factor);
        let y = physical_y.unscaled(scale_factor);
        let delta = if !x.is_zero() {
            x
        } else {
            y
        };
        Some(
            Reaction {
                scroll_by: self.direction_appropriate(delta.negated()),
                handled: false,
                anim_frame: false,
            },
        )
    }

    /// Reacts to a text event: the page keys and the arrow keys scroll when they are pressed.
    pub fn on_text_event(&self, event: ScrollTextEvent) -> (r: Option<Reaction<S>>)
        ensures
            r == (match event {
                ScrollTextEvent::KeyDown(key) => match self@.key_delta(key) {
                    Some(delta) => Some(
                        Reaction { scroll_by: delta, handled: true, anim_frame: false },
                    ),
                    None => None,
                },
                ScrollTextEvent::KeyUp(_) => None,
                ScrollTextEvent::Other => None,
            }),
    {
        let key = match event {
            ScrollTextEvent::KeyDown(key) => key,
            _ => {
                return None;
            },
        };
        let scroll_by = match key {
            ScrollKey::PageDown => S::whole(DELTA_PAGE),
            ScrollKey::PageUp => S::whole(DELTA_PAGE).negated(),
            ScrollKey::ArrowLeft => self.direction_appropriate(S::whole(DELTA_LINE)),
            ScrollKey::ArrowRight => self.direction_appropriate(S::whole(DELTA_LINE)).negated(),
            ScrollKey::Other => {
                return None;
            },
        };
        Some(Reaction { scroll_by, handled: true, anim_frame: false })
    }

    /// Reacts to a request of an assistive technology, which scrolls by one item unless it says
    /// otherwise.
    pub fn on_access_event(
        &self,
        action: ScrollAccessAction,
        unit: Option<ScrollAccessUnit>,
        anchor_extent: S,
        width: S,
    ) -> (r: Option<Reaction<S>>)
        ensures
            ({
                let amount = if unit == Some(ScrollAccessUnit::Page) {
                    width
                } else {
                    anchor_extent
                };
                r == (match self@.access_delta(action, amount) {
                    Some(delta) => Some(
                        Reaction { scroll_by: delta, handled: true, anim_frame: false },
                    ),
                    None => None,
                })
            }),
    {
        let amount = match unit {
            Some(ScrollAccessUnit::Page) => width,
            Some(ScrollAccessUnit::Item) => anchor_extent,
            None => anchor_extent,
        };
        let scroll_by = match action {
            ScrollAccessAction::ScrollLeft => self.direction_appropriate(amount).negated(),
            ScrollAccessAction::ScrollRight => self.direction_appropriate(amount),
            ScrollAccessAction::Other => {
                return None;
            },
        };
        Some(Reaction { scroll_by, handled: true, anim_frame: false })
    }

    /// Reacts to an animation frame, `interval` nanoseconds after the last one.
    pub fn on_anim_frame(&self, interval: u64) -> (r: Option<Reaction<S>>)
        ensures
            r == (if self@.autoscroll_velocity.spec_is_zero() {
                None
            } else {
                Some(
                    Reaction {
                        scroll_by: self@.autoscroll_delta(interval),
                        handled: false,
                        anim_frame: true,
                    },
                )
            }),
    {
        if self.autoscroll_velocity.is_zero() {
            return None;
        }
        let delta = self.autoscroll_velocity.travel(interval);
        Some(
            Reaction {
                scroll_by: self.direction_appropriate(delta).negated(),
                handled: false,
                anim_frame: true,
            },
        )
    }

    /// Reacts to a notice of the host: a request to bring a part of a child into the viewport,
    /// which is of the given width, scrolls just as far as it must.
    pub fn update(&self, event: ScrollUpdate<S>, width: S) -> (r: Option<Reaction<S>>)
        ensures
            r == (match event {
                ScrollUpdate::PanToChild(target) => Some(
                    Reaction {
                        scroll_by: panned(
                            Range { start: S::spec_zero(), end: width },
                            target,
                        ).start,
                        handled: false,
                        anim_frame: false,
                    },
                ),
                ScrollUpdate::Other => None,
            }),
    {
        match event {
            ScrollUpdate::PanToChild(target) => {
                let pan = compute_pan_range(Range { start: S::zero(), end: width }, target);
                Some(Reaction { scroll_by: pan.start, handled: false, anim_frame: false })
            },
            ScrollUpdate::Other => None,
        }
    }
}

} // verus!
