//! The widget: its state, its builders and what a driver does to it.

use std::collections::BTreeMap;
use std::ops::Range;

use vstd::prelude::*;
use vstd::std_specs::cmp::OrdSpec;
use vstd::std_specs::iter::IteratorSpec;

use crate::action::{copy_range, index_set, range_contains, same_range};
use crate::action::{Passes, VirtualHScrollFetchAction};
use crate::scalar::Scalar;

verus! {

/// How wide items are taken to be before any has been laid out, in logical pixels.
pub const DEFAULT_MEAN_ITEM_WIDTH: usize = 180;

/// How many paints may find the same request unanswered before the widget gives it up.
pub const MAX_MISSED_ACTIONS: u32 = 10;

/// A horizontal strip of `item_count` items of which only those near the viewport are loaded.
///
/// `S` is the number type of coordinates and `W` what the host keeps of a loaded child.
pub struct VirtualHScroll<S, W> {
    /// The number of items in the strip, loaded or not.
    pub item_count: usize,
    /// The range which the driver was last told to have loaded.
    pub active_range: Range<usize>,
    /// Whether the driver has answered the last request to load children.
    pub action_handled: bool,
    /// The loaded children, by index.
    pub items: BTreeMap<usize, W>,
    /// The item from whose start children are placed.
    pub anchor_index: usize,
    /// The range of children last reported to be in view.
    pub range_in_viewport: Range<usize>,
    /// Whether item 0 is the leftmost one, rather than the rightmost.
    pub left_to_right: bool,
    /// How far the strip moves by itself, in logical pixels per second.
    pub autoscroll_velocity: S,
    /// Whether the driver has been told that its children are not dense.
    pub warned_not_dense: bool,
    /// How many paints have found the last request unanswered.
    pub missed_actions_count: u32,
}

/// The state of a [`VirtualHScroll`].
#[verifier::ext_equal]
pub struct ScrollState<S, W> {
    pub item_count: usize,
    pub active_range: Range<usize>,
    pub action_handled: bool,
    pub items: Map<usize, W>,
    pub anchor_index: usize,
    pub range_in_viewport: Range<usize>,
    pub left_to_right: bool,
    pub autoscroll_velocity: S,
    pub warned_not_dense: bool,
    pub missed_actions_count: u32,
}

impl<S, W> View for VirtualHScroll<S, W> {
    type V = ScrollState<S, W>;

    open spec fn view(&self) -> ScrollState<S, W> {
        ScrollState {
            item_count: self.item_count,
            active_range: self.active_range,
            action_handled: self.action_handled,
            items: self.items@,
            anchor_index: self.anchor_index,
            range_in_viewport: self.range_in_viewport,
            left_to_right: self.left_to_right,
            autoscroll_velocity: self.autoscroll_velocity,
            warned_not_dense: self.warned_not_dense,
            missed_actions_count: self.missed_actions_count,
        }
    }
}

impl<S: Scalar, W> ScrollState<S, W> {
    /// A strip in which nothing has been asked for and nothing is loaded.
    pub open spec fn initial(initial_anchor: usize, len: usize) -> Self {
        ScrollState {
            item_count: len,
            active_range: Range { start: initial_anchor, end: initial_anchor },
            action_handled: true,
            items: Map::empty(),
            anchor_index: initial_anchor,
            range_in_viewport: Range { start: initial_anchor, end: initial_anchor },
            left_to_right: true,
            autoscroll_velocity: S::spec_zero(),
            warned_not_dense: false,
            missed_actions_count: 0,
        }
    }

    /// The driver may take up a request: it starts from the range that is active.
    pub open spec fn expects_action(self, action: VirtualHScrollFetchAction) -> bool {
        action.old_active == self.active_range
    }

    /// The driver may add a child at `idx`: its request has been taken up and asks for it.
    pub open spec fn expects_child(self, idx: usize) -> bool {
        self.action_handled && index_set(self.active_range).contains(idx)
    }

    /// The driver may remove the child at `idx`: no request asks for it any more.
    pub open spec fn releases_child(self, idx: usize) -> bool {
        self.action_handled && !index_set(self.active_range).contains(idx)
    }

    /// The driver has taken up a request.
    pub open spec fn handling(self, action: VirtualHScrollFetchAction) -> Self {
        ScrollState {
            action_handled: true,
            missed_actions_count: if self.missed_actions_count > 0 {
                1
            } else {
                0
            },
            active_range: action.target,
            ..self
        }
    }

    /// A child has been put at `idx`.
    pub open spec fn with_child(self, idx: usize, child: W) -> Self {
        ScrollState { items: self.items.insert(idx, child), ..self }
    }

    /// There is no child at `idx`.
    pub open spec fn without_child(self, idx: usize) -> Self {
        ScrollState { items: self.items.remove(idx), ..self }
    }

    /// Whether a paint is the first to find a request unanswered.
    pub open spec fn late(self) -> bool {
        !self.action_handled && self.missed_actions_count == 0
    }

    /// Whether a paint finds a request that has gone unanswered for too long.
    pub open spec fn stuck(self) -> bool {
        !self.action_handled && self.missed_actions_count > MAX_MISSED_ACTIONS
    }

    /// The widget has been painted.
    pub open spec fn painted(self) -> Self {
        if self.action_handled {
            self
        } else {
            ScrollState {
                action_handled: self.stuck(),
                missed_actions_count: if self.missed_actions_count == u32::MAX {
                    0
                } else {
                    (self.missed_actions_count + 1) as u32
                },
                ..self
            }
        }
    }
}

/// What a host sets its list of item extents up with.
#[derive(Debug)]
pub struct ListSetup<S> {
    /// The number of items.
    pub len: usize,
    /// How wide items are taken to be that have not been laid out.
    pub default_extent: S,
    /// The width of the viewport, before it is known.
    pub viewport_extent: S,
    /// How far beyond the viewport items have to be loaded, before that is known.
    pub overscan: S,
    /// The item whose start the viewport starts at.
    pub scroll_to_start_of: usize,
}

/// How a host scrolls to an item.
#[derive(Clone, Copy, Debug, PartialEq, Eq, Structural)]
pub struct Jump {
    /// The item whose start the viewport starts at.
    pub to_start_of: usize,
    /// What the host has to run.
    pub passes: Passes,
}

/// What became of a request that a driver took up.
#[derive(Clone, Copy, Debug, PartialEq, Eq, Structural)]
pub struct Handling {
    /// The request started from the range that was active. If not, it was meant for another
    /// widget, or others came between.
    pub expected: bool,
    /// What the host has to run.
    pub passes: Passes,
}

/// What became of a child that a driver added.
pub struct Addition<W> {
    /// The driver was meant to add a child at this index. If not, it has not taken up a request
    /// that asks for it.
    pub expected: bool,
    /// The child that stood at the same index, which the new one has displaced.
    pub displaced: Option<W>,
    /// What the host has to run.
    pub passes: Passes,
}

/// What became of a child that a driver removed.
pub struct Removal<W> {
    /// The driver was meant to remove the child at this index. If not, it has not taken up a
    /// request, or the index is active.
    pub expected: bool,
    /// The child that stood at the index.
    pub child: Option<W>,
    /// Whether the driver has to be told that no child stood there; not if it knows already that
    /// children are missing.
    pub report: bool,
}

/// What a paint has noticed.
#[derive(Clone, Copy, Debug, PartialEq, Eq, Structural)]
pub struct PaintReport {
    /// The driver is late, for the first time since it took up a request in time.
    pub late: bool,
    /// The driver has been late so often that the request has been given up.
    pub stuck: bool,
}

/// Looks the child at `idx` up for changing it, with [`BTreeMap::get_mut`].
///
/// The reference is to the value that the map holds at the key, what is written through it is
/// what the map holds there afterwards, and no other entry changes. There is no reference if the
/// map has no such key, and then the map stays as it is.
#[verifier::external_body]
fn items_get_mut<W>(items: &mut BTreeMap<usize, W>, idx: usize) -> (r: Option<&mut W>)
    ensures
        match r {
            Some(child) => {
                &&& old(items)@.contains_key(idx)
                &&& *child == old(items)@[idx]
                &&& final(items)@ == old(items)@.insert(idx, *final(child))
            },
            None => !old(items)@.contains_key(idx) && final(items)@ == old(items)@,
        },
{
    items.get_mut(&idx)
}

impl<S: Scalar, W> VirtualHScroll<S, W> {
    /// Creates a new virtual scrolling strip of `len` items.
    ///
    /// The item at `initial_anchor` is the one that children are placed from to start with. No
    /// child is loaded: which ones should be has not been determined yet.
    pub fn new(initial_anchor: usize, len: usize) -> (r: Self)
        ensures
            r@ == ScrollState::<S, W>::initial(initial_anchor, len),
    {
        VirtualHScroll {
            item_count: len,
            active_range: Range { start: initial_anchor, end: initial_anchor },
            action_handled: true,
            items: BTreeMap::new(),
            anchor_index: initial_anchor,
            range_in_viewport: Range { start: initial_anchor, end: initial_anchor },
            left_to_right: true,
            autoscroll_velocity: S::zero(),
            warned_not_dense: false,
            missed_actions_count: 0,
        }
    }

    /// Returns what the list of item extents is set up with.
    ///
    /// The anchor has its start aligned with the start of the scroll area to begin with.
    pub fn list_setup(&self) -> (r: ListSetup<S>)
        ensures
            r == (ListSetup {
                len: self@.item_count,
                default_extent: S::spec_whole(DEFAULT_MEAN_ITEM_WIDTH),
                viewport_extent: S::spec_zero(),
                overscan: S::spec_zero(),
                scroll_to_start_of: self@.anchor_index,
            }),
    {
        ListSetup {
            len: self.item_count,
            default_extent: S::whole(DEFAULT_MEAN_ITEM_WIDTH),
            viewport_extent: S::zero(),
            overscan: S::zero(),
            scroll_to_start_of: self.anchor_index,
        }
    }

    /// Sets the number of items.
    ///
    /// Any number is accepted; 0 makes an empty strip.
    pub fn with_len(self, len: usize) -> (r: Self)
        ensures
            r@ == (ScrollState { item_count: len, ..self@ }),
    {
        let mut this = self;
        this.item_count = len;
        this
    }

    /// Sets the direction in which children are laid out.
    pub fn with_direction(self, left_to_right: bool) -> (r: Self)
        ensures
            r@ == (ScrollState { left_to_right, ..self@ }),
    {
        let mut this = self;
        this.left_to_right = left_to_right;
        this
    }

    /// Sets the auto-scroll velocity.
    pub fn with_autoscroll_velocity(self, autoscroll_velocity: S) -> (r: Self)
        ensures
            r@ == (ScrollState { autoscroll_velocity, ..self@ }),
    {
        let mut this = self;
        this.autoscroll_velocity = autoscroll_velocity;
        this
    }

    /// The number of loaded children.
    pub fn len(&self) -> (r: usize)
        ensures
            r == self@.items.len(),
    {
        self.items.len()
    }

    /// The indices of the loaded children, in order.
    pub fn child_indices(&self) -> (r: Vec<usize>)
        ensures
            r@.to_set() == self@.items.dom(),
            forall|i: int, j: int| 0 <= i < j < r@.len() ==> r@[i] < r@[j],
    {
        let mut indices: Vec<usize> = Vec::new();
        for idx in it: self.items.keys()
            invariant
                indices@.len() == it.index(),
                forall|j: int| 0 <= j < indices@.len() ==> indices@[j] == *it.seq()[j],
        {
            indices.push(*idx);
        }
        proof {
            let keys = IteratorSpec::remaining(&self.items.keys());
            assert(indices@ =~= keys.unref());
            assert(vstd::laws_cmp::obeys_cmp::<&usize>());
            assert(vstd::std_specs::btree::increasing_seq(keys));
            assert forall|i: int, j: int| 0 <= i < j < indices@.len() implies indices@[i]
                < indices@[j] by {
                assert(OrdSpec::cmp_spec(&keys[i], &keys[j]) is Less);
            }
        }
        indices
    }

    /// Whether the driver is meant to take up `action` now.
    pub fn expects_action(&self, action: &VirtualHScrollFetchAction) -> (r: bool)
        ensures
            r == self@.expects_action(*action),
    {
        same_range(&self.active_range, &action.old_active)
    }

    /// Whether the driver is meant to add a child at `idx` now.
    pub fn expects_child(&self, idx: usize) -> (r: bool)
        ensures
            r == self@.expects_child(idx),
    {
        self.action_handled && range_contains(&self.active_range, idx)
    }

    /// Whether the driver is meant to remove the child at `idx` now.
    pub fn releases_child(&self, idx: usize) -> (r: bool)
        ensures
            r == self@.releases_child(idx),
    {
        self.action_handled && !range_contains(&self.active_range, idx)
    }

    /// Indicates that `action` is about to be handled by the driver (which is calling this method).
    ///
    /// This is required because if multiple actions stack up, the widget would assume that they
    /// have all been handled.
    pub fn will_handle_action(&mut self, action: &VirtualHScrollFetchAction) -> (r: Handling)
        ensures
            final(self)@ == old(self)@.handling(*action),
            r.expected == old(self)@.expects_action(*action),
            r.passes == Passes::spec_layout(),
    {
        let expected = self.expects_action(action);
        self.action_handled = true;
        if self.missed_actions_count > 0 {
            // The driver has been told once that it is late.
            self.missed_actions_count = 1;
        }
        self.active_range = copy_range(&action.target);
        Handling {
            expected,
            passes: Passes {
                layout: true,
                compose: false,
                anim_frame: false,
                children_changed: false,
            },
        }
    }

    /// Adds the child for the given index, in place of one that stood there.
    ///
    /// This should be done only in the handling of a request, after
    /// [`VirtualHScroll::will_handle_action`]: see [`VirtualHScroll::expects_child`].
    pub fn add_child(&mut self, idx: usize, child: W) -> (r: Addition<W>)
        ensures
            final(self)@ == old(self)@.with_child(idx, child),
            r.expected == old(self)@.expects_child(idx),
            r.displaced == (if old(self)@.items.contains_key(idx) {
                Some(old(self)@.items[idx])
            } else {
                None
            }),
            r.passes == Passes::spec_children_changed(),
    {
        let expected = self.expects_child(idx);
        let displaced = self.items.insert(idx, child);
        Addition {
            expected,
            displaced,
            passes: Passes {
                layout: false,
                compose: false,
                anim_frame: false,
                children_changed: true,
            },
        }
    }

    /// Removes the child with index `idx`.
    ///
    /// This should be done only in the handling of a request, after
    /// [`VirtualHScroll::will_handle_action`]: see [`VirtualHScroll::releases_child`].
    pub fn remove_child(&mut self, idx: usize) -> (r: Removal<W>)
        ensures
            final(self)@ == old(self)@.without_child(idx),
            r.expected == old(self)@.releases_child(idx),
            r.child == (if old(self)@.items.contains_key(idx) {
                Some(old(self)@.items[idx])
            } else {
                None
            }),
            r.report == (!old(self)@.items.contains_key(idx) && !old(self)@.warned_not_dense),
    {
        let expected = self.releases_child(idx);
        let child = self.items.remove(&idx);
        let report = child.is_none() && !self.warned_not_dense;
        Removal { expected, child, report }
    }

    /// Whether a child is loaded at `idx`.
    pub fn has_child(&self, idx: usize) -> (r: bool)
        ensures
            r == self@.items.contains_key(idx),
    {
        self.items.contains_key(&idx)
    }

    /// Returns mutable reference to the child at `idx`, which must be loaded.
    pub fn child_mut(&mut self, idx: usize) -> (r: &mut W)
        requires
            old(self)@.items.contains_key(idx),
        ensures
            *r == old(self)@.items[idx],
            final(self)@ == old(self)@.with_child(idx, *final(r)),
    {
        items_get_mut(&mut self.items, idx).unwrap()
    }

    /// Sets the number of items.
    ///
    /// Any number is accepted; 0 makes an empty strip. Children past the new end are not to be
    /// removed on that account: the next layout sends a request that no longer asks for them.
    pub fn set_len(&mut self, len: usize) -> (r: Passes)
        ensures
            final(self)@ == (ScrollState { item_count: len, ..old(self)@ }),
            r == Passes::spec_layout(),
    {
        self.item_count = len;
        Passes { layout: true, compose: false, anim_frame: false, children_changed: false }
    }

    /// Sets the direction in which children are laid out.
    pub fn set_direction(&mut self, left_to_right: bool) -> (r: Passes)
        ensures
            final(self)@ == (ScrollState { left_to_right, ..old(self)@ }),
            r == Passes::spec_layout(),
    {
        self.left_to_right = left_to_right;
        Passes { layout: true, compose: false, anim_frame: false, children_changed: false }
    }

    /// Sets the auto-scroll velocity.
    pub fn set_autoscroll_velocity(&mut self, autoscroll_velocity: S) -> (r: Passes)
        ensures
            final(self)@ == (ScrollState { autoscroll_velocity, ..old(self)@ }),
            r == Passes::spec_anim_frame(),
    {
        self.autoscroll_velocity = autoscroll_velocity;
        Passes { layout: false, compose: false, anim_frame: true, children_changed: false }
    }

    /// Forcefully aligns the start of the item at `idx` with the start of the scroll area.
    ///
    /// That is, scrolls to the item at `idx`, losing any scroll progress by the user.
    pub fn scroll_to(&mut self, idx: usize) -> (r: Jump)
        ensures
            final(self)@ == (ScrollState { anchor_index: idx, ..old(self)@ }),
            r == (Jump { to_start_of: idx, passes: Passes::spec_layout() }),
    {
        self.anchor_index = idx;
        Jump {
            to_start_of: idx,
            passes: Passes {
                layout: true,
                compose: false,
                anim_frame: false,
                children_changed: false,
            },
        }
    }

    /// Notices, at a paint, whether the last request to load children is still unanswered.
    ///
    /// A request that has gone unanswered for more than [`MAX_MISSED_ACTIONS`] paints is given
    /// up, so that a later layout may send another.
    pub fn paint(&mut self) -> (r: PaintReport)
        ensures
            final(self)@ == old(self)@.painted(),
            r.late == old(self)@.late(),
            r.stuck == old(self)@.stuck(),
    {
        let late = !self.action_handled && self.missed_actions_count == 0;
        let stuck = !self.action_handled && self.missed_actions_count > MAX_MISSED_ACTIONS;
        if !self.action_handled {
            self.missed_actions_count = self.missed_actions_count.wrapping_add(1);
            self.action_handled = stuck;
        }
        PaintReport { late, stuck }
    }
}

} // verus!
