//! What the widget asks of its driver, and of the passes of its host.

use std::ops::Range;

use vstd::prelude::*;

verus! {

/// The set of the indices in a half-open range.
pub open spec fn index_set(r: Range<usize>) -> Set<usize> {
    Set::new(|i: usize| r.start <= i < r.end)
}

/// The number of indices in a half-open range.
pub open spec fn range_len(r: Range<usize>) -> nat {
    if r.start <= r.end {
        (r.end - r.start) as nat
    } else {
        0
    }
}

/// The indices of a half-open range, in order.
pub open spec fn index_seq(r: Range<usize>) -> Seq<usize> {
    Seq::new(range_len(r), |k: int| (r.start + k) as usize)
}

/// Whether an index lies in a half-open range.
pub fn range_contains(r: &Range<usize>, idx: usize) -> (b: bool)
    ensures
        b == index_set(*r).contains(idx),
{
    r.start <= idx && idx < r.end
}

/// Whether two ranges have the same bounds.
pub fn same_range(a: &Range<usize>, b: &Range<usize>) -> (r: bool)
    ensures
        r == (*a == *b),
{
    a.start == b.start && a.end == b.end
}

/// A range with the same bounds.
pub fn copy_range(a: &Range<usize>) -> (r: Range<usize>)
    ensures
        r == *a,
{
    Range { start: a.start, end: a.end }
}

/// Filtering keeps those members that the predicate holds of.
pub proof fn lemma_filter_members(all: Seq<usize>, keep: spec_fn(usize) -> bool, i: usize)
    ensures
        all.filter(keep).contains(i) == (all.contains(i) && keep(i)),
    decreases all.len(),
{
    reveal(Seq::filter);
    if all.len() > 0 {
        let init = all.drop_last();
        lemma_filter_members(init, keep, i);
        let kept = init.filter(keep);
        assert(all =~= init.push(all.last()));
        if all.contains(i) && i != all.last() {
            assert(init[all.index_of(i)] == i);
        }
        if init.contains(i) {
            assert(all[init.index_of(i)] == i);
        }
        assert(all[all.len() - 1] == all.last());
        if kept.contains(i) {
            let k = kept.index_of(i);
            assert(kept.push(all.last())[k] == i);
        }
        if kept.push(all.last()).contains(i) && i != all.last() {
            let k = kept.push(all.last()).index_of(i);
            assert(kept[k] == i);
        }
        assert(kept.push(all.last())[kept.len() as int] == all.last());
    }
}

/// The indices of `r` that are not in `other`, in order.
pub open spec fn seq_outside(r: Range<usize>, other: Range<usize>) -> Seq<usize> {
    index_seq(r).filter(|i: usize| !index_set(other).contains(i))
}

/// Returns the indices of `r` that are not in `other`, in order.
fn indices_outside(r: &Range<usize>, other: &Range<usize>) -> (v: Vec<usize>)
    ensures
        v@ == seq_outside(*r, *other),
        v@.to_set() == index_set(*r).difference(index_set(*other)),
{
    let ghost outside = |i: usize| !index_set(*other).contains(i);
    let ghost all = index_seq(*r);
    let mut indices: Vec<usize> = Vec::new();
    let mut idx: usize = r.start;
    proof {
        reveal(Seq::filter);
        assert(all.take(0) =~= Seq::empty());
    }
    while idx < r.end
        invariant
            all == index_seq(*r),
            outside == (|i: usize| !index_set(*other).contains(i)),
            r.start <= idx,
            idx <= r.end || idx == r.start,
            indices@ == all.take(idx - r.start).filter(outside),
        decreases r.end - idx,
    {
        if !range_contains(other, idx) {
            indices.push(idx);
        }
        proof {
            let k = idx - r.start;
            reveal(Seq::filter);
            assert(all.take(k + 1).drop_last() =~= all.take(k));
            assert(all.take(k + 1).last() == idx);
        }
        idx += 1;
    }
    proof {
        assert(all.take(idx - r.start) =~= all);
        assert forall|i: usize| #[trigger]
            indices@.to_set().contains(i) == index_set(*r).difference(index_set(*other)).contains(
                i,
            ) by {
            lemma_filter_members(all, outside, i);
            if index_set(*r).contains(i) {
                assert(all[i - r.start] == i);
            }
        }
        assert(indices@.to_set() =~= index_set(*r).difference(index_set(*other)));
    }
    indices
}

/// A request to load the children of `target`.
#[derive(Debug)]
pub struct VirtualHScrollFetchAction {
    /// The range of children ids which were "active" before this change.
    /// That is, the items which the driver wanted to have available, to properly load what it needs.
    /// Note that many of these items will likely still be active even after this event;
    /// only those which aren't also in `target` must be removed.
    pub old_active: Range<usize>,
    /// The range of items which are now active.
    ///
    /// Note that many of these items will have previously been active before this event (and so
    /// require no action); only those which weren't also in `old_active` must be added.
    pub target: Range<usize>,
}

impl VirtualHScrollFetchAction {
    /// The children which the driver has to remove, in order.
    pub fn to_remove(&self) -> (r: Vec<usize>)
        ensures
            r@ == seq_outside(self.old_active, self.target),
            r@.to_set() == index_set(self.old_active).difference(index_set(self.target)),
    {
        indices_outside(&self.old_active, &self.target)
    }

    /// The children which the driver has to add, in order.
    pub fn to_add(&self) -> (r: Vec<usize>)
        ensures
            r@ == seq_outside(self.target, self.old_active),
            r@.to_set() == index_set(self.target).difference(index_set(self.old_active)),
    {
        indices_outside(&self.target, &self.old_active)
    }
}

/// A note that other children have come into view.
#[derive(Debug)]
pub struct VirtualHScrollScrollAction {
    /// From the first child in view up to the last one.
    pub range_in_viewport: Range<usize>,
}

/// What the widget sends to its driver.
#[derive(Debug)]
pub enum VirtualHScrollAction {
    /// Other children have to be loaded.
    Fetch(VirtualHScrollFetchAction),
    /// Other children have come into view.
    Scroll(VirtualHScrollScrollAction),
}

/// The passes that a change asks the host to run.
#[derive(Clone, Copy, Debug, PartialEq, Eq, Structural)]
pub struct Passes {
    /// The children have to be laid out again.
    pub layout: bool,
    /// The children have to be moved.
    pub compose: bool,
    /// The widget wants to hear of the next animation frame.
    pub anim_frame: bool,
    /// The set of children is another one.
    pub children_changed: bool,
}

impl Passes {
    /// Asks for a layout and nothing else.
    pub open spec fn spec_layout() -> Self {
        Passes { layout: true, compose: false, anim_frame: false, children_changed: false }
    }

    /// Asks for an animation frame and nothing else.
    pub open spec fn spec_anim_frame() -> Self {
        Passes { layout: false, compose: false, anim_frame: true, children_changed: false }
    }

    /// Says that the set of children has changed and asks for nothing else.
    pub open spec fn spec_children_changed() -> Self {
        Passes { layout: false, compose: false, anim_frame: false, children_changed: true }
    }
}

} // verus!
