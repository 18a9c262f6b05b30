//! Moving a viewport just far enough to show a target.

use std::ops::Range;

use vstd::prelude::*;

use crate::ruler::Ruler;
use crate::scalar::Scalar;

verus! {

/// Whether `outer` reaches at least as far as `inner` on both sides.
pub open spec fn covers<S: Scalar>(outer: Range<S>, inner: Range<S>) -> bool {
    outer.start.spec_at_most(inner.start) && inner.end.spec_at_most(outer.end)
}

/// How much of `target` a viewport of the given width can show at once.
pub open spec fn showable<S: Scalar>(width: S, target: Range<S>) -> S {
    width.spec_least(target.end.spec_minus(target.start))
}

/// Where `viewport` stands once it has been moved to show `target`.
///
/// A viewport that covers the target, or that the target covers, stays. Any other one keeps its
/// width: lying to the right of the target's start, it moves until it begins where the last
/// showable part of the target begins; lying to the left, until it ends where the first showable
/// part ends.
pub open spec fn panned<S: Scalar>(viewport: Range<S>, target: Range<S>) -> Range<S> {
    let width = viewport.end.spec_minus(viewport.start);
    if covers(target, viewport) || covers(viewport, target) {
        viewport
    } else if target.start.spec_at_most(viewport.start) {
        let start = target.end.spec_minus(showable(width, target));
        Range { start, end: start.spec_plus(width) }
    } else {
        let end = target.start.spec_plus(showable(width, target));
        Range { start: end.spec_minus(width), end }
    }
}

/// Moves `viewport` so that it shows as much of `target` as it can.
pub fn compute_pan_range<S: Scalar>(viewport: Range<S>, target: Range<S>) -> (r: Range<S>)
    ensures
        r == panned(viewport, target),
{
    // If either range contains the other, the viewport doesn't move.
    if target.start.at_most(viewport.start) && viewport.end.at_most(target.end) {
        return viewport;
    }
    if viewport.start.at_most(target.start) && target.end.at_most(viewport.end) {
        return viewport;
    }

    // The length that has to fit in the viewport.
    let viewport_width = viewport.end.minus(viewport.start);
    let target_width = viewport_width.least(target.end.minus(target.start));

    // What is left is to move the viewport to the left or to the right.
    if target.start.at_most(viewport.start) {
        let start = target.end.minus(target_width);
        Range { start, end: start.plus(viewport_width) }
    } else {
        let end = target.start.plus(target_width);
        Range { start: end.minus(viewport_width), end }
    }
}

/// A range seen in a mirror that stands at 0.
pub open spec fn mirrored<S: Scalar>(r: Range<S>) -> Range<S> {
    Range { start: r.end.spec_negated(), end: r.start.spec_negated() }
}

/// Panning never changes the width of the viewport.
pub proof fn law_pan_keeps_width_on_ruler<S: Scalar>(
    r: Ruler<S>,
    viewport: Range<S>,
    target: Range<S>,
)
    requires
        r.exact(),
        r.measures(viewport),
        r.measures(target),
    ensures
        r.measures(panned(viewport, target)),
        r.width(panned(viewport, target)) == r.width(viewport),
{
}

/// After panning, the viewport shows all of the target or nothing but the target.
pub proof fn law_pan_shows_target_on_ruler<S: Scalar>(
    r: Ruler<S>,
    viewport: Range<S>,
    target: Range<S>,
)
    requires
        r.exact(),
        r.measures(viewport),
        r.measures(target),
    ensures
        covers(panned(viewport, target), target) || covers(target, panned(viewport, target)),
{
    law_pan_keeps_width_on_ruler(r, viewport, target);
}

/// Panning to the same target again does not move the viewport.
pub proof fn law_pan_is_idempotent_on_ruler<S: Scalar>(
    r: Ruler<S>,
    viewport: Range<S>,
    target: Range<S>,
)
    requires
        r.exact(),
        r.measures(viewport),
        r.measures(target),
    ensures
        panned(panned(viewport, target), target) == panned(viewport, target),
{
    law_pan_shows_target_on_ruler(r, viewport, target);
}

/// No viewport of the same width that shows the target lies nearer to where the viewport was.
pub proof fn law_pan_moves_least_on_ruler<S: Scalar>(
    r: Ruler<S>,
    viewport: Range<S>,
    target: Range<S>,
    other: Range<S>,
)
    requires
        r.exact(),
        r.measures(viewport),
        r.measures(target),
        r.measures(other),
        r.width(other) == r.width(viewport),
        covers(other, target) || covers(target, other),
    ensures
        vstd::math::abs(r.at(panned(viewport, target).start) - r.at(viewport.start))
            <= vstd::math::abs(r.at(other.start) - r.at(viewport.start)),
{
    law_pan_keeps_width_on_ruler(r, viewport, target);
}

/// Panning left and panning right are mirror images of each other: they end on the same marks, and
/// are thus the same where no two values stand on one mark.
pub proof fn law_pan_mirrors_on_ruler<S: Scalar>(
    r: Ruler<S>,
    viewport: Range<S>,
    target: Range<S>,
)
    requires
        r.exact(),
        r.measures(viewport),
        r.measures(target),
    ensures
        ({
            let there = panned(viewport, target);
            let mirror = panned(mirrored(viewport), mirrored(target));
            &&& r.at(mirror.start) == r.at(mirrored(there).start) == -r.at(there.end)
            &&& r.at(mirror.end) == r.at(mirrored(there).end) == -r.at(there.start)
            &&& r.distinct() ==> mirror == mirrored(there)
        }),
{
    law_pan_keeps_width_on_ruler(r, viewport, target);
    law_pan_keeps_width_on_ruler(r, mirrored(viewport), mirrored(target));
}

/// A range of pixels that does not run backwards and whose width is an `i64`.
pub open spec fn measurable(r: Range<i64>) -> bool {
    0 <= r.end - r.start <= i64::MAX
}

/// Panning never changes the width of the viewport.
pub proof fn law_pan_keeps_width(viewport: Range<i64>, target: Range<i64>)
    requires
        measurable(viewport),
        measurable(target),
    ensures
        panned(viewport, target).end - panned(viewport, target).start == viewport.end
            - viewport.start,
{
}

/// After panning, the viewport shows all of the target or nothing but the target.
pub proof fn law_pan_shows_target(viewport: Range<i64>, target: Range<i64>)
    requires
        measurable(viewport),
        measurable(target),
    ensures
        covers(panned(viewport, target), target) || covers(target, panned(viewport, target)),
{
}

/// Panning to the same target again does not move the viewport.
pub proof fn law_pan_is_idempotent(viewport: Range<i64>, target: Range<i64>)
    requires
        measurable(viewport),
        measurable(target),
    ensures
        panned(panned(viewport, target), target) == panned(viewport, target),
{
}

/// Panning left and panning right are mirror images of each other.
pub proof fn law_pan_mirrors(viewport: Range<i64>, target: Range<i64>)
    requires
        i64::MIN < viewport.start <= viewport.end,
        i64::MIN < target.start <= target.end,
    ensures
        panned(mirrored(viewport), mirrored(target)) == mirrored(panned(viewport, target)),
{
}

/// No viewport of the same width that shows the target lies nearer to where the viewport was.
pub proof fn law_pan_moves_least(viewport: Range<i64>, target: Range<i64>, other: Range<i64>)
    requires
        measurable(viewport),
        measurable(target),
        other.end - other.start == viewport.end - viewport.start,
        covers(other, target) || covers(target, other),
    ensures
        vstd::math::abs(panned(viewport, target).start - viewport.start) <= vstd::math::abs(
            other.start - viewport.start,
        ),
{
}

} // verus!
