//! The widget's decisions over floating point coordinates and a real extent model.

use std::ops::Range;

use understory_virtual_list::{ScrollAlign, SparsePrefixSumExtentModel, VirtualList};
use xilem_understory_scroll::input::{
    ScrollKey, ScrollPointerEvent, ScrollTextEvent, WheelTurn,
};
use xilem_understory_scroll::layout::{find_first_visible, find_mean_width, ItemSpan, Placement};
use xilem_understory_scroll::scalar::Scalar;
use xilem_understory_scroll::{
    compute_pan_range, VirtualHScroll, VirtualHScrollAction,
};

#[derive(Clone, Copy, Debug, PartialEq)]
struct Logical(f64);

impl Scalar for Logical {
    fn zero() -> Self {
        Logical(0.0)
    }

    fn whole(n: usize) -> Self {
        Logical(n as f64)
    }

    fn plus(self, other: Self) -> Self {
        Logical(self.0 + other.0)
    }

    fn minus(self, other: Self) -> Self {
        Logical(self.0 - other.0)
    }

    fn times(self, other: Self) -> Self {
        Logical(self.0 * other.0)
    }

    fn share(self, count: usize) -> Self {
        Logical(self.0 / count as f64)
    }

    fn is_scale_factor(self) -> bool {
        self.0.is_sign_positive() && self.0.is_normal()
    }

    fn unscaled(self, scale_factor: Self) -> Self {
        Logical(self.0 / scale_factor.0)
    }

    fn travel(self, nanos: u64) -> Self {
        Logical(nanos as f64 * 1e-9 * self.0)
    }

    fn negated(self) -> Self {
        Logical(-self.0)
    }

    fn least(self, other: Self) -> Self {
        Logical(self.0.min(other.0))
    }

    fn is_zero(self) -> bool {
        self.0 == 0.0
    }

    fn below(self, other: Self) -> bool {
        self.0 < other.0
    }

    fn at_most(self, other: Self) -> bool {
        self.0 <= other.0
    }

    // What contracts call the results of the operations above.

    fn spec_zero() -> Self {
        Self::zero()
    }

    fn spec_whole(n: usize) -> Self {
        Self::whole(n)
    }

    fn spec_plus(self, other: Self) -> Self {
        self.plus(other)
    }

    fn spec_minus(self, other: Self) -> Self {
        self.minus(other)
    }

    fn spec_times(self, other: Self) -> Self {
        self.times(other)
    }

    fn spec_share(self, count: usize) -> Self {
        self.share(count)
    }

    fn spec_is_scale_factor(self) -> bool {
        self.is_scale_factor()
    }

    fn spec_unscaled(self, scale_factor: Self) -> Self {
        self.unscaled(scale_factor)
    }

    fn spec_travel(self, nanos: u64) -> Self {
        self.travel(nanos)
    }

    fn spec_negated(self) -> Self {
        self.negated()
    }

    fn spec_least(self, other: Self) -> Self {
        self.least(other)
    }

    fn spec_is_zero(self) -> bool {
        self.is_zero()
    }

    fn spec_below(self, other: Self) -> bool {
        self.below(other)
    }

    fn spec_at_most(self, other: Self) -> bool {
        self.at_most(other)
    }
}

type Widget = VirtualHScroll<Logical, ()>;
type List = VirtualList<SparsePrefixSumExtentModel<f64>>;

struct Host {
    widget: Widget,
    list: List,
    child_width: f64,
}

impl Host {
    fn new(anchor: usize, len: usize, child_width: f64) -> Self {
        let widget = Widget::new(anchor, len);
        let setup = widget.list_setup();
        let model = SparsePrefixSumExtentModel::new(setup.default_extent.0, setup.len);
        let mut list = VirtualList::new(model, setup.viewport_extent.0, setup.overscan.0);
        list.scroll_to_index(setup.scroll_to_start_of, ScrollAlign::Start);
        Host { widget, list, child_width }
    }

    fn anchor_offset(&mut self) -> Logical {
        Logical(self.list.offset_of(self.widget.anchor_index))
    }

    fn near(&mut self) -> (Range<usize>, Vec<bool>) {
        let strip = self.list.materialized_range();
        let visible =
            strip.clone().map(|idx| self.list.is_index_partially_visible(idx)).collect();
        (strip, visible)
    }

    fn layout(&mut self, width: f64) -> (Option<VirtualHScrollAction>, Vec<Placement<Logical>>) {
        let children = self.widget.child_indices();
        let widths = children.iter().map(|_| Logical(self.child_width)).collect();
        let anchor_offset = self.anchor_offset();
        let plan = self.widget.layout_plan(
            Logical(self.list.scroll_offset()),
            anchor_offset,
            &widths,
            Logical(width),
            Logical(100.0),
        );
        self.list.model_mut().clear();
        for idx in &children {
            self.list.model_mut().set_extent(*idx, self.child_width);
        }
        if let Some(extent) = plan.default_extent {
            self.list.model_mut().set_default_extent(extent.0);
        }
        self.list.set_viewport_extent(plan.viewport_extent.0);
        self.list.set_overscan(plan.overscan_before.0, plan.overscan_after.0);
        let anchor_offset = self.anchor_offset();
        self.list.set_scroll_offset(plan.scroll_offset(anchor_offset).0);

        let (strip, visible) = self.near();
        let action = self.widget.layout_strip(&strip, &visible);
        let anchor_offset = self.anchor_offset();
        let spans = children
            .iter()
            .map(|idx| ItemSpan {
                index: *idx,
                offset: Logical(self.list.offset_of(*idx)),
                extent: Logical(self.list.extent_of(*idx)),
            })
            .collect();
        (action, self.widget.layout_place(&strip, anchor_offset, &spans))
    }

    fn settle(&mut self, width: f64) -> Vec<Placement<Logical>> {
        for _ in 0..20 {
            let (action, placements) = self.layout(width);
            match action {
                Some(VirtualHScrollAction::Fetch(fetch)) => {
                    assert!(self.widget.will_handle_action(&fetch).expected);
                    for idx in fetch.to_remove() {
                        self.widget.remove_child(idx);
                    }
                    for idx in fetch.to_add() {
                        self.widget.add_child(idx, ());
                    }
                }
                _ => return placements,
            }
        }
        panic!("layouts kept asking for other children");
    }
}

#[test]
fn layouts_settle_on_the_children_near_the_viewport() {
    let mut host = Host::new(0, 100, 50.0);
    let placements = host.settle(200.0);
    // The viewport and two pages behind it.
    assert_eq!(host.widget.child_indices(), (0..12).collect::<Vec<_>>());
    assert_eq!(placements.len(), 12);
    assert!(matches!(placements[3], Placement::Place { index: 3, x: Logical(x), .. } if x == 150.0));
    assert_eq!(host.widget.anchor_index, 0);
}

#[test]
fn paging_moves_the_anchor_and_the_children() {
    let mut host = Host::new(0, 100, 50.0);
    host.settle(200.0);
    let delta = host
        .widget
        .on_text_event(ScrollTextEvent::KeyDown(ScrollKey::PageDown))
        .unwrap()
        .scroll_by;
    host.list.scroll_by(delta.0);
    host.list.clamp_scroll_to_content();
    assert_eq!(host.list.scroll_offset(), 2000.0);
    host.settle(200.0);
    assert_eq!(host.widget.anchor_index, 40);
    assert_eq!(host.widget.child_indices(), (36..52).collect::<Vec<_>>());

    let (strip, visible) = host.near();
    let anchor_offset = host.anchor_offset();
    let plan = host.widget.compose(
        Logical(host.list.scroll_offset()),
        anchor_offset,
        Logical(200.0),
        &strip,
        &visible,
    );
    assert_eq!(plan.translation, Logical(0.0));
    assert_eq!(plan.children, (36..52).collect::<Vec<_>>());
    assert_eq!(host.widget.range_in_viewport, 40..43);
}

#[test]
fn jumping_to_an_item_loads_around_it() {
    let mut host = Host::new(0, 100, 50.0);
    host.settle(200.0);
    let jump = host.widget.scroll_to(70);
    assert!(jump.passes.layout);
    host.list.scroll_to_index(jump.to_start_of, ScrollAlign::Start);
    host.settle(200.0);
    assert_eq!(host.widget.anchor_index, 70);
    assert_eq!(host.widget.child_indices(), (66..82).collect::<Vec<_>>());
}

#[test]
fn initial_anchor_is_aligned_with_the_start() {
    for left_to_right in [true, false] {
        let mut host = Host::new(30, 100, 50.0);
        host.widget.set_direction(left_to_right);
        let placements = host.settle(200.0);
        assert_eq!(host.widget.anchor_index, 30);
        let (strip, visible) = host.near();
        let anchor_offset = host.anchor_offset();
        let plan = host.widget.compose(
            Logical(host.list.scroll_offset()),
            anchor_offset,
            Logical(200.0),
            &strip,
            &visible,
        );
        for placement in placements {
            if let Placement::Place { index: 30, x, .. } = placement {
                let left = x.0 + plan.translation.0;
                assert_eq!(left, if left_to_right { 0.0 } else { 150.0 });
            }
        }
    }
}

#[test]
fn scrolling_within_the_anchor_needs_no_layout() {
    let mut host = Host::new(10, 100, 50.0);
    host.settle(200.0);
    for (delta, layout) in [(30.0, false), (19.0, false), (1.0, true)] {
        host.list.scroll_by(delta);
        host.list.clamp_scroll_to_content();
        let anchor_offset = host.anchor_offset();
        let anchor_extent = Logical(host.list.extent_of(host.widget.anchor_index));
        let passes = host.widget.passes_post_scroll(
            Logical(host.list.scroll_offset()),
            anchor_offset,
            anchor_extent,
        );
        assert_eq!(passes.layout, layout);
        let (strip, visible) = host.near();
        let stays = find_first_visible(&strip, &visible) == Some(host.widget.anchor_index);
        assert_eq!(stays, !layout);
    }
}

#[test]
fn exact_fractions_obey_the_laws_of_panning() {
    let range = |start: f64, end: f64| Logical(start)..Logical(end);
    for (start, end) in [(90.25, 120.5), (-30.75, 10.0), (150.0, 400.5), (-400.5, -150.25)] {
        let panned = compute_pan_range(range(0.0, 100.5), range(start, end));
        assert_eq!(panned.end.0 - panned.start.0, 100.5);
        assert_eq!(compute_pan_range(panned.clone(), range(start, end)), panned);
        let mirror = compute_pan_range(range(-100.5, 0.0), range(-end, -start));
        assert_eq!(mirror, range(-panned.end.0, -panned.start.0));
    }
}

#[test]
fn exact_fractions_scroll_alike_at_every_scale_factor() {
    let widget = Widget::new(0, 100);
    for scale_factor in [1.0, 1.25, 1.5, 2.0] {
        let scroll_by = |turn: WheelTurn<Logical>| {
            let event = ScrollPointerEvent::Wheel(turn);
            let size = (Logical(640.5), Logical(480.0));
            widget.on_pointer_event(event, size.0, size.1, Logical(scale_factor)).unwrap().scroll_by
        };
        let turn = WheelTurn::Lines { x: Logical(1.5), y: Logical(0.0) };
        assert_eq!(scroll_by(turn), Logical(-180.0));
        let turn = WheelTurn::Pages { x: Logical(-2.0), y: Logical(1.0) };
        assert_eq!(scroll_by(turn), Logical(1281.0));
    }
}

#[test]
fn fractions_are_rounded_as_the_number_type_does() {
    let mean = find_mean_width(&vec![Logical(0.1), Logical(0.2), Logical(0.4)]);
    assert_eq!(mean, Some(Logical((0.1 + 0.2 + 0.4) / 3.0)));
    let panned = compute_pan_range(Logical(0.0)..Logical(0.5), Logical(0.75)..Logical(1.0));
    assert_eq!(panned, Logical(0.5)..Logical(1.0));
    let moving = Widget::new(0, 100).with_autoscroll_velocity(Logical(10.0));
    let reaction = moving.on_anim_frame(16_000_000).unwrap();
    assert_eq!(reaction.scroll_by, Logical(-(16_000_000f64 * 1e-9 * 10.0)));
    assert!(Logical(1.25).is_scale_factor());
    let turn = WheelTurn::Pixels { x: Logical(0.0), y: Logical(4.0) };
    let reaction = moving.on_pointer_event(
        ScrollPointerEvent::Wheel(turn),
        Logical(640.0),
        Logical(480.0),
        Logical(1.25),
    );
    assert_eq!(reaction.unwrap().scroll_by, Logical(-(4.0 / 1.25)));
}
