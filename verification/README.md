# xilem_understory_scroll

A horizontal strip of items of which only those near the viewport are loaded.

The library makes the decisions of the scrolling widget: which items a driver has to load or
drop, which item children are placed from, where each child goes, how far an event scrolls and
which passes have to run after it. Each of them is stated as a contract and verified with Verus.

- `src/virtual_hscroll.rs`: the widget's state, its builders, and what a driver does to it
- `src/action.rs`: what the widget asks of its driver and of its host
- `src/layout.rs`: which items to load and where children stand
- `src/input.rs`: scrolling by wheel, keys, assistive technologies, time and pan requests
- `src/pan.rs`: moving a viewport just far enough to show a target
- `src/accessibility.rs`: what assistive technologies are told
- `src/scalar.rs`: the numbers that coordinates are made of
- `src/ruler.rs`: where the arithmetic of a number type is exact
- `src/laws.rs`: what holds of the widget as a whole

Coordinates are of any type that implements `Scalar`. The library brings whole pixels (`i64`);
`app/logical.rs` brings fractional ones. The laws that speak of distances are proved for every
number type, of values whose sums it computes exactly, and once more for whole pixels.

`app/` is a program that shows such a strip. Its widget keeps the extents of the items in an
`understory_virtual_list::VirtualList`, hands what the list says to the library, and carries out
what the library decides. Besides the crates that `Cargo.toml` names, which the library's tests
and the widget use, the program's window and views need `xilem` 0.4.
