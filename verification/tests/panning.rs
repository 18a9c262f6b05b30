//! Panning a viewport to a target.

use xilem_understory_scroll::compute_pan_range;

#[test]
fn covered_and_covering_viewports_stay() {
    assert_eq!(compute_pan_range(0i64..100, 20..40), 0..100);
    assert_eq!(compute_pan_range(0i64..100, 0..100), 0..100);
    assert_eq!(compute_pan_range(0i64..100, -50..200), 0..100);
}

#[test]
fn viewport_moves_to_the_nearer_edge() {
    assert_eq!(compute_pan_range(0i64..100, 90..120), 20..120);
    assert_eq!(compute_pan_range(0i64..100, -30..10), -30..70);
    // A target that does not fit is shown from its nearer end.
    assert_eq!(compute_pan_range(0i64..100, 150..400), 150..250);
    assert_eq!(compute_pan_range(0i64..100, -400..-150), -250..-150);
}

#[test]
fn panning_keeps_the_width_and_is_idempotent() {
    for target in [90..120, -30..10, 150..400, -400..-150, 20..40, -5..500] {
        let panned = compute_pan_range(0i64..100, target.clone());
        assert_eq!(panned.end - panned.start, 100);
        assert_eq!(compute_pan_range(panned.clone(), target), panned);
    }
}

#[test]
fn panning_left_mirrors_panning_right() {
    for target in [90..120, -30..10, 150..400, -400..-150, 20..40, -5..500] {
        let panned = compute_pan_range(0i64..100, target.clone());
        let mirrored = compute_pan_range(-100i64..0, -target.end..-target.start);
        assert_eq!(mirrored, -panned.end..-panned.start);
    }
}

#[test]
fn widths_beyond_the_range_of_pixels_stop_at_its_end() {
    let panned = compute_pan_range(0i64..10, i64::MIN..5);
    assert_eq!(panned, -5..5);
}
