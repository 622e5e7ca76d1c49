use winterm::clip::clip_axis;
use winterm::Window;

#[test]
fn clip_axis_inside() {
    let r = clip_axis(5, 10, 80);
    assert_eq!((r.start, r.stop, r.skip), (5, 15, 0));
}

#[test]
fn clip_axis_negative_origin() {
    let r = clip_axis(-3, 10, 80);
    assert_eq!((r.start, r.stop, r.skip), (0, 7, 3));
}

#[test]
fn clip_axis_past_bound() {
    let r = clip_axis(70, 20, 80);
    assert_eq!((r.start, r.stop, r.skip), (70, 80, 0));
}

#[test]
fn clip_axis_degenerate() {
    // window entirely past the bound
    let r = clip_axis(90, 5, 80);
    assert_eq!((r.start, r.stop, r.skip), (90, 90, 0));
    // window entirely before the screen
    let r = clip_axis(-10, 5, 80);
    assert_eq!((r.start, r.stop, r.skip), (0, 0, 10));
    // zero-sized terminal
    let r = clip_axis(-2, 8, 0);
    assert_eq!((r.start, r.stop, r.skip), (0, 0, 2));
}

#[test]
fn visible_ranges_fully_inside() {
    let w = Window::new(8, 16, 80, 24);
    assert_eq!(w.visible_row_range(), (0, 8));
    assert_eq!(w.visible_col_range(), (0, 16));
}

#[test]
fn visible_ranges_window_larger_than_terminal() {
    // origin (-60, -13): 60 pixel columns and 13 row pairs are hidden
    let w = Window::new(100, 200, 80, 24);
    assert_eq!(w.visible_col_range(), (60, 140));
    assert_eq!(w.visible_row_range(), (26, 74));
}

#[test]
fn visible_ranges_zero_terminal() {
    let w = Window::new(8, 8, 0, 0);
    let (lo, hi) = w.visible_row_range();
    assert_eq!(lo, hi);
    let (lo, hi) = w.visible_col_range();
    assert_eq!(lo, hi);
}
