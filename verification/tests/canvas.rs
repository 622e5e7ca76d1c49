use winterm::Color;
use winterm::Window;

#[test]
fn set_pixel_read_back() {
    let mut w = Window::new(4, 4, 80, 24);
    for y in 0..4u16 {
        for x in 0..4u16 {
            assert_eq!(w.get_pixel(y, x), Color::Black);
        }
    }
    w.set_pixel(2, 3, Color::Red);
    assert_eq!(w.get_pixel(2, 3), Color::Red);
    let teal = Color::Rgb { r: 0x3E, g: 0xB4, b: 0x89 };
    w.set_pixel(0, 0, teal);
    assert_eq!(w.get_pixel(0, 0), teal);
    // the other pixels are untouched
    assert_eq!(w.get_pixel(2, 2), Color::Black);
    assert_eq!(w.get_pixel(3, 3), Color::Black);
}

#[test]
fn dimensions_survive_resizes() {
    let mut w = Window::new(9, 16, 80, 24);
    assert_eq!(w.height(), 9);
    assert_eq!(w.width(), 16);
    w.on_resize(10, 5);
    assert_eq!(w.height(), 9);
    assert_eq!(w.width(), 16);
    w.on_resize(0, 0);
    assert_eq!(w.height(), 9);
    assert_eq!(w.width(), 16);
}

#[test]
fn centering_formula() {
    // origin.x = round((columns - width) / 2), origin.y =
    // round((2 * rows - height) / 4), rounded to nearest, ties away from
    // zero.
    let w = Window::new(4, 4, 80, 24);
    assert_eq!(w.origin_x, 38);
    assert_eq!(w.origin_y, 11);

    let w = Window::new(9, 16, 80, 24);
    assert_eq!(w.origin_x, 32);
    assert_eq!(w.origin_y, 10); // (48 - 9) / 4 = 9.75 rounds to 10

    let w = Window::new(3, 1, 4, 13);
    assert_eq!(w.origin_x, 2); // 1.5 rounds away from zero
    assert_eq!(w.origin_y, 6); // 5.75 rounds to 6

    // a window larger than the terminal sits at a negative origin
    let w = Window::new(100, 200, 80, 24);
    assert_eq!(w.origin_x, -60);
    assert_eq!(w.origin_y, -13);

    let w = Window::new(3, 7, 4, 13);
    assert_eq!(w.origin_x, -2); // -1.5 rounds away from zero
}

#[test]
fn recentering_is_idempotent() {
    let mut w = Window::new(9, 16, 80, 24);
    let (x0, y0) = (w.origin_x, w.origin_y);
    w.on_resize(80, 24);
    assert_eq!((w.origin_x, w.origin_y), (x0, y0));
    w.on_resize(80, 24);
    assert_eq!((w.origin_x, w.origin_y), (x0, y0));
    w.on_resize(40, 12);
    let (x1, y1) = (w.origin_x, w.origin_y);
    assert_eq!((x1, y1), (12, 4)); // round(12.0), round(3.75)
    w.on_resize(40, 12);
    assert_eq!((w.origin_x, w.origin_y), (x1, y1));
}

#[test]
fn resize_recomputes_origin() {
    let mut w = Window::new(4, 4, 80, 24);
    w.on_resize(10, 10);
    assert_eq!(w.terminal_columns, 10);
    assert_eq!(w.terminal_rows, 10);
    assert_eq!(w.origin_x, 3);
    assert_eq!(w.origin_y, 4);
}
