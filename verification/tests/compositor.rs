use winterm::compositor::{DrawCommand, Glyph};
use winterm::Color;
use winterm::Window;

fn distinct(y: u16, x: u16) -> Color {
    Color::Rgb { r: (y * 16 + x) as u8, g: 0, b: 0 }
}

#[test]
fn four_by_four_scenario() {
    // 4x4 canvas, 16 distinct colors, terminal 80x24: exactly two terminal
    // rows, four glyphs each, every glyph showing its pixel pair.
    let mut w = Window::new(4, 4, 80, 24);
    for y in 0..4u16 {
        for x in 0..4u16 {
            w.set_pixel(y, x, distinct(y, x));
        }
    }
    let cmds = w.redraw();
    assert_eq!(cmds.len(), 11);
    assert_eq!(cmds[0], DrawCommand::MoveTo { col: 38, row: 11 });
    for j in 0..4u16 {
        assert_eq!(
            cmds[1 + j as usize],
            DrawCommand::Print { glyph: Glyph::UpperHalf, fg: distinct(0, j), bg: distinct(1, j) }
        );
    }
    assert_eq!(cmds[5], DrawCommand::MoveTo { col: 38, row: 12 });
    for j in 0..4u16 {
        assert_eq!(
            cmds[6 + j as usize],
            DrawCommand::Print { glyph: Glyph::UpperHalf, fg: distinct(2, j), bg: distinct(3, j) }
        );
    }
    assert_eq!(cmds[10], DrawCommand::ResetColors);
}

#[test]
fn odd_height_tail_row() {
    // 5 pixel rows pack into ceil(5/2) = 3 terminal rows; the last one is
    // unpaired and keeps the terminal's default background.
    let mut w = Window::new(5, 3, 80, 24);
    for x in 0..3u16 {
        w.set_pixel(4, x, distinct(4, x));
    }
    let cmds = w.redraw();
    assert_eq!(cmds.len(), 13);
    assert_eq!(cmds[0], DrawCommand::MoveTo { col: 39, row: 11 });
    assert_eq!(cmds[4], DrawCommand::MoveTo { col: 39, row: 12 });
    assert_eq!(cmds[8], DrawCommand::MoveTo { col: 39, row: 13 });
    for j in 0..3usize {
        assert_eq!(
            cmds[9 + j],
            DrawCommand::Print {
                glyph: Glyph::UpperHalf,
                fg: distinct(4, j as u16),
                bg: Color::Reset,
            }
        );
    }
    assert_eq!(cmds[12], DrawCommand::ResetColors);
}

#[test]
fn oversized_window_clipped_redraw() {
    // the window overflows the terminal on every side; the repaint covers
    // exactly the 80x24 visible cells and starts from the hidden offset
    let mut w = Window::new(100, 200, 80, 24);
    w.set_pixel(26, 60, Color::White);
    w.set_pixel(27, 60, Color::Grey);
    let cmds = w.redraw();
    // 24 terminal rows of one move plus 80 glyphs, then the color reset
    assert_eq!(cmds.len(), 24 * 81 + 1);
    assert_eq!(cmds[0], DrawCommand::MoveTo { col: 0, row: 0 });
    assert_eq!(
        cmds[1],
        DrawCommand::Print { glyph: Glyph::UpperHalf, fg: Color::White, bg: Color::Grey }
    );
    assert_eq!(*cmds.last().unwrap(), DrawCommand::ResetColors);
}

#[test]
fn border_around_window() {
    let w = Window::new(4, 4, 80, 24);
    let cmds = w.redraw_border();
    assert_eq!(cmds.len(), 22);
    // cap above the window, one cell wider on each side
    assert_eq!(cmds[0], DrawCommand::MoveTo { col: 37, row: 10 });
    for j in 0..6usize {
        assert_eq!(
            cmds[1 + j],
            DrawCommand::Print { glyph: Glyph::LowerHalf, fg: Color::Reset, bg: Color::Reset }
        );
    }
    // left edge
    assert_eq!(cmds[7], DrawCommand::MoveTo { col: 37, row: 11 });
    assert_eq!(
        cmds[8],
        DrawCommand::Print { glyph: Glyph::Full, fg: Color::Reset, bg: Color::Reset }
    );
    assert_eq!(cmds[9], DrawCommand::MoveTo { col: 37, row: 12 });
    // right edge
    assert_eq!(cmds[11], DrawCommand::MoveTo { col: 42, row: 11 });
    assert_eq!(cmds[13], DrawCommand::MoveTo { col: 42, row: 12 });
    // cap below the even-height window
    assert_eq!(cmds[15], DrawCommand::MoveTo { col: 37, row: 13 });
    for j in 0..6usize {
        assert_eq!(
            cmds[16 + j],
            DrawCommand::Print { glyph: Glyph::UpperHalf, fg: Color::Reset, bg: Color::Reset }
        );
    }
}

#[test]
fn border_omitted_off_screen() {
    // the oversized window has no room for any border piece
    let w = Window::new(100, 200, 80, 24);
    let cmds = w.redraw_border();
    assert_eq!(cmds.len(), 0);
}

#[test]
fn full_repaint_clears_first() {
    let w = Window::new(4, 4, 80, 24);
    let cmds = w.redraw_all();
    assert_eq!(cmds.len(), 1 + 22 + 11);
    assert_eq!(cmds[0], DrawCommand::ClearAll);
    assert_eq!(cmds[1], DrawCommand::MoveTo { col: 37, row: 10 });
    assert_eq!(*cmds.last().unwrap(), DrawCommand::ResetColors);
}
