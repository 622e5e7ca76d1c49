//! The library's laws, stated over all inputs and proved once.

use vstd::prelude::*;

use crate::color::Color;
use crate::compositor::{DrawCommand, Glyph};
use crate::event::{
    event_matches_key, event_matches_modifiers, has_key_in, has_modifiers_in, lower_of,
    press_modifiers, Event, KeyCode, Modifiers,
};
use crate::window::{after_resize, written, Window};

verus! {

/// Read-after-write: writing a pixel and reading the same coordinate gives
/// back exactly the color written, and no other pixel changes.
pub proof fn lemma_set_pixel_read_back(g: Seq<Seq<Color>>, y: int, x: int, c: Color)
    requires
        0 <= y < g.len(),
        0 <= x < g[y].len(),
    ensures
        written(g, y, x, c)[y][x] == c,
        written(g, y, x, c).len() == g.len(),
        forall|i: int| 0 <= i < g.len() && i != y ==> written(g, y, x, c)[i] == g[i],
        forall|j: int| 0 <= j < g[y].len() && j != x ==> written(g, y, x, c)[y][j] == g[y][j],
{
}

/// Centering is a function of the terminal and window sizes alone: two
/// well-formed windows of the same sizes sit at the same origin, so
/// repeating a resize with an unchanged terminal size never moves the
/// window.
pub proof fn lemma_origin_deterministic(a: Window, b: Window)
    requires
        a.wf(),
        b.wf(),
        a.terminal_columns == b.terminal_columns,
        a.terminal_rows == b.terminal_rows,
        a.width_spec() == b.width_spec(),
        a.height_spec() == b.height_spec(),
    ensures
        a.origin_x == b.origin_x,
        a.origin_y == b.origin_y,
{
}

/// Recentering is idempotent: the origin is a function of the terminal
/// size and the grid dimensions alone, so resizing twice in a row to the
/// same terminal size is the same as resizing once.
pub proof fn lemma_resize_idempotent(w: Window, columns: u16, rows: u16)
    ensures
        after_resize(after_resize(w, columns, rows), columns, rows) == after_resize(
            w,
            columns,
            rows,
        ),
{
}

/// Clipping, the easy case: a window that lies fully inside the terminal is
/// visible in full, with nothing skipped on either axis.
pub proof fn lemma_visible_range_full(w: Window)
    requires
        w.wf(),
        w.origin_x >= 0,
        w.origin_y >= 0,
        w.end_x_spec() <= w.terminal_columns as int,
        w.end_y_spec() <= w.terminal_rows as int,
    ensures
        w.visible_cols_lo() == 0,
        w.visible_cols_hi() == w.width_spec(),
        w.visible_rows_lo() == 0,
        w.visible_rows_hi() == w.height_spec(),
{
}

/// Clipping, the hard cases: a negative origin hides exactly `-origin`
/// leading units (pixel columns; pixel-row pairs, so twice that in pixel
/// rows), and the visible interval never passes the terminal bound nor the
/// grid.
pub proof fn lemma_visible_range_clipped(w: Window)
    requires
        w.wf(),
    ensures
        w.origin_x < 0 ==> w.visible_cols_lo() == -(w.origin_x as int),
        w.origin_y < 0 ==> w.visible_rows_lo() == -2 * (w.origin_y as int),
        w.col_clip_stop() <= w.terminal_columns as int,
        w.row_clip_stop() <= w.terminal_rows as int,
        0 <= w.visible_cols_lo() <= w.visible_cols_hi() <= w.width_spec(),
        0 <= w.visible_rows_lo() <= w.visible_rows_hi() <= w.height_spec(),
{
    w.lemma_visible_bounds();
}

/// Odd-height law: a fully visible window with an odd pixel height paints
/// exactly `(height + 1) / 2` terminal rows, and the unpaired last pixel
/// row is painted with a foreground color only, the background left at the
/// terminal default.
pub proof fn lemma_odd_height_rows(w: Window)
    requires
        w.wf(),
        w.height_spec() % 2 == 1,
        w.origin_y >= 0,
        w.end_y_spec() <= w.terminal_rows as int,
    ensures
        w.tail_drawn(),
        w.pairs_drawn() + 1 == (w.height_spec() + 1) / 2,
        forall|j: int|
            0 <= j < w.visible_cols() ==> #[trigger] w.tail_row_cmds()[1 + j]
                == (DrawCommand::Print {
                glyph: Glyph::UpperHalf,
                fg: w.grid()[w.height_spec() - 1][w.skip_cols() + j],
                bg: Color::Reset,
            }),
{
    w.lemma_visible_bounds();
}

/// Queries against an empty snapshot: after a poll that drained nothing,
/// no key and no modifier set is reported.
pub proof fn lemma_empty_buffer(events: Seq<Event>, key: KeyCode, modifiers: Modifiers)
    requires
        events.len() == 0,
    ensures
        !has_key_in(events, key),
        !has_modifiers_in(events, modifiers),
{
}

/// Character keys match case-insensitively: a buffered press of a character
/// answers a query for any character with the same lowercase form, in
/// either direction.
pub proof fn lemma_case_insensitive(
    events: Seq<Event>,
    i: int,
    a: char,
    b: char,
    modifiers: Modifiers,
)
    requires
        0 <= i < events.len(),
        events[i] == (Event::Key { code: KeyCode::Char(a), modifiers }),
        lower_of(a) == lower_of(b),
    ensures
        has_key_in(events, KeyCode::Char(b)),
        has_key_in(events, KeyCode::Char(a)),
{
    assert(event_matches_key(events[i], KeyCode::Char(b)));
    assert(event_matches_key(events[i], KeyCode::Char(a)));
}

/// Modifier matching is exact-set, not subset: if every buffered press
/// holds the same modifier set and the query differs from it in any way,
/// the query is not answered.
pub proof fn lemma_modifiers_exact(events: Seq<Event>, held: Modifiers, query: Modifiers)
    requires
        query != held,
        forall|i: int|
            0 <= i < events.len() ==> (#[trigger] press_modifiers(events[i])) == Some(held)
                || press_modifiers(events[i]) is None,
    ensures
        !has_modifiers_in(events, query),
{
    if has_modifiers_in(events, query) {
        let i = choose|i: int|
            0 <= i < events.len() && event_matches_modifiers(#[trigger] events[i], query);
        assert(press_modifiers(events[i]) == Some(query));
    }
}

} // verus!
