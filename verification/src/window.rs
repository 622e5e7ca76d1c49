//! The window: a pixel buffer with a computed screen position, plus the
//! snapshot of input events drained by the most recent poll.

use vstd::prelude::*;

use crate::color::Color;
use crate::event::{
    chars_fold_equal, code_matches, event_matches_key, event_matches_modifiers, has_key_in,
    has_modifiers_in, Event, KeyCode, Modifiers,
};
use crate::grid::{grid_cols, grid_cols_of, grid_get, grid_new, grid_of, grid_rows, grid_set, PixelGrid};

verus! {

/// `a / 2` rounded to the nearest integer, ties away from zero.
pub open spec fn round_half(a: int) -> int {
    if a >= 0 {
        (a + 1) / 2
    } else {
        -((-a + 1) / 2)
    }
}

/// `a / 4` rounded to the nearest integer, ties away from zero.
pub open spec fn round_quarter(a: int) -> int {
    if a >= 0 {
        (a + 2) / 4
    } else {
        -((-a + 2) / 4)
    }
}

/// Screen column that centers a window of `width` cells in `columns` cells:
/// round(columns / 2 - width / 2), rounding to the nearest integer with
/// ties away from zero.  The one value that overflows a signed 16-bit
/// coordinate — a zero-width window on the widest terminal rounds to
/// `i16::MAX + 1` — saturates at `i16::MAX`.
pub open spec fn centered_x(columns: int, width: int) -> int {
    let r = round_half(columns - width);
    if r <= i16::MAX {
        r
    } else {
        i16::MAX as int
    }
}

/// Screen row that centers a window of `height` pixel rows in `rows`
/// terminal rows: round(rows / 2 - height / 4) = round((2 * rows - height)
/// / 4), rounding to the nearest integer with ties away from zero; the
/// height is halved twice because two pixel rows share one terminal row.
/// The one value that overflows a signed 16-bit coordinate — a zero-height
/// window on the tallest terminal — saturates at `i16::MAX`.
pub open spec fn centered_y(rows: int, height: int) -> int {
    let r = round_quarter(2 * rows - height);
    if r <= i16::MAX {
        r
    } else {
        i16::MAX as int
    }
}

/// The grid `g` with the pixel at row `y`, column `x` replaced by `c`.
pub open spec fn written(g: Seq<Seq<Color>>, y: int, x: int, c: Color) -> Seq<Seq<Color>> {
    g.update(y, g[y].update(x, c))
}

/// The window state after recording a terminal resize: the same grid and
/// event buffer, the new terminal size, and the origin re-centered for it.
pub open spec fn after_resize(w: Window, columns: u16, rows: u16) -> Window {
    Window {
        terminal_columns: columns,
        terminal_rows: rows,
        origin_x: centered_x(columns as int, w.width_spec()) as i16,
        origin_y: centered_y(rows as int, w.height_spec()) as i16,
        pixels: w.pixels,
        last_events: w.last_events,
    }
}

/// The terminal size carried by the last resize event of the buffer, if any.
pub open spec fn last_resize(events: Seq<Event>) -> Option<(u16, u16)>
    decreases events.len(),
{
    if events.len() == 0 {
        None
    } else {
        match events.last() {
            Event::Resize { columns, rows } => Some((columns, rows)),
            _ => last_resize(events.drop_last()),
        }
    }
}

/// A pixelated window drawn inside the terminal.
///
/// The pixel grid's dimensions never change after construction; the origin
/// is always the centering of the grid in the last observed terminal size
/// and may be negative when the window is larger than the terminal.
#[derive(Debug)]
pub struct Window {
    /// Last observed terminal width, in character cells.
    pub terminal_columns: u16,
    /// Last observed terminal height, in character cells.
    pub terminal_rows: u16,
    /// Screen column of the window's left edge; negative when the window
    /// starts left of the screen.
    pub origin_x: i16,
    /// Screen row of the window's top terminal row; negative when the
    /// window starts above the screen.
    pub origin_y: i16,
    /// The pixels, row-major, (0, 0) at the window's top left.
    pub pixels: PixelGrid,
    /// The events drained by the most recent poll, in arrival order.
    pub last_events: Vec<Event>,
}

impl Window {
    /// The pixel rows of the window.
    pub open spec fn grid(&self) -> Seq<Seq<Color>> {
        grid_of(self.pixels)
    }

    /// Window height in pixels.
    pub open spec fn height_spec(&self) -> int {
        self.grid().len() as int
    }

    /// Window width in pixels.
    pub open spec fn width_spec(&self) -> int {
        grid_cols_of(self.pixels)
    }

    /// The buffered events of the most recent poll.
    pub open spec fn events(&self) -> Seq<Event> {
        self.last_events@
    }

    /// Well-formedness: the grid is rectangular with dimensions that fit a
    /// terminal coordinate, and the origin centers it in the last observed
    /// terminal size.
    pub open spec fn wf(&self) -> bool {
        &&& self.height_spec() <= u16::MAX
        &&& 0 <= self.width_spec() <= u16::MAX
        &&& forall|i: int|
            0 <= i < self.height_spec() ==> (#[trigger] self.grid()[i]).len() == self.width_spec()
        &&& self.origin_x == centered_x(self.terminal_columns as int, self.width_spec())
        &&& self.origin_y == centered_y(self.terminal_rows as int, self.height_spec())
    }

    /// One past the window's rightmost screen column.
    pub open spec fn end_x_spec(&self) -> int {
        self.origin_x + self.width_spec()
    }

    /// One past the window's bottom screen row; two pixel rows occupy one
    /// terminal row, so the height is halved, rounding up.
    pub open spec fn end_y_spec(&self) -> int {
        self.origin_y + (self.height_spec() + 1) / 2
    }
}

/// Bounds of the centering math: a centered window's origin fits a signed
/// 16-bit coordinate and its far edges land in `[0, u16::MAX]`; an
/// odd-height window always has its last terminal row at or below row zero.
pub proof fn lemma_centered_bounds(columns: int, rows: int, width: int, height: int)
    requires
        0 <= columns <= u16::MAX,
        0 <= rows <= u16::MAX,
        0 <= width <= u16::MAX,
        0 <= height <= u16::MAX,
    ensures
        i16::MIN <= centered_x(columns, width) <= i16::MAX,
        i16::MIN <= centered_y(rows, height) <= i16::MAX,
        0 <= centered_x(columns, width) + width <= u16::MAX,
        0 <= centered_y(rows, height) + (height + 1) / 2 <= u16::MAX,
        height % 2 == 1 ==> centered_y(rows, height) + (height + 1) / 2 >= 1,
        centered_x(columns, width) <= columns,
        centered_y(rows, height) <= rows,
{
}

/// Centered screen column: (columns - width) / 2 rounded to nearest, ties
/// away from zero, saturated at `i16::MAX`.
fn centered_x_exec(columns: u16, width: u16) -> (r: i16)
    ensures
        r as int == centered_x(columns as int, width as int),
{
    let v: i32 = if columns >= width {
        (((columns - width) as u32 + 1) / 2) as i32
    } else {
        -((((width - columns) as u32 + 1) / 2) as i32)
    };
    let clamped: i32 = if v <= i16::MAX as i32 {
        v
    } else {
        i16::MAX as i32
    };
    clamped as i16
}

/// Centered screen row: (2 * rows - height) / 4 rounded to nearest, ties
/// away from zero, saturated at `i16::MAX`.
fn centered_y_exec(rows: u16, height: u16) -> (r: i16)
    ensures
        r as int == centered_y(rows as int, height as int),
{
    let r2: u32 = 2 * (rows as u32);
    let h: u32 = height as u32;
    let v: i32 = if r2 >= h {
        ((r2 - h + 2) / 4) as i32
    } else {
        -(((h - r2 + 2) / 4) as i32)
    };
    let clamped: i32 = if v <= i16::MAX as i32 {
        v
    } else {
        i16::MAX as i32
    };
    clamped as i16
}

impl Window {
    /// Recomputes the origin that centers the grid in the current terminal
    /// size.
    fn calculate_origin(&mut self)
        requires
            old(self).height_spec() <= u16::MAX,
            0 <= old(self).width_spec() <= u16::MAX,
        ensures
            final(self).origin_x == centered_x(
                old(self).terminal_columns as int,
                old(self).width_spec(),
            ),
            final(self).origin_y == centered_y(
                old(self).terminal_rows as int,
                old(self).height_spec(),
            ),
            final(self).pixels == old(self).pixels,
            final(self).terminal_columns == old(self).terminal_columns,
            final(self).terminal_rows == old(self).terminal_rows,
            final(self).last_events == old(self).last_events,
    {
        let w = grid_cols(&self.pixels) as u16;
        let h = grid_rows(&self.pixels) as u16;
        self.origin_x = centered_x_exec(self.terminal_columns, w);
        self.origin_y = centered_y_exec(self.terminal_rows, h);
    }

    /// Creates a window of `height` x `width` pixels, all black, centered in
    /// a terminal of `columns` x `rows` character cells.
    pub fn new(height: u16, width: u16, columns: u16, rows: u16) -> (w: Window)
        ensures
            w.wf(),
            w.height_spec() == height as int,
            w.width_spec() == width as int,
            w.grid() == Seq::new(height as nat, |i: int| Seq::new(width as nat, |j: int| Color::Black)),
            w.terminal_columns == columns,
            w.terminal_rows == rows,
            w.events().len() == 0,
    {
        let pixels = grid_new(height, width, Color::Black);
        let mut w = Window {
            terminal_columns: columns,
            terminal_rows: rows,
            origin_x: 0,
            origin_y: 0,
            pixels,
            last_events: Vec::new(),
        };
        w.calculate_origin();
        w
    }

    /// The window width in pixels; fixed over the window's lifetime.
    pub fn width(&self) -> (w: u16)
        requires
            self.wf(),
        ensures
            w as int == self.width_spec(),
    {
        grid_cols(&self.pixels) as u16
    }

    /// The window height in pixels; fixed over the window's lifetime.
    pub fn height(&self) -> (h: u16)
        requires
            self.wf(),
        ensures
            h as int == self.height_spec(),
    {
        grid_rows(&self.pixels) as u16
    }

    /// Sets the pixel at row `y`, column `x`.  The coordinate must be in
    /// range and the color must not be the reset sentinel.
    pub fn set_pixel(&mut self, y: u16, x: u16, color: Color)
        requires
            old(self).wf(),
            (y as int) < old(self).height_spec(),
            (x as int) < old(self).width_spec(),
            color != Color::Reset,
        ensures
            final(self).wf(),
            final(self).grid() == written(old(self).grid(), y as int, x as int, color),
            final(self).height_spec() == old(self).height_spec(),
            final(self).width_spec() == old(self).width_spec(),
            final(self).terminal_columns == old(self).terminal_columns,
            final(self).terminal_rows == old(self).terminal_rows,
            final(self).origin_x == old(self).origin_x,
            final(self).origin_y == old(self).origin_y,
            final(self).last_events == old(self).last_events,
    {
        grid_set(&mut self.pixels, y as usize, x as usize, color);
    }

    /// Reads the pixel at row `y`, column `x`.
    pub fn get_pixel(&self, y: u16, x: u16) -> (c: Color)
        requires
            self.wf(),
            (y as int) < self.height_spec(),
            (x as int) < self.width_spec(),
        ensures
            c == self.grid()[y as int][x as int],
    {
        grid_get(&self.pixels, y as usize, x as usize)
    }

    /// One past the window's rightmost screen column.
    pub(crate) fn end_x(&self) -> (r: u16)
        requires
            self.wf(),
        ensures
            r as int == self.end_x_spec(),
    {
        proof {
            lemma_centered_bounds(
                self.terminal_columns as int,
                self.terminal_rows as int,
                self.width_spec(),
                self.height_spec(),
            );
        }
        let w = grid_cols(&self.pixels) as u16;
        let v: i32 = self.origin_x as i32 + w as i32;
        v as u16
    }

    /// One past the window's bottom screen row.
    pub(crate) fn end_y(&self) -> (r: u16)
        requires
            self.wf(),
        ensures
            r as int == self.end_y_spec(),
    {
        proof {
            lemma_centered_bounds(
                self.terminal_columns as int,
                self.terminal_rows as int,
                self.width_spec(),
                self.height_spec(),
            );
        }
        let h = grid_rows(&self.pixels);
        let half: usize = (h + 1) / 2;
        let v: i32 = self.origin_y as i32 + half as i32;
        v as u16
    }

    /// Reacts to a terminal resize: records the new size and recomputes
    /// the centered origin.  The pixel grid is untouched; the caller must
    /// repaint everything afterwards, since the old screen positions are
    /// stale.
    pub fn on_resize(&mut self, columns: u16, rows: u16)
        requires
            old(self).wf(),
        ensures
            final(self).wf(),
            *final(self) == after_resize(*old(self), columns, rows),
            final(self).terminal_columns == columns,
            final(self).terminal_rows == rows,
            final(self).origin_x == centered_x(columns as int, old(self).width_spec()),
            final(self).origin_y == centered_y(rows as int, old(self).height_spec()),
            final(self).grid() == old(self).grid(),
            final(self).height_spec() == old(self).height_spec(),
            final(self).width_spec() == old(self).width_spec(),
            final(self).last_events == old(self).last_events,
    {
        proof {
            lemma_centered_bounds(
                columns as int,
                rows as int,
                old(self).width_spec(),
                old(self).height_spec(),
            );
        }
        self.terminal_columns = columns;
        self.terminal_rows = rows;
        self.calculate_origin();
    }

    /// Stores a freshly drained event buffer and reacts to resizes: the
    /// terminal size of the last resize event, if one is present, becomes
    /// the window's, and the origin is recomputed.  Returns whether a resize
    /// was seen; the caller must then repaint everything.
    pub fn poll_events(&mut self, events: Vec<Event>) -> (resized: bool)
        requires
            old(self).wf(),
        ensures
            final(self).wf(),
            final(self).events() == events@,
            final(self).grid() == old(self).grid(),
            final(self).height_spec() == old(self).height_spec(),
            final(self).width_spec() == old(self).width_spec(),
            resized == (last_resize(events@) is Some),
            match last_resize(events@) {
                None => {
                    &&& final(self).terminal_columns == old(self).terminal_columns
                    &&& final(self).terminal_rows == old(self).terminal_rows
                    &&& final(self).origin_x == old(self).origin_x
                    &&& final(self).origin_y == old(self).origin_y
                },
                Some(dims) => {
                    &&& final(self).terminal_columns == dims.0
                    &&& final(self).terminal_rows == dims.1
                },
            },
    {
        let ghost evs = events@;
        let ghost cols0 = self.terminal_columns;
        let ghost rows0 = self.terminal_rows;
        let ghost pix0 = self.pixels;
        let ghost ox0 = self.origin_x;
        let ghost oy0 = self.origin_y;
        self.last_events = events;
        let n = self.last_events.len();
        let mut resized = false;
        let mut i: usize = 0;
        while i < n
            invariant
                i <= n,
                n == self.last_events.len(),
                self.last_events@ == evs,
                self.pixels == pix0,
                self.origin_x == ox0,
                self.origin_y == oy0,
                resized == (last_resize(evs.take(i as int)) is Some),
                match last_resize(evs.take(i as int)) {
                    None => self.terminal_columns == cols0 && self.terminal_rows == rows0,
                    Some(dims) => self.terminal_columns == dims.0 && self.terminal_rows == dims.1,
                },
            decreases n - i,
        {
            let e = self.last_events[i];
            proof {
                lemma_last_resize_take(evs, i as int);
            }
            match e {
                Event::Resize { columns, rows } => {
                    self.terminal_columns = columns;
                    self.terminal_rows = rows;
                    resized = true;
                },
                _ => {},
            }
            i += 1;
        }
        proof {
            assert(evs.take(n as int) =~= evs);
        }
        if resized {
            self.calculate_origin();
        }
        resized
    }

    /// Whether `key` was pressed during the last poll.  Character keys match
    /// case-insensitively; every other key requires an exact match.
    pub fn get_key(&mut self, key: KeyCode) -> (found: bool)
        ensures
            found == has_key_in(old(self).events(), key),
            *final(self) == *old(self),
    {
        let n = self.last_events.len();
        let mut found = false;
        let mut i: usize = 0;
        while i < n
            invariant
                i <= n,
                n == self.last_events.len(),
                found == has_key_in(self.last_events@.take(i as int), key),
            decreases n - i,
        {
            let e = self.last_events[i];
            proof {
                lemma_has_key_take(self.last_events@, key, i as int);
            }
            let hit = match e {
                Event::Key { code, .. } => key_query_matches(key, code),
                _ => false,
            };
            if hit {
                found = true;
            }
            i += 1;
        }
        proof {
            assert(self.last_events@.take(n as int) =~= self.last_events@);
        }
        found
    }

    /// Whether a key press whose modifier set equals `modifiers` exactly was
    /// read during the last poll.
    pub fn get_modifiers(&mut self, modifiers: Modifiers) -> (found: bool)
        ensures
            found == has_modifiers_in(old(self).events(), modifiers),
            *final(self) == *old(self),
    {
        let n = self.last_events.len();
        let mut found = false;
        let mut i: usize = 0;
        while i < n
            invariant
                i <= n,
                n == self.last_events.len(),
                found == has_modifiers_in(self.last_events@.take(i as int), modifiers),
            decreases n - i,
        {
            let e = self.last_events[i];
            proof {
                lemma_has_modifiers_take(self.last_events@, modifiers, i as int);
            }
            match e {
                Event::Key { modifiers: held, .. } => {
                    if held == modifiers {
                        found = true;
                    }
                },
                _ => {},
            }
            i += 1;
        }
        proof {
            assert(self.last_events@.take(n as int) =~= self.last_events@);
        }
        found
    }
}

/// Whether a pressed `code` answers a query for `query`.
fn key_query_matches(query: KeyCode, code: KeyCode) -> (r: bool)
    ensures
        r == code_matches(query, code),
{
    if code == query {
        return true;
    }
    match (query, code) {
        (KeyCode::Char(a), KeyCode::Char(b)) => chars_fold_equal(a, b),
        _ => false,
    }
}

/// Extending a prefix by one event either keeps the last resize or replaces
/// it with that event's size.
proof fn lemma_last_resize_take(events: Seq<Event>, i: int)
    requires
        0 <= i < events.len(),
    ensures
        last_resize(events.take(i + 1)) == (match events[i] {
            Event::Resize { columns, rows } => Some((columns, rows)),
            _ => last_resize(events.take(i)),
        }),
{
    assert(events.take(i + 1).drop_last() =~= events.take(i));
    assert(events.take(i + 1).last() == events[i]);
}

/// Extending a prefix by one event matches a key query iff the prefix did
/// or the new event does.
proof fn lemma_has_key_take(events: Seq<Event>, query: KeyCode, i: int)
    requires
        0 <= i < events.len(),
    ensures
        has_key_in(events.take(i + 1), query) == (has_key_in(events.take(i), query)
            || event_matches_key(events[i], query)),
{
    let s0 = events.take(i);
    let s1 = events.take(i + 1);
    if has_key_in(s0, query) {
        let j = choose|j: int| 0 <= j < s0.len() && event_matches_key(#[trigger] s0[j], query);
        assert(event_matches_key(s1[j], query));
    }
    if event_matches_key(events[i], query) {
        assert(event_matches_key(s1[i], query));
    }
    if has_key_in(s1, query) {
        let j = choose|j: int| 0 <= j < s1.len() && event_matches_key(#[trigger] s1[j], query);
        if j < i {
            assert(event_matches_key(s0[j], query));
        } else {
            assert(event_matches_key(events[i], query));
        }
    }
}

/// Extending a prefix by one event matches a modifier query iff the prefix
/// did or the new event does.
proof fn lemma_has_modifiers_take(events: Seq<Event>, query: Modifiers, i: int)
    requires
        0 <= i < events.len(),
    ensures
        has_modifiers_in(events.take(i + 1), query) == (has_modifiers_in(events.take(i), query)
            || event_matches_modifiers(events[i], query)),
{
    let s0 = events.take(i);
    let s1 = events.take(i + 1);
    if has_modifiers_in(s0, query) {
        let j = choose|j: int| 0 <= j < s0.len() && event_matches_modifiers(#[trigger] s0[j], query);
        assert(event_matches_modifiers(s1[j], query));
    }
    if event_matches_modifiers(events[i], query) {
        assert(event_matches_modifiers(s1[i], query));
    }
    if has_modifiers_in(s1, query) {
        let j = choose|j: int| 0 <= j < s1.len() && event_matches_modifiers(#[trigger] s1[j], query);
        if j < i {
            assert(event_matches_modifiers(s0[j], query));
        } else {
            assert(event_matches_modifiers(events[i], query));
        }
    }
}

} // verus!
