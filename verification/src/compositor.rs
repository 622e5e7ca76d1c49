//! The compositor: turns the window into the sequence of styled terminal
//! writes that paints it, clipped to the visible terminal rectangle.
//!
//! Two vertically adjacent pixels share one terminal cell: the cell shows
//! the upper-half-block glyph, so its foreground color is the upper pixel
//! and its background color the lower one.  The compositor is pure: it
//! builds a [`DrawCommand`] sequence and touches no terminal itself.

use vstd::prelude::*;

use crate::clip::{clip_axis, clip_skip, clip_start, clip_stop};
use crate::color::Color;
use crate::grid::grid_get;
use crate::window::{lemma_centered_bounds, Window};

verus! {

/// `n` copies of one glyph printed in the terminal's default colors, as the
/// border is drawn.
pub open spec fn repeat_print(g: Glyph, n: int) -> Seq<DrawCommand> {
    Seq::new(
        n as nat,
        |j: int| DrawCommand::Print { glyph: g, fg: Color::Reset, bg: Color::Reset },
    )
}

/// A block glyph used for painting.
#[derive(Clone, Copy, Debug, PartialEq, Eq, Structural)]
pub enum Glyph {
    /// The upper half of the cell is drawn in the foreground color.
    UpperHalf,
    /// The lower half of the cell is drawn in the foreground color.
    LowerHalf,
    /// The whole cell is drawn in the foreground color.
    Full,
}

/// One buffered terminal operation.  A painter performs them in order and
/// flushes once at the end.
#[derive(Clone, Copy, Debug, PartialEq, Eq, Structural)]
pub enum DrawCommand {
    /// Clear the whole screen.
    ClearAll,
    /// Move the cursor to the cell at `col`, `row` (zero-based).
    MoveTo { col: u16, row: u16 },
    /// Write one glyph in the given foreground and background colors; the
    /// cursor advances one cell.
    Print { glyph: Glyph, fg: Color, bg: Color },
    /// Return the foreground and background to the terminal defaults.
    ResetColors,
}

impl Window {
    /// First on-screen terminal row of the window.
    pub open spec fn row_clip_start(&self) -> int {
        clip_start(self.origin_y as int)
    }

    /// One past the last on-screen terminal row of the window.
    pub open spec fn row_clip_stop(&self) -> int {
        clip_stop(self.origin_y as int, (self.height_spec() + 1) / 2, self.terminal_rows as int)
    }

    /// Pixel-row pairs hidden above the screen's top edge.
    pub open spec fn skip_pairs(&self) -> int {
        clip_skip(self.origin_y as int)
    }

    /// First on-screen terminal column of the window.
    pub open spec fn col_clip_start(&self) -> int {
        clip_start(self.origin_x as int)
    }

    /// One past the last on-screen terminal column of the window.
    pub open spec fn col_clip_stop(&self) -> int {
        clip_stop(self.origin_x as int, self.width_spec(), self.terminal_columns as int)
    }

    /// Pixel columns hidden left of the screen's left edge.
    pub open spec fn skip_cols(&self) -> int {
        clip_skip(self.origin_x as int)
    }

    /// Number of on-screen pixel columns.
    pub open spec fn visible_cols(&self) -> int {
        self.col_clip_stop() - self.col_clip_start()
    }

    /// Number of on-screen terminal rows of the window.
    pub open spec fn term_rows_visible(&self) -> int {
        self.row_clip_stop() - self.row_clip_start()
    }

    /// Number of full pixel-row pairs that a repaint draws: the visible
    /// terminal rows, but never more than the pairs that remain after the
    /// skipped ones.
    pub open spec fn pairs_drawn(&self) -> int {
        let rest = self.height_spec() / 2 - self.skip_pairs();
        let avail = if rest >= 0 {
            rest
        } else {
            0
        };
        if self.term_rows_visible() <= avail {
            self.term_rows_visible()
        } else {
            avail
        }
    }

    /// Whether the unpaired last pixel row of an odd-height window is
    /// painted: only when the window's bottom is on screen.
    pub open spec fn tail_drawn(&self) -> bool {
        self.height_spec() % 2 == 1 && self.end_y_spec() <= self.terminal_rows as int
    }

    /// First on-screen pixel row (the skipped pairs are two pixel rows
    /// each).
    pub open spec fn visible_rows_lo(&self) -> int {
        2 * self.skip_pairs()
    }

    /// One past the last on-screen pixel row.
    pub open spec fn visible_rows_hi(&self) -> int {
        let hi = self.visible_rows_lo() + 2 * self.term_rows_visible();
        if hi <= self.height_spec() {
            hi
        } else {
            self.height_spec()
        }
    }

    /// First on-screen pixel column.
    pub open spec fn visible_cols_lo(&self) -> int {
        self.skip_cols()
    }

    /// One past the last on-screen pixel column.
    pub open spec fn visible_cols_hi(&self) -> int {
        let hi = self.skip_cols() + self.visible_cols();
        if hi <= self.width_spec() {
            hi
        } else {
            self.width_spec()
        }
    }

    /// Consequences of well-formedness for the clipped ranges: everything a
    /// repaint indexes is inside the grid, and every cell it touches is on
    /// screen.
    pub proof fn lemma_visible_bounds(&self)
        requires
            self.wf(),
        ensures
            0 <= self.skip_cols(),
            0 <= self.visible_cols(),
            self.skip_cols() + self.visible_cols() <= self.width_spec(),
            0 <= self.skip_pairs(),
            0 <= self.pairs_drawn(),
            self.skip_pairs() + self.pairs_drawn() <= self.height_spec() / 2,
            2 * self.skip_pairs() <= self.height_spec(),
            0 <= self.row_clip_start(),
            self.origin_y + self.skip_pairs() == self.row_clip_start(),
            self.origin_x + self.skip_cols() == self.col_clip_start(),
            self.row_clip_start() + self.pairs_drawn() <= self.row_clip_stop(),
            self.row_clip_stop() <= self.terminal_rows,
            self.col_clip_stop() <= self.terminal_columns,
            self.tail_drawn() ==> 1 <= self.end_y_spec() <= self.terminal_rows,
            self.tail_drawn() ==> self.height_spec() - 1 == 2 * (self.height_spec() / 2),
            self.height_spec() % 2 == 1 ==> self.pairs_drawn() <= self.height_spec() / 2,
    {
        lemma_centered_bounds(
            self.terminal_columns as int,
            self.terminal_rows as int,
            self.width_spec(),
            self.height_spec(),
        );
    }

    /// The commands that paint the terminal row showing pixel rows `2 * p`
    /// and `2 * p + 1`: one cursor move, then one glyph per visible column,
    /// the upper pixel as foreground and the lower as background.
    pub open spec fn pair_row_cmds(&self, p: int) -> Seq<DrawCommand> {
        seq![
            DrawCommand::MoveTo {
                col: self.col_clip_start() as u16,
                row: (self.origin_y + p) as u16,
            },
        ] + Seq::new(
            self.visible_cols() as nat,
            |j: int|
                DrawCommand::Print {
                    glyph: Glyph::UpperHalf,
                    fg: self.grid()[2 * p][self.skip_cols() + j],
                    bg: self.grid()[2 * p + 1][self.skip_cols() + j],
                },
        )
    }

    /// The first `n` painted pair rows, pair indices `skip_pairs` upward.
    pub open spec fn pair_rows_cmds(&self, n: int) -> Seq<DrawCommand>
        decreases n,
    {
        if n <= 0 {
            Seq::empty()
        } else {
            self.pair_rows_cmds(n - 1) + self.pair_row_cmds(self.skip_pairs() + n - 1)
        }
    }

    /// The commands for the unpaired last pixel row of an odd-height
    /// window: each glyph carries only a foreground color, the background
    /// stays at the terminal default.
    pub open spec fn tail_row_cmds(&self) -> Seq<DrawCommand> {
        seq![
            DrawCommand::MoveTo {
                col: self.col_clip_start() as u16,
                row: (self.end_y_spec() - 1) as u16,
            },
        ] + Seq::new(
            self.visible_cols() as nat,
            |j: int|
                DrawCommand::Print {
                    glyph: Glyph::UpperHalf,
                    fg: self.grid()[self.height_spec() - 1][self.skip_cols() + j],
                    bg: Color::Reset,
                },
        )
    }

    /// Every command of a fast-path repaint: the visible pair rows top to
    /// bottom, the odd tail row if its screen row exists, then a color
    /// reset.
    pub open spec fn redraw_cmds(&self) -> Seq<DrawCommand> {
        self.pair_rows_cmds(self.pairs_drawn()) + (if self.tail_drawn() {
            self.tail_row_cmds()
        } else {
            Seq::empty()
        }) + seq![DrawCommand::ResetColors]
    }

    /// The half-open interval of pixel rows that map to on-screen terminal
    /// rows.
    pub fn visible_row_range(&self) -> (r: (u16, u16))
        requires
            self.wf(),
        ensures
            r.0 == self.visible_rows_lo(),
            r.1 == self.visible_rows_hi(),
    {
        proof {
            self.lemma_visible_bounds();
        }
        let h = self.height();
        let half: u16 = h / 2 + h % 2;
        let rc = clip_axis(self.origin_y, half, self.terminal_rows);
        let lo: u16 = 2 * rc.skip;
        let span: u16 = rc.stop - rc.start;
        let hi32: u32 = lo as u32 + 2 * (span as u32);
        let hi: u16 = if hi32 <= h as u32 {
            hi32 as u16
        } else {
            h
        };
        (lo, hi)
    }

    /// The half-open interval of pixel columns that map to on-screen
    /// terminal columns.
    pub fn visible_col_range(&self) -> (r: (u16, u16))
        requires
            self.wf(),
        ensures
            r.0 == self.visible_cols_lo(),
            r.1 == self.visible_cols_hi(),
    {
        proof {
            self.lemma_visible_bounds();
        }
        let w = self.width();
        let cc = clip_axis(self.origin_x, w, self.terminal_columns);
        let lo: u16 = cc.skip;
        let hi32: u32 = cc.skip as u32 + (cc.stop - cc.start) as u32;
        let hi: u16 = if hi32 <= w as u32 {
            hi32 as u16
        } else {
            w
        };
        (lo, hi)
    }

    /// Fast-path repaint: the commands that redraw every on-screen pixel of
    /// the window, touching no terminal cell outside the clipped visible
    /// rectangle.
    #[verifier::loop_isolation(false)]
    pub fn redraw(&self) -> (cmds: Vec<DrawCommand>)
        requires
            self.wf(),
        ensures
            cmds@ == self.redraw_cmds(),
    {
        proof {
            self.lemma_visible_bounds();
        }
        let h = self.height();
        let w = self.width();
        let half: u16 = h / 2 + h % 2;
        let rc = clip_axis(self.origin_y, half, self.terminal_rows);
        let cc = clip_axis(self.origin_x, w, self.terminal_columns);
        let m: u16 = cc.stop - cc.start;
        let rows_vis: u16 = rc.stop - rc.start;
        let total_pairs: u16 = h / 2;
        let avail: u16 = if total_pairs >= rc.skip {
            total_pairs - rc.skip
        } else {
            0
        };
        let n_pairs: u16 = if rows_vis <= avail {
            rows_vis
        } else {
            avail
        };
        assert(n_pairs == self.pairs_drawn());
        let mut cmds: Vec<DrawCommand> = Vec::new();
        let mut i: u16 = 0;
        while i < n_pairs
            invariant
                i <= n_pairs,
                cmds@ == self.pair_rows_cmds(i as int),
            decreases n_pairs - i,
        {
            let ghost p = self.skip_pairs() + i;
            cmds.push(DrawCommand::MoveTo { col: cc.start, row: rc.start + i });
            let pr: u16 = rc.skip + i;
            let mut j: u16 = 0;
            while j < m
                invariant
                    j <= m,
                    i < n_pairs,
                    cmds@ == self.pair_rows_cmds(i as int) + seq![
                        DrawCommand::MoveTo {
                            col: self.col_clip_start() as u16,
                            row: (self.origin_y + p) as u16,
                        },
                    ] + Seq::new(
                        j as nat,
                        |k: int|
                            DrawCommand::Print {
                                glyph: Glyph::UpperHalf,
                                fg: self.grid()[2 * p][self.skip_cols() + k],
                                bg: self.grid()[2 * p + 1][self.skip_cols() + k],
                            },
                    ),
                decreases m - j,
            {
                let col: usize = cc.skip as usize + j as usize;
                let fg = grid_get(&self.pixels, 2 * pr as usize, col);
                let bg = grid_get(&self.pixels, 2 * pr as usize + 1, col);
                cmds.push(DrawCommand::Print { glyph: Glyph::UpperHalf, fg, bg });
                proof {
                    let f = |k: int|
                        DrawCommand::Print {
                            glyph: Glyph::UpperHalf,
                            fg: self.grid()[2 * p][self.skip_cols() + k],
                            bg: self.grid()[2 * p + 1][self.skip_cols() + k],
                        };
                    assert(Seq::new((j + 1) as nat, f) =~= Seq::new(j as nat, f).push(f(j as int)));
                }
                j += 1;
            }
            proof {
                assert(cmds@ =~= self.pair_rows_cmds(i as int + 1));
            }
            i += 1;
        }
        if h % 2 == 1 {
            let ey = self.end_y();
            if ey <= self.terminal_rows {
                cmds.push(DrawCommand::MoveTo { col: cc.start, row: ey - 1 });
                let mut j: u16 = 0;
                while j < m
                    invariant
                        j <= m,
                        self.tail_drawn(),
                        cmds@ == self.pair_rows_cmds(self.pairs_drawn()) + seq![
                            DrawCommand::MoveTo {
                                col: self.col_clip_start() as u16,
                                row: (self.end_y_spec() - 1) as u16,
                            },
                        ] + Seq::new(
                            j as nat,
                            |k: int|
                                DrawCommand::Print {
                                    glyph: Glyph::UpperHalf,
                                    fg: self.grid()[self.height_spec() - 1][self.skip_cols() + k],
                                    bg: Color::Reset,
                                },
                        ),
                    decreases m - j,
                {
                    let col: usize = cc.skip as usize + j as usize;
                    let fg = grid_get(&self.pixels, (h - 1) as usize, col);
                    cmds.push(DrawCommand::Print { glyph: Glyph::UpperHalf, fg, bg: Color::Reset });
                    proof {
                        let f = |k: int|
                            DrawCommand::Print {
                                glyph: Glyph::UpperHalf,
                                fg: self.grid()[self.height_spec() - 1][self.skip_cols() + k],
                                bg: Color::Reset,
                            };
                        assert(Seq::new((j + 1) as nat, f) =~= Seq::new(j as nat, f).push(
                            f(j as int),
                        ));
                    }
                    j += 1;
                }
                proof {
                    assert(cmds@ =~= self.pair_rows_cmds(self.pairs_drawn())
                        + self.tail_row_cmds());
                }
            }
        }
        cmds.push(DrawCommand::ResetColors);
        proof {
            assert(cmds@ =~= self.redraw_cmds());
        }
        cmds
    }
}

impl Window {
    /// Width of the border caps: the window plus one cell on each side,
    /// never wider than the terminal.
    pub open spec fn cap_width(&self) -> int {
        let wide = self.width_spec() + 2;
        if wide <= self.terminal_columns as int {
            wide
        } else {
            self.terminal_columns as int
        }
    }

    /// Screen column where the border caps start: one left of the window,
    /// clamped to the screen.
    pub open spec fn cap_col(&self) -> int {
        if self.origin_x > 0 {
            self.origin_x - 1
        } else {
            0
        }
    }

    /// The cap drawn on the row just above the window, when that row is on
    /// screen: lower-half blocks, so only the cap's bottom half shows.
    pub open spec fn top_cap_cmds(&self) -> Seq<DrawCommand> {
        if self.origin_y > 0 {
            seq![
                DrawCommand::MoveTo { col: self.cap_col() as u16, row: (self.origin_y - 1) as u16 },
            ] + repeat_print(Glyph::LowerHalf, self.cap_width())
        } else {
            Seq::empty()
        }
    }

    /// A vertical border edge: a full block beside each of the first `n`
    /// visible window rows, in screen column `col`.
    pub open spec fn edge_col_cmds(&self, col: int, n: int) -> Seq<DrawCommand>
        decreases n,
    {
        if n <= 0 {
            Seq::empty()
        } else {
            self.edge_col_cmds(col, n - 1) + seq![
                DrawCommand::MoveTo { col: col as u16, row: (self.row_clip_start() + n - 1) as u16 },
                DrawCommand::Print { glyph: Glyph::Full, fg: Color::Reset, bg: Color::Reset },
            ]
        }
    }

    /// The edge left of the window, when there is a screen column for it.
    pub open spec fn left_edge_cmds(&self) -> Seq<DrawCommand> {
        if self.origin_x > 0 {
            self.edge_col_cmds(self.origin_x - 1, self.term_rows_visible())
        } else {
            Seq::empty()
        }
    }

    /// The edge right of the window, when there is a screen column for it.
    pub open spec fn right_edge_cmds(&self) -> Seq<DrawCommand> {
        if self.end_x_spec() < self.terminal_columns as int {
            self.edge_col_cmds(self.end_x_spec(), self.term_rows_visible())
        } else {
            Seq::empty()
        }
    }

    /// The cap drawn on the row just below an even-height window, when that
    /// row is on screen: upper-half blocks, closing the window's last,
    /// fully occupied terminal row.
    pub open spec fn bottom_cap_cmds(&self) -> Seq<DrawCommand> {
        if self.height_spec() % 2 == 0 && self.end_y_spec() < self.terminal_rows as int {
            seq![
                DrawCommand::MoveTo { col: self.cap_col() as u16, row: self.end_y_spec() as u16 },
            ] + repeat_print(Glyph::UpperHalf, self.cap_width())
        } else {
            Seq::empty()
        }
    }

    /// Every command of the one-cell border framing the clipped window.
    pub open spec fn border_cmds(&self) -> Seq<DrawCommand> {
        self.top_cap_cmds() + self.left_edge_cmds() + self.right_edge_cmds()
            + self.bottom_cap_cmds()
    }

    /// Every command of a full repaint: clear the screen, frame the window,
    /// paint its pixels.
    pub open spec fn redraw_all_cmds(&self) -> Seq<DrawCommand> {
        seq![DrawCommand::ClearAll] + self.border_cmds() + self.redraw_cmds()
    }

    /// Draws the one-cell border around the clipped window.  Cosmetic
    /// framing only: each cap or edge is emitted only if its terminal
    /// coordinate is on screen, and no pixel data is touched.
    #[verifier::loop_isolation(false)]
    #[verifier::rlimit(60)]
    pub fn redraw_border(&self) -> (cmds: Vec<DrawCommand>)
        requires
            self.wf(),
        ensures
            cmds@ == self.border_cmds(),
    {
        proof {
            self.lemma_visible_bounds();
        }
        let h = self.height();
        let w = self.width();
        let cap: u16 = {
            let wide: u32 = w as u32 + 2;
            if wide <= self.terminal_columns as u32 {
                wide as u16
            } else {
                self.terminal_columns
            }
        };
        let cap_col: u16 = if self.origin_x > 0 {
            (self.origin_x - 1) as u16
        } else {
            0
        };
        let mut cmds: Vec<DrawCommand> = Vec::new();
        if self.origin_y > 0 {
            cmds.push(
                DrawCommand::MoveTo { col: cap_col, row: (self.origin_y - 1) as u16 },
            );
            let mut j: u16 = 0;
            while j < cap
                invariant
                    j <= cap,
                    cmds@ == seq![
                        DrawCommand::MoveTo {
                            col: self.cap_col() as u16,
                            row: (self.origin_y - 1) as u16,
                        },
                    ] + repeat_print(Glyph::LowerHalf, j as int),
                decreases cap - j,
            {
                cmds.push(
                    DrawCommand::Print {
                        glyph: Glyph::LowerHalf,
                        fg: Color::Reset,
                        bg: Color::Reset,
                    },
                );
                proof {
                    assert(repeat_print(Glyph::LowerHalf, j + 1) =~= repeat_print(
                        Glyph::LowerHalf,
                        j as int,
                    ).push(
                        DrawCommand::Print {
                            glyph: Glyph::LowerHalf,
                            fg: Color::Reset,
                            bg: Color::Reset,
                        },
                    ));
                }
                j += 1;
            }
        }
        proof {
            assert(cmds@ =~= self.top_cap_cmds());
        }
        let half: u16 = h / 2 + h % 2;
        let rc = clip_axis(self.origin_y, half, self.terminal_rows);
        let nrows: u16 = rc.stop - rc.start;
        if self.origin_x > 0 {
            let col: u16 = (self.origin_x - 1) as u16;
            let mut y: u16 = 0;
            while y < nrows
                invariant
                    y <= nrows,
                    self.origin_x > 0,
                    cmds@ == self.top_cap_cmds() + self.edge_col_cmds(
                        self.origin_x - 1,
                        y as int,
                    ),
                decreases nrows - y,
            {
                cmds.push(DrawCommand::MoveTo { col, row: rc.start + y });
                cmds.push(
                    DrawCommand::Print { glyph: Glyph::Full, fg: Color::Reset, bg: Color::Reset },
                );
                proof {
                    assert(cmds@ =~= self.top_cap_cmds() + self.edge_col_cmds(
                        self.origin_x - 1,
                        y as int + 1,
                    ));
                }
                y += 1;
            }
        }
        proof {
            assert(cmds@ =~= self.top_cap_cmds() + self.left_edge_cmds());
        }
        let ex = self.end_x();
        if ex < self.terminal_columns {
            let mut y: u16 = 0;
            while y < nrows
                invariant
                    y <= nrows,
                    (ex as int) < self.terminal_columns as int,
                    cmds@ == self.top_cap_cmds() + self.left_edge_cmds() + self.edge_col_cmds(
                        ex as int,
                        y as int,
                    ),
                decreases nrows - y,
            {
                cmds.push(DrawCommand::MoveTo { col: ex, row: rc.start + y });
                cmds.push(
                    DrawCommand::Print { glyph: Glyph::Full, fg: Color::Reset, bg: Color::Reset },
                );
                proof {
                    assert(cmds@ =~= self.top_cap_cmds() + self.left_edge_cmds()
                        + self.edge_col_cmds(ex as int, y as int + 1));
                }
                y += 1;
            }
        }
        proof {
            assert(cmds@ =~= self.top_cap_cmds() + self.left_edge_cmds()
                + self.right_edge_cmds());
        }
        if h % 2 == 0 {
            let ey = self.end_y();
            if ey < self.terminal_rows {
                cmds.push(DrawCommand::MoveTo { col: cap_col, row: ey });
                let mut j: u16 = 0;
                while j < cap
                    invariant
                        j <= cap,
                        self.height_spec() % 2 == 0,
                        self.end_y_spec() < self.terminal_rows as int,
                        cmds@ == self.top_cap_cmds() + self.left_edge_cmds()
                            + self.right_edge_cmds() + seq![
                            DrawCommand::MoveTo {
                                col: self.cap_col() as u16,
                                row: self.end_y_spec() as u16,
                            },
                        ] + repeat_print(Glyph::UpperHalf, j as int),
                    decreases cap - j,
                {
                    cmds.push(
                        DrawCommand::Print {
                            glyph: Glyph::UpperHalf,
                            fg: Color::Reset,
                            bg: Color::Reset,
                        },
                    );
                    proof {
                        assert(repeat_print(Glyph::UpperHalf, j + 1) =~= repeat_print(
                            Glyph::UpperHalf,
                            j as int,
                        ).push(
                            DrawCommand::Print {
                                glyph: Glyph::UpperHalf,
                                fg: Color::Reset,
                                bg: Color::Reset,
                            },
                        ));
                    }
                    j += 1;
                }
            }
        }
        proof {
            assert(cmds@ =~= self.border_cmds());
        }
        cmds
    }

    /// Full repaint, used after construction and after every resize: clear
    /// the whole screen, draw the border, then paint the window.
    pub fn redraw_all(&self) -> (cmds: Vec<DrawCommand>)
        requires
            self.wf(),
        ensures
            cmds@ == self.redraw_all_cmds(),
    {
        let mut cmds: Vec<DrawCommand> = Vec::new();
        cmds.push(DrawCommand::ClearAll);
        let mut border = self.redraw_border();
        cmds.append(&mut border);
        let mut pixels = self.redraw();
        cmds.append(&mut pixels);
        proof {
            assert(cmds@ =~= self.redraw_all_cmds());
        }
        cmds
    }
}

} // verus!
