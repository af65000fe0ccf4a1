//! Draw instructions for painting a grid on a character terminal.
//!
//! Painting a grid yields a clear-screen instruction followed, for every live
//! cell in row-major order, by a cursor move and one glyph. Dead cells emit
//! nothing: the clear is what erases them. The caller translates these
//! instructions into whatever escape sequences its terminal takes.

use vstd::prelude::*;
use crate::grid::Game;

verus! {

/// The glyph painted for a live cell.
pub const LIVE_GLYPH: char = '#';

/// Which line of the idle banner to write.
#[derive(Clone, Copy, Debug, PartialEq, Eq, Structural)]
pub enum BannerLine {
    /// The program's title.
    Title,
    /// The author line.
    Author,
    /// The key-binding instructions.
    Instructions,
}

/// One drawing instruction for the terminal surface. Cursor coordinates are
/// 1-based `(column, row)`, the terminal's own addressing convention.
#[derive(Clone, Copy, Debug, PartialEq, Eq, Structural)]
pub enum DrawOp {
    /// Clear the whole screen.
    ClearAll,
    /// Move the cursor to the 1-based (column, row) position.
    Goto(u16, u16),
    /// Write one glyph at the current cursor position.
    Glyph(char),
    /// Switch to bold style.
    Bold,
    /// Reset the text style.
    ResetStyle,
    /// Hide the cursor.
    HideCursor,
    /// Write one line of the idle banner at the current cursor position.
    Text(BannerLine),
}

/// What painting one cell emits: a cursor move to the cell's 1-based screen
/// position and the live glyph if the cell is alive, nothing if it is dead.
pub open spec fn cell_ops(row: Seq<bool>, r: int, c: int) -> Seq<DrawOp> {
    if row[c] {
        seq![DrawOp::Goto((c + 1) as u16, (r + 1) as u16), DrawOp::Glyph(LIVE_GLYPH)]
    } else {
        Seq::empty()
    }
}

/// What painting the first `n` cells of row `r` emits, in column order.
pub open spec fn row_ops_upto(row: Seq<bool>, r: int, n: int) -> Seq<DrawOp>
    decreases n,
{
    if n <= 0 {
        Seq::empty()
    } else {
        row_ops_upto(row, r, n - 1) + cell_ops(row, r, n - 1)
    }
}

/// What painting the first `n` rows emits: the screen clear, then every live
/// cell of those rows in row-major order.
pub open spec fn grid_ops_upto(g: Seq<Seq<bool>>, n: int) -> Seq<DrawOp>
    decreases n,
{
    if n <= 0 {
        seq![DrawOp::ClearAll]
    } else {
        grid_ops_upto(g, n - 1) + row_ops_upto(g[n - 1], n - 1, g[n - 1].len() as int)
    }
}

/// The full sequence of draw instructions that paints a grid.
pub open spec fn paint_ops(g: Seq<Seq<bool>>) -> Seq<DrawOp> {
    grid_ops_upto(g, g.len() as int)
}

/// Painting is a function of the grid's cell values alone: two value-equal
/// grids, however they were constructed, paint as the same instruction
/// sequence.
pub proof fn lemma_paint_deterministic(a: Game, b: Game)
    requires
        a@ == b@,
    ensures
        paint_ops(a@) == paint_ops(b@),
{
}

impl Game {
    /// The draw instructions that paint this grid: a screen clear, then for
    /// every live cell in row-major order a cursor move to its 1-based
    /// screen position followed by the live glyph.
    pub fn paint_state(&self) -> (ops: Vec<DrawOp>)
        requires
            self.wf(),
        ensures
            ops@ == paint_ops(self@),
    {
        let h = self.height() as usize;
        let w = self.width() as usize;
        let mut ops: Vec<DrawOp> = Vec::new();
        ops.push(DrawOp::ClearAll);
        proof {
            assert(ops@ =~= grid_ops_upto(self@, 0));
        }
        let mut r: usize = 0;
        while r < h
            invariant
                self.wf(),
                h == self.spec_height() as usize,
                w == self.spec_width() as usize,
                r <= h,
                ops@ == grid_ops_upto(self@, r as int),
            decreases h - r,
        {
            let mut c: usize = 0;
            while c < w
                invariant
                    self.wf(),
                    h == self.spec_height() as usize,
                    w == self.spec_width() as usize,
                    r < h,
                    c <= w,
                    ops@ == grid_ops_upto(self@, r as int) + row_ops_upto(
                        self@[r as int],
                        r as int,
                        c as int,
                    ),
                decreases w - c,
            {
                if self.get(r, c) {
                    ops.push(DrawOp::Goto((c + 1) as u16, (r + 1) as u16));
                    ops.push(DrawOp::Glyph(LIVE_GLYPH));
                }
                proof {
                    assert(ops@ =~= grid_ops_upto(self@, r as int) + row_ops_upto(
                        self@[r as int],
                        r as int,
                        c as int + 1,
                    ));
                }
                c += 1;
            }
            proof {
                assert(self@[r as int].len() == w as int);
                assert(ops@ =~= grid_ops_upto(self@, r as int + 1));
            }
            r += 1;
        }
        ops
    }
}

/// The draw instructions of the idle banner for a terminal of the given
/// dimensions: the title in bold, the author line, and the key-binding
/// instructions, each centered, and the cursor hidden. The line lengths are
/// passed in by the caller, who owns the text.
pub open spec fn banner_spec(
    width: u16,
    height: u16,
    title_len: u16,
    author_len: u16,
    instructions_len: u16,
) -> Seq<DrawOp> {
    seq![
        DrawOp::ClearAll,
        DrawOp::Bold,
        DrawOp::Goto(((width - title_len) / 2) as u16, (height / 2 - 2) as u16),
        DrawOp::Text(BannerLine::Title),
        DrawOp::ResetStyle,
        DrawOp::Goto(((width - author_len) / 2) as u16, (height / 2) as u16),
        DrawOp::Text(BannerLine::Author),
        DrawOp::Goto(((width - instructions_len) / 2) as u16, (height / 2 + 2) as u16),
        DrawOp::Text(BannerLine::Instructions),
        DrawOp::HideCursor,
    ]
}

/// The idle banner's draw instructions; see [`banner_spec`] for the layout.
/// The dimension bounds keep every centered line on the screen.
pub fn banner_ops(
    width: u16,
    height: u16,
    title_len: u16,
    author_len: u16,
    instructions_len: u16,
) -> (ops: Vec<DrawOp>)
    requires
        title_len <= width,
        author_len <= width,
        instructions_len <= width,
        height / 2 >= 2,
    ensures
        ops@ == banner_spec(width, height, title_len, author_len, instructions_len),
{
    let mut ops: Vec<DrawOp> = Vec::new();
    ops.push(DrawOp::ClearAll);
    ops.push(DrawOp::Bold);
    ops.push(DrawOp::Goto((width - title_len) / 2, height / 2 - 2));
    ops.push(DrawOp::Text(BannerLine::Title));
    ops.push(DrawOp::ResetStyle);
    ops.push(DrawOp::Goto((width - author_len) / 2, height / 2));
    ops.push(DrawOp::Text(BannerLine::Author));
    ops.push(DrawOp::Goto((width - instructions_len) / 2, height / 2 + 2));
    ops.push(DrawOp::Text(BannerLine::Instructions));
    ops.push(DrawOp::HideCursor);
    proof {
        assert(ops@ =~= banner_spec(width, height, title_len, author_len, instructions_len));
    }
    ops
}

} // verus!
