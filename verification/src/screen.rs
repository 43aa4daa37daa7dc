//! Emulated terminal screen.
//!
//! A `Screen` holds the visible grid of styled cells, a bounded scrollback of
//! lines that were pushed off the top, the cursor, and the view offset used
//! when the operator scrolls into history. Bytes written by the child process
//! are fed through a small escape-sequence interpreter; reading (rendering,
//! copy-mode extraction) never mutates the screen. The mathematical model of
//! a screen is [`ScreenView`]; every contract speaks of `self@`.

use vstd::pervasive::VecAdditionalExecFns;
use vstd::prelude::*;

use crate::text::push_char;

verus! {

/// Rendering attributes of one cell. Colors are palette indices where `0`
/// means the terminal's default color and `1..=8` are the base palette.
#[derive(Clone, Copy, Debug, PartialEq, Eq, Structural)]
pub struct CellStyle {
    pub fg: u8,
    pub bg: u8,
    pub bold: bool,
    pub underline: bool,
}

/// One character cell of the grid.
#[derive(Clone, Copy, Debug, PartialEq, Eq, Structural)]
pub struct Cell {
    pub ch: char,
    pub style: CellStyle,
}

/// Phase of the escape-sequence interpreter between bytes.
#[derive(Clone, Copy, Debug, PartialEq, Eq, Structural)]
pub enum EscPhase {
    /// Plain text.
    Ground,
    /// Right after an escape byte.
    Esc,
    /// Inside a control sequence, accumulating parameters.
    Csi,
}

/// The style with everything reset.
pub open spec fn plain_style() -> CellStyle {
    CellStyle { fg: 0, bg: 0, bold: false, underline: false }
}

/// An empty cell.
pub open spec fn blank_cell() -> Cell {
    Cell { ch: ' ', style: plain_style() }
}

/// Mathematical model of a screen.
#[verifier::ext_equal]
pub struct ScreenView {
    pub rows: int,
    pub cols: int,
    pub grid: Seq<Seq<Cell>>,
    pub scrollback: Seq<Seq<Cell>>,
    pub max_scrollback: int,
    pub cur_row: int,
    pub cur_col: int,
    pub offset: int,
    pub style: CellStyle,
    pub phase: EscPhase,
    pub csi_params: Seq<u16>,
    pub csi_cur: u16,
    pub csi_any: bool,
    /// A private (question-mark) control sequence is being read.
    pub csi_priv: bool,
    /// The child asked for mouse reporting.
    pub mouse_on: bool,
    /// The child asked for the extended mouse-report encoding.
    pub mouse_sgr: bool,
}

impl ScreenView {
    /// Structural invariant of a screen.
    pub open spec fn wf(self) -> bool {
        &&& 1 <= self.rows <= 0xffff
        &&& 1 <= self.cols <= 0xffff
        &&& self.max_scrollback <= 100000
        &&& self.grid.len() == self.rows
        &&& (forall|i: int| 0 <= i < self.grid.len() ==> (#[trigger] self.grid[i]).len() == self.cols)
        &&& 0 <= self.cur_row < self.rows
        &&& 0 <= self.cur_col < self.cols
        &&& 0 <= self.offset <= self.scrollback.len()
        &&& self.scrollback.len() <= self.max_scrollback
    }

    /// Cells of the line at `y`, where `0 <= y < rows` is the live grid and
    /// `-scrollback_len <= y < 0` walks up into history; history lines are
    /// padded or cut to the current width.
    pub open spec fn line_cells(self, y: int) -> Seq<Cell> {
        if y < 0 {
            pad_cells(self.scrollback[self.scrollback.len() + y], self.cols)
        } else {
            self.grid[y]
        }
    }

    /// Characters of the line at `y`.
    pub open spec fn line_chars(self, y: int) -> Seq<char> {
        self.line_cells(y).map_values(|c: Cell| c.ch)
    }

    /// Cells shown in visible row `y` once the view offset is applied.
    pub open spec fn display_cells(self, y: int) -> Seq<Cell> {
        self.line_cells(y - self.offset)
    }

    /// Text of the inclusive span from `(x0, y0)` to `(x1, y1)`: the first
    /// line from `x0`, the last line up to `x1`, full lines in between, with
    /// one newline between lines.
    pub open spec fn sel_text(self, x0: int, y0: int, x1: int, y1: int) -> Seq<char>
        decreases y1 - y0,
    {
        if y0 == y1 {
            self.line_chars(y0).subrange(x0, x1 + 1)
        } else if y0 < y1 {
            self.line_chars(y0).subrange(x0, self.cols) + seq!['\n'] + self.sel_text(
                0,
                y0 + 1,
                x1,
                y1,
            )
        } else {
            Seq::empty()
        }
    }
}

/// A visible dimension clamped into `[1, 0xffff]`.
pub open spec fn clamp_dim(n: usize) -> int {
    if n < 1 {
        1
    } else if n > 0xffff {
        0xffff
    } else {
        n as int
    }
}

/// A scrollback bound clamped to at most 100000 lines.
pub open spec fn clamp_hist(n: usize) -> int {
    if n > 100000 {
        100000
    } else {
        n as int
    }
}

/// The parts of a screen that feeding bytes never changes: geometry and the
/// operator's view offset.
pub open spec fn same_frame(a: ScreenView, b: ScreenView) -> bool {
    &&& b.rows == a.rows
    &&& b.cols == a.cols
    &&& b.max_scrollback == a.max_scrollback
    &&& b.offset == a.offset
}

/// `s` padded with blank cells, or cut, to exactly `cols` cells.
pub open spec fn pad_cells(s: Seq<Cell>, cols: int) -> Seq<Cell> {
    if s.len() >= cols {
        s.take(cols)
    } else {
        s + Seq::new((cols - s.len()) as nat, |i: int| blank_cell())
    }
}


/// A line of `cols` blank cells, as a sequence.
pub open spec fn blank_line(cols: int) -> Seq<Cell> {
    Seq::new(cols as nat, |i: int| blank_cell())
}

/// Columns `[from, to)` of a line blanked.
pub open spec fn clear_range(row: Seq<Cell>, from: int, to: int) -> Seq<Cell> {
    Seq::new(
        row.len(),
        |i: int|
            if from <= i < to {
                blank_cell()
            } else {
                row[i]
            },
    )
}

/// The scrollback after one line joins it, evicting the oldest line at the
/// bound.
pub open spec fn push_hist_spec(sb: Seq<Seq<Cell>>, max: int, line: Seq<Cell>) -> Seq<Seq<Cell>> {
    if max == 0 {
        sb
    } else if sb.len() == max {
        sb.drop_first().push(line)
    } else {
        sb.push(line)
    }
}

/// Relates a screen before and after a resize to `rows` by `cols`: the cut
/// top lines join the history when shrinking, history lines come back when
/// growing, kept lines are padded or cut to the new width, and the cursor
/// and view offset are clamped.
pub open spec fn resized_view(a: ScreenView, b: ScreenView, rows: usize, cols: usize) -> bool {
    &&& b.rows == clamp_dim(rows)
    &&& b.cols == clamp_dim(cols)
    &&& b.max_scrollback == a.max_scrollback
    &&& b.style == a.style
    &&& b.phase == a.phase
    &&& (clamp_dim(rows) <= a.rows ==> {
        let cut = a.rows - clamp_dim(rows);
        &&& b.scrollback == pushed_hist(a.scrollback, a.max_scrollback, a.grid, 0, cut)
        &&& b.grid == a.grid.subrange(cut, a.rows).map_values(
            |row: Seq<Cell>| pad_cells(row, clamp_dim(cols)),
        )
        &&& b.cur_row == if a.cur_row >= cut {
            a.cur_row - cut
        } else {
            0int
        }
    })
    &&& (clamp_dim(rows) > a.rows ==> {
        let pull = if clamp_dim(rows) - a.rows <= a.scrollback.len() {
            clamp_dim(rows) - a.rows
        } else {
            a.scrollback.len() as int
        };
        &&& b.scrollback == a.scrollback.take(a.scrollback.len() - pull)
        &&& b.grid == a.scrollback.skip(a.scrollback.len() - pull).map_values(
            |row: Seq<Cell>| pad_cells(row, clamp_dim(cols)),
        ) + a.grid.map_values(|row: Seq<Cell>| pad_cells(row, clamp_dim(cols))) + Seq::new(
            (clamp_dim(rows) - pull - a.rows) as nat,
            |i: int| blank_line(clamp_dim(cols)),
        )
        &&& b.cur_row == a.cur_row + pull
    })
    &&& b.cur_col == if a.cur_col < clamp_dim(cols) {
        a.cur_col
    } else {
        clamp_dim(cols) - 1
    }
    &&& b.offset == if a.offset <= b.scrollback.len() {
        a.offset
    } else {
        b.scrollback.len() as int
    }
}

/// The scrollback after the grid lines `[i, cut)` joined it in order.
pub open spec fn pushed_hist(
    sb: Seq<Seq<Cell>>,
    max: int,
    grid: Seq<Seq<Cell>>,
    i: int,
    cut: int,
) -> Seq<Seq<Cell>>
    decreases cut - i,
{
    if i >= cut {
        sb
    } else {
        pushed_hist(push_hist_spec(sb, max, grid[i]), max, grid, i + 1, cut)
    }
}

/// One line feed: move down, or scroll the grid pushing the top line into
/// history.
pub open spec fn lf_spec(v: ScreenView) -> ScreenView {
    if v.cur_row + 1 < v.rows {
        ScreenView { cur_row: v.cur_row + 1, ..v }
    } else {
        ScreenView {
            grid: v.grid.subrange(1, v.grid.len() as int).push(blank_line(v.cols)),
            scrollback: push_hist_spec(v.scrollback, v.max_scrollback, v.grid[0]),
            ..v
        }
    }
}

/// One printable character written at the cursor in the current style,
/// advancing and wrapping at the right edge.
pub open spec fn put_spec(v: ScreenView, ch: char) -> ScreenView {
    let w = ScreenView {
        grid: v.grid.update(
            v.cur_row,
            v.grid[v.cur_row].update(v.cur_col, Cell { ch, style: v.style }),
        ),
        ..v
    };
    if v.cur_col + 1 < v.cols {
        ScreenView { cur_col: v.cur_col + 1, ..w }
    } else {
        lf_spec(ScreenView { cur_col: 0, ..w })
    }
}

/// Parameter `i` of a control sequence, with `dflt` for missing or zero.
pub open spec fn param_or_spec(params: Seq<u16>, i: int, dflt: u16) -> u16 {
    if 0 <= i < params.len() && params[i] != 0 {
        params[i]
    } else {
        dflt
    }
}

/// Grid row `r` blanked in columns `[from, to)`.
pub open spec fn clear_row_spec(v: ScreenView, r: int, from: int, to: int) -> ScreenView {
    ScreenView { grid: v.grid.update(r, clear_range(v.grid[r], from, to)), ..v }
}

/// Grid rows `[from, to)` blanked whole.
pub open spec fn clear_rows_spec(v: ScreenView, from: int, to: int) -> ScreenView
    decreases to - from,
{
    if from >= to {
        v
    } else {
        clear_rows_spec(clear_row_spec(v, from, 0, v.cols), from + 1, to)
    }
}

/// Graphic-rendition parameters applied in order.
pub open spec fn sgr_fold(s: CellStyle, params: Seq<u16>) -> CellStyle
    decreases params.len(),
{
    if params.len() == 0 {
        s
    } else {
        sgr_fold(sgr_spec(s, params[0]), params.drop_first())
    }
}

/// One finished control sequence executed against the screen: cursor moves
/// and positioning, erase in display and line, graphic rendition; anything
/// else is ignored.
pub open spec fn csi_spec(v: ScreenView, cmd: u8) -> ScreenView {
    if cmd == 0x41 {
        let n = param_or_spec(v.csi_params, 0, 1) as int;
        ScreenView {
            cur_row: if n <= v.cur_row {
                v.cur_row - n
            } else {
                0
            },
            ..v
        }
    } else if cmd == 0x42 {
        let n = param_or_spec(v.csi_params, 0, 1) as int;
        ScreenView {
            cur_row: if n <= v.rows - 1 - v.cur_row {
                v.cur_row + n
            } else {
                v.rows - 1
            },
            ..v
        }
    } else if cmd == 0x43 {
        let n = param_or_spec(v.csi_params, 0, 1) as int;
        ScreenView {
            cur_col: if n <= v.cols - 1 - v.cur_col {
                v.cur_col + n
            } else {
                v.cols - 1
            },
            ..v
        }
    } else if cmd == 0x44 {
        let n = param_or_spec(v.csi_params, 0, 1) as int;
        ScreenView {
            cur_col: if n <= v.cur_col {
                v.cur_col - n
            } else {
                0
            },
            ..v
        }
    } else if cmd == 0x48 || cmd == 0x66 {
        let r = param_or_spec(v.csi_params, 0, 1) as int;
        let c = param_or_spec(v.csi_params, 1, 1) as int;
        let r0 = if r >= 1 {
            r - 1
        } else {
            0
        };
        let c0 = if c >= 1 {
            c - 1
        } else {
            0
        };
        ScreenView {
            cur_row: if r0 < v.rows {
                r0
            } else {
                v.rows - 1
            },
            cur_col: if c0 < v.cols {
                c0
            } else {
                v.cols - 1
            },
            ..v
        }
    } else if cmd == 0x4a {
        let m = param_or_spec(v.csi_params, 0, 0);
        if m == 0 {
            clear_rows_spec(
                clear_row_spec(v, v.cur_row, v.cur_col, v.cols),
                v.cur_row + 1,
                v.rows,
            )
        } else if m == 1 {
            clear_row_spec(clear_rows_spec(v, 0, v.cur_row), v.cur_row, 0, v.cur_col + 1)
        } else if m == 2 {
            clear_rows_spec(v, 0, v.rows)
        } else {
            v
        }
    } else if cmd == 0x4b {
        let m = param_or_spec(v.csi_params, 0, 0);
        if m == 0 {
            clear_row_spec(v, v.cur_row, v.cur_col, v.cols)
        } else if m == 1 {
            clear_row_spec(v, v.cur_row, 0, v.cur_col + 1)
        } else if m == 2 {
            clear_row_spec(v, v.cur_row, 0, v.cols)
        } else {
            v
        }
    } else if cmd == 0x6d {
        ScreenView { style: sgr_fold(v.style, v.csi_params), ..v }
    } else if (cmd == 0x68 || cmd == 0x6c) && v.csi_priv {
        let p = param_or_spec(v.csi_params, 0, 0);
        if p == 1000 || p == 1002 || p == 1003 {
            ScreenView { mouse_on: cmd == 0x68, ..v }
        } else if p == 1006 {
            ScreenView { mouse_sgr: cmd == 0x68, ..v }
        } else {
            v
        }
    } else {
        v
    }
}

/// One byte of child output interpreted against the screen: printable text,
/// carriage return, line feed, backspace, tab, and escape sequences.
pub open spec fn step_spec(v: ScreenView, b: u8) -> ScreenView {
    match v.phase {
        EscPhase::Ground => {
            if b == 0x1b {
                ScreenView { phase: EscPhase::Esc, ..v }
            } else if b == 0x0a {
                lf_spec(v)
            } else if b == 0x0d {
                ScreenView { cur_col: 0, ..v }
            } else if b == 0x08 {
                ScreenView {
                    cur_col: if v.cur_col > 0 {
                        v.cur_col - 1
                    } else {
                        v.cur_col
                    },
                    ..v
                }
            } else if b == 0x09 {
                let rem = 8 - (v.cur_col % 8);
                ScreenView {
                    cur_col: if rem <= v.cols - 1 - v.cur_col {
                        v.cur_col + rem
                    } else {
                        v.cols - 1
                    },
                    ..v
                }
            } else if 0x20 <= b && b <= 0x7e {
                put_spec(v, b as char)
            } else {
                v
            }
        },
        EscPhase::Esc => {
            if b == 0x5b {
                ScreenView {
                    phase: EscPhase::Csi,
                    csi_params: Seq::empty(),
                    csi_cur: 0u16,
                    csi_any: false,
                    csi_priv: false,
                    ..v
                }
            } else {
                ScreenView { phase: EscPhase::Ground, ..v }
            }
        },
        EscPhase::Csi => {
            if 0x30 <= b && b <= 0x39 {
                let d = (b - 0x30) as u16;
                ScreenView {
                    csi_cur: if v.csi_cur <= 999 {
                        (v.csi_cur * 10 + d) as u16
                    } else {
                        v.csi_cur
                    },
                    csi_any: true,
                    ..v
                }
            } else if b == 0x3b {
                ScreenView {
                    csi_params: v.csi_params.push(v.csi_cur),
                    csi_cur: 0u16,
                    csi_any: false,
                    ..v
                }
            } else if 0x40 <= b && b <= 0x7e {
                ScreenView {
                    phase: EscPhase::Ground,
                    csi_params: Seq::empty(),
                    csi_cur: 0u16,
                    csi_any: false,
                    csi_priv: false,
                    ..csi_spec(ScreenView { csi_params: v.csi_params.push(v.csi_cur), ..v }, b)
                }
            } else if b == 0x3f {
                ScreenView { csi_priv: true, ..v }
            } else if b < 0x20 || b > 0x3f {
                ScreenView { phase: EscPhase::Ground, ..v }
            } else {
                v
            }
        },
    }
}

/// A whole chunk of child output interpreted byte by byte.
pub open spec fn feed_spec(v: ScreenView, bytes: Seq<u8>) -> ScreenView
    decreases bytes.len(),
{
    if bytes.len() == 0 {
        v
    } else {
        feed_spec(step_spec(v, bytes[0]), bytes.drop_first())
    }
}

/// The emulated screen.
pub struct Screen {
    /// Visible height in rows; at least 1.
    pub rows: usize,
    /// Visible width in columns; at least 1.
    pub cols: usize,
    /// Visible grid: `rows` lines of `cols` cells each.
    pub grid: Vec<Vec<Cell>>,
    /// Lines pushed off the top, oldest first. Lines keep the width they had
    /// when they left the grid; readers pad or cut them to `cols`.
    pub scrollback: Vec<Vec<Cell>>,
    /// Upper bound kept on `scrollback`.
    pub max_scrollback: usize,
    /// Cursor position inside the grid.
    pub cur_row: usize,
    pub cur_col: usize,
    /// How many lines of history the view is scrolled up by.
    pub offset: usize,
    /// Style applied to newly written cells.
    pub style: CellStyle,
    /// Escape-sequence interpreter phase.
    pub phase: EscPhase,
    /// Finished control-sequence parameters.
    pub csi_params: Vec<u16>,
    /// The parameter currently being accumulated and whether any digit of it
    /// was seen.
    pub csi_cur: u16,
    pub csi_any: bool,
    /// A private (question-mark) control sequence is being read.
    pub csi_priv: bool,
    /// Mouse-reporting modes the child switched on.
    pub mouse_on: bool,
    pub mouse_sgr: bool,
}

impl View for Screen {
    type V = ScreenView;

    open spec fn view(&self) -> ScreenView {
        ScreenView {
            rows: self.rows as int,
            cols: self.cols as int,
            grid: self.grid@.map_values(|r: Vec<Cell>| r@),
            scrollback: self.scrollback@.map_values(|r: Vec<Cell>| r@),
            max_scrollback: self.max_scrollback as int,
            cur_row: self.cur_row as int,
            cur_col: self.cur_col as int,
            offset: self.offset as int,
            style: self.style,
            phase: self.phase,
            csi_params: self.csi_params@,
            csi_cur: self.csi_cur,
            csi_any: self.csi_any,
            csi_priv: self.csi_priv,
            mouse_on: self.mouse_on,
            mouse_sgr: self.mouse_sgr,
        }
    }
}

impl Screen {
    /// How many lines of history are retained.
    pub fn scrollback_len(&self) -> (n: usize)
        ensures
            n == self@.scrollback.len(),
    {
        self.scrollback.len()
    }

    /// Visible size as `(rows, cols)`.
    pub fn size(&self) -> (s: (usize, usize))
        ensures
            s.0 == self@.rows,
            s.1 == self@.cols,
    {
        (self.rows, self.cols)
    }

    /// A fresh blank screen of the given size; sizes are raised to at least 1.
    pub fn new(rows: usize, cols: usize, max_scrollback: usize) -> (s: Screen)
        ensures
            s@.wf(),
            s@.rows == clamp_dim(rows),
            s@.cols == clamp_dim(cols),
            s@.scrollback.len() == 0,
            s@.max_scrollback == clamp_hist(max_scrollback),
            s@.offset == 0,
            s@.cur_row == 0,
            s@.cur_col == 0,
            forall|y: int, x: int|
                0 <= y < s@.rows && 0 <= x < s@.cols ==> s@.grid[y][x] == blank_cell(),
    {
        let r = if rows < 1 {
            1
        } else if rows > 0xffff {
            0xffff
        } else {
            rows
        };
        let c = if cols < 1 {
            1
        } else if cols > 0xffff {
            0xffff
        } else {
            cols
        };
        let msb = if max_scrollback > 100000 {
            100000
        } else {
            max_scrollback
        };
        let mut grid: Vec<Vec<Cell>> = Vec::new();
        let mut y: usize = 0;
        while y < r
            invariant
                y <= r,
                grid.len() == y,
                forall|i: int| 0 <= i < y ==> (#[trigger] grid[i]).len() == c,
                forall|i: int, x: int| 0 <= i < y && 0 <= x < c ==> grid[i][x] == blank_cell(),
            decreases r - y,
        {
            grid.push(blank_row(c));
            y += 1;
        }
        Screen {
            rows: r,
            cols: c,
            grid,
            scrollback: Vec::new(),
            max_scrollback: msb,
            cur_row: 0,
            cur_col: 0,
            offset: 0,
            style: CellStyle { fg: 0, bg: 0, bold: false, underline: false },
            phase: EscPhase::Ground,
            csi_params: Vec::new(),
            csi_cur: 0,
            csi_any: false,
            csi_priv: false,
            mouse_on: false,
            mouse_sgr: false,
        }
    }

    /// An independent copy of this screen, used to freeze the display for
    /// copy mode.
    pub fn snapshot(&self) -> (s: Screen)
        ensures
            s@ == self@,
    {
        let s = Screen {
            grid: copy_lines(&self.grid),
            scrollback: copy_lines(&self.scrollback),
            csi_params: copy_params(&self.csi_params),
            ..*self
        };
        proof {
            assert(s@ =~~= self@);
        }
        s
    }

    /// Scrolls the view `n` lines further into history, clamped to what the
    /// scrollback holds. Never touches the grid.
    pub fn scroll_up_view(&mut self, n: usize)
        requires
            old(self)@.wf(),
        ensures
            final(self)@.wf(),
            *final(self) == (Screen {
                offset: if old(self)@.offset + n <= old(self)@.scrollback.len() {
                    (old(self).offset + n) as usize
                } else {
                    old(self).scrollback.len() as usize
                },
                ..*old(self)
            }),
    {
        let room = self.scrollback.len() - self.offset;
        if n <= room {
            self.offset = self.offset + n;
        } else {
            self.offset = self.scrollback.len();
        }
    }

    /// Scrolls the view `n` lines back toward the live grid, clamped at 0.
    pub fn scroll_down_view(&mut self, n: usize)
        requires
            old(self)@.wf(),
        ensures
            final(self)@.wf(),
            *final(self) == (Screen {
                offset: if n <= old(self)@.offset {
                    (old(self).offset - n) as usize
                } else {
                    0usize
                },
                ..*old(self)
            }),
    {
        if n <= self.offset {
            self.offset = self.offset - n;
        } else {
            self.offset = 0;
        }
    }

    /// The visible row `y` of the current view, for rendering.
    pub fn display_row(&self, y: usize) -> (r: Vec<Cell>)
        requires
            self@.wf(),
            y < self@.rows,
        ensures
            r@ == self@.display_cells(y as int),
            r@.len() == self@.cols,
    {
        let mut r: Vec<Cell> = Vec::new();
        if y < self.offset {
            let idx = self.scrollback.len() - self.offset + y;
            let mut x: usize = 0;
            while x < self.cols
                invariant
                    x <= self.cols,
                    r.len() == x,
                    idx < self.scrollback.len(),
                    forall|i: int|
                        0 <= i < x ==> r[i] == pad_cells(
                            self@.scrollback[idx as int],
                            self@.cols,
                        )[i],
                decreases self.cols - x,
            {
                if x < self.scrollback[idx].len() {
                    let cell = self.scrollback[idx][x];
                    r.push(cell);
                } else {
                    r.push(Cell {
                        ch: ' ',
                        style: CellStyle { fg: 0, bg: 0, bold: false, underline: false },
                    });
                }
                x += 1;
            }
            proof {
                assert(r@ =~= pad_cells(self@.scrollback[idx as int], self@.cols));
                assert(y - self@.offset < 0);
                assert(self@.scrollback.len() + (y - self@.offset) == idx);
            }
        } else {
            let gi = y - self.offset;
            let mut x: usize = 0;
            while x < self.cols
                invariant
                    self@.wf(),
                    x <= self.cols,
                    r.len() == x,
                    gi == y - self.offset,
                    gi < self.grid.len(),
                    forall|i: int| 0 <= i < x ==> r[i] == self@.grid[gi as int][i],
                decreases self.cols - x,
            {
                proof {
                    wf_grid_lens(*self);
                    grid_view_facts(*self);
                }
                let cell = self.grid[gi][x];
                r.push(cell);
                x += 1;
            }
            proof {
                assert(r@ =~= self@.grid[y as int - self@.offset]);
                assert(y as int - self@.offset >= 0);
            }
        }
        r
    }

    /// Character at column `x` of the line addressed by `y` (history for
    /// negative `y`).
    fn char_at(&self, y: i32, x: usize) -> (c: char)
        requires
            self@.wf(),
            -(self@.scrollback.len() as int) <= y as int,
            (y as int) < self@.rows,
            x < self@.cols,
        ensures
            c == self@.line_chars(y as int)[x as int],
    {
        if y < 0 {
            let yi: i64 = y as i64;
            let neg64: i64 = -yi;
            proof {
                assert(neg64 as int == -(y as int));
                assert(1 <= neg64 as int <= self@.scrollback.len());
                assert(self.scrollback@.len() == self@.scrollback.len());
            }
            proof {
                grid_view_facts(*self);
            }
            let neg: usize = neg64 as usize;
            let idx = self.scrollback.len() - neg;
            if x < self.scrollback[idx].len() {
                self.scrollback[idx][x].ch
            } else {
                ' '
            }
        } else {
            proof {
                wf_grid_lens(*self);
                grid_view_facts(*self);
            }
            self.grid[y as usize][x].ch
        }
    }

    /// Extracts the text of the span between the two points, which must be
    /// given in reading order (top to bottom, then left to right). Negative
    /// rows address scrollback; row 0 is the top of the visible grid.
    pub fn get_selected_text(&self, x0: i32, y0: i32, x1: i32, y1: i32) -> (r: String)
        requires
            self@.wf(),
            -(self@.scrollback.len() as int) <= y0 as int,
            y0 <= y1,
            (y1 as int) < self@.rows,
            0 <= x0 as int,
            (x0 as int) < self@.cols,
            0 <= x1 as int,
            (x1 as int) < self@.cols,
            y0 == y1 ==> x0 <= x1,
        ensures
            r@ == self@.sel_text(x0 as int, y0 as int, x1 as int, y1 as int),
    {
        let mut s = String::new();
        let mut y: i32 = y0;
        let mut from: usize = x0 as usize;
        while y < y1
            invariant
                self@.wf(),
                y0 <= y <= y1,
                (y1 as int) < self@.rows,
                -(self@.scrollback.len() as int) <= y0 as int,
                0 <= x1 as int,
                (x1 as int) < self@.cols,
                from < self.cols,
                if y == y0 {
                    from == x0 as usize
                } else {
                    from == 0
                },
                s@ + self@.sel_text(from as int, y as int, x1 as int, y1 as int) == self@.sel_text(
                    x0 as int,
                    y0 as int,
                    x1 as int,
                    y1 as int,
                ),
            decreases y1 - y,
        {
            self.push_row_chars(&mut s, y, from, self.cols);
            push_char(&mut s, '\n');
            proof {
                assert(s@ + self@.sel_text(0, y as int + 1, x1 as int, y1 as int)
                    =~= self@.sel_text(x0 as int, y0 as int, x1 as int, y1 as int));
            }
            y += 1;
            from = 0;
        }
        self.push_row_chars(&mut s, y, from, (x1 as usize) + 1);
        proof {
            assert(s@ =~= self@.sel_text(x0 as int, y0 as int, x1 as int, y1 as int));
        }
        s
    }

    /// Appends columns `[from, to)` of line `y` to `s`.
    fn push_row_chars(&self, s: &mut String, y: i32, from: usize, to: usize)
        requires
            self@.wf(),
            -(self@.scrollback.len() as int) <= y as int,
            (y as int) < self@.rows,
            from <= to <= self.cols,
        ensures
            final(s)@ == old(s)@ + self@.line_chars(y as int).subrange(from as int, to as int),
    {
        let mut x: usize = from;
        while x < to
            invariant
                self@.wf(),
                -(self@.scrollback.len() as int) <= y as int,
                (y as int) < self@.rows,
                from <= x <= to <= self.cols,
                s@ == old(s)@ + self@.line_chars(y as int).subrange(from as int, x as int),
            decreases to - x,
        {
            let c = self.char_at(y, x);
            push_char(s, c);
            proof {
                assert(s@ =~= old(s)@ + self@.line_chars(y as int).subrange(
                    from as int,
                    x as int + 1,
                ));
            }
            x += 1;
        }
        proof {
            assert(old(s)@ + self@.line_chars(y as int).subrange(from as int, from as int) =~= old(
                s,
            )@);
        }
    }

    /// Feeds one chunk of output from the child through the emulator.
    /// The geometry and the operator's view offset are untouched; history
    /// only ever grows (up to its bound).
    pub fn feed(&mut self, bytes: &[u8])
        requires
            old(self)@.wf(),
        ensures
            final(self)@.wf(),
            final(self)@ == feed_spec(old(self)@, bytes@),
            same_frame(old(self)@, final(self)@),
            final(self)@.scrollback.len() >= old(self)@.scrollback.len(),
    {
        proof {
            assert(bytes@.skip(0) =~= bytes@);
        }
        let mut i: usize = 0;
        while i < bytes.len()
            invariant
                self@.wf(),
                i <= bytes@.len(),
                feed_spec(old(self)@, bytes@) == feed_spec(self@, bytes@.skip(i as int)),
                same_frame(old(self)@, self@),
                self@.scrollback.len() >= old(self)@.scrollback.len(),
            decreases bytes.len() - i,
        {
            proof {
                assert(bytes@.skip(i as int)[0] == bytes@[i as int]);
                assert(bytes@.skip(i as int).drop_first() =~= bytes@.skip(i as int + 1));
            }
            self.feed_byte(bytes[i]);
            i += 1;
        }
        proof {
            assert(bytes@.skip(bytes@.len() as int) =~= Seq::<u8>::empty());
        }
    }

    /// Feeds a single byte through the emulator.
    fn feed_byte(&mut self, b: u8)
        requires
            old(self)@.wf(),
        ensures
            final(self)@.wf(),
            final(self)@ == step_spec(old(self)@, b),
            same_frame(old(self)@, final(self)@),
            final(self)@.scrollback.len() >= old(self)@.scrollback.len(),
    {
        match self.phase {
            EscPhase::Ground => {
                if b == 0x1b {
                    self.phase = EscPhase::Esc;
                } else if b == 0x0a {
                    self.line_feed();
                } else if b == 0x0d {
                    self.cur_col = 0;
                } else if b == 0x08 {
                    if self.cur_col > 0 {
                        self.cur_col = self.cur_col - 1;
                    }
                } else if b == 0x09 {
                    let rem = 8 - (self.cur_col % 8);
                    if rem <= self.cols - 1 - self.cur_col {
                        self.cur_col = self.cur_col + rem;
                    } else {
                        self.cur_col = self.cols - 1;
                    }
                } else if 0x20 <= b && b <= 0x7e {
                    self.put_char(b as char);
                }
            },
            EscPhase::Esc => {
                if b == 0x5b {
                    self.phase = EscPhase::Csi;
                    self.csi_params = Vec::new();
                    self.csi_cur = 0;
                    self.csi_any = false;
                    self.csi_priv = false;
                } else {
                    self.phase = EscPhase::Ground;
                }
            },
            EscPhase::Csi => {
                if 0x30 <= b && b <= 0x39 {
                    let d = (b - 0x30) as u16;
                    if self.csi_cur <= 999 {
                        self.csi_cur = self.csi_cur * 10 + d;
                    }
                    self.csi_any = true;
                } else if b == 0x3b {
                    let cur = self.csi_cur;
                    self.csi_params.push(cur);
                    self.csi_cur = 0;
                    self.csi_any = false;
                } else if 0x40 <= b && b <= 0x7e {
                    let cur = self.csi_cur;
                    self.csi_params.push(cur);
                    proof {
                        assert(self@ =~~= (ScreenView {
                            csi_params: old(self)@.csi_params.push(old(self)@.csi_cur),
                            ..old(self)@
                        }));
                    }
                    self.csi_dispatch(b);
                    self.phase = EscPhase::Ground;
                    self.csi_params = Vec::new();
                    self.csi_cur = 0;
                    self.csi_any = false;
                    self.csi_priv = false;
                    proof {
                        assert(self@ =~~= step_spec(old(self)@, b));
                    }
                } else if b == 0x3f {
                    self.csi_priv = true;
                } else if b < 0x20 || b > 0x3f {
                    self.phase = EscPhase::Ground;
                }
            },
        }
        proof {
            assert(self@ =~~= step_spec(old(self)@, b));
        }
    }

    /// Writes a printable character at the cursor and advances it, wrapping
    /// at the right edge.
    fn put_char(&mut self, ch: char)
        requires
            old(self)@.wf(),
        ensures
            final(self)@.wf(),
            final(self)@ == put_spec(old(self)@, ch),
            same_frame(old(self)@, final(self)@),
            final(self)@.scrollback.len() >= old(self)@.scrollback.len(),
    {
        let cell = Cell { ch, style: self.style };
        proof {
            wf_grid_lens(*self);
            grid_view_facts(*self);
        }
        let row = row_with(&self.grid[self.cur_row], self.cur_col, cell);
        let r = self.cur_row;
        self.grid.set(r, row);
        proof {
            grid_view_facts(*self);
            assert(self@.grid =~= old(self)@.grid.update(r as int, self.grid@[r as int]@));
            assert(self.grid@[r as int]@.len() == old(self)@.cols);
        }
        proof {
            assert(self@.grid[old(self)@.cur_row] =~= old(self)@.grid[old(self)@.cur_row].update(
                old(self)@.cur_col,
                Cell { ch, style: old(self)@.style },
            ));
        }
        if self.cur_col + 1 < self.cols {
            self.cur_col = self.cur_col + 1;
            proof {
                assert(self@ =~~= put_spec(old(self)@, ch));
            }
        } else {
            self.cur_col = 0;
            proof {
                assert(self@ =~~= (ScreenView {
                    cur_col: 0,
                    grid: old(self)@.grid.update(
                        old(self)@.cur_row,
                        old(self)@.grid[old(self)@.cur_row].update(
                            old(self)@.cur_col,
                            Cell { ch, style: old(self)@.style },
                        ),
                    ),
                    ..old(self)@
                }));
            }
            self.line_feed();
        }
    }

    /// Moves the cursor one line down; at the bottom, pushes the top line
    /// into history and scrolls the grid.
    fn line_feed(&mut self)
        requires
            old(self)@.wf(),
        ensures
            final(self)@.wf(),
            final(self)@ == lf_spec(old(self)@),
            same_frame(old(self)@, final(self)@),
            final(self)@.scrollback.len() >= old(self)@.scrollback.len(),
    {
        if self.cur_row + 1 < self.rows {
            self.cur_row = self.cur_row + 1;
        } else {
            proof {
                wf_grid_lens(*self);
                grid_view_facts(*self);
            }
            let top = copy_row(&self.grid[0]);
            let mut ng: Vec<Vec<Cell>> = Vec::new();
            let mut i: usize = 1;
            while i < self.rows
                invariant
                    self@.wf(),
                    1 <= i <= self.rows,
                    ng.len() == i - 1,
                    forall|k: int| 0 <= k < ng.len() ==> (#[trigger] ng[k]@).len() == self@.cols,
                    forall|k: int| 0 <= k < ng.len() ==> (#[trigger] ng[k]@) == self@.grid[k + 1],
                decreases self.rows - i,
            {
                proof {
                    wf_grid_lens(*self);
                    grid_view_facts(*self);
                }
                let line = copy_row(&self.grid[i]);
                ng.push(line);
                i += 1;
            }
            let c = self.cols;
            ng.push(blank_row(c));
            self.grid = ng;
            proof {
                grid_view_facts(*self);
                assert(self@.grid =~~= old(self)@.grid.subrange(
                    1,
                    old(self)@.grid.len() as int,
                ).push(blank_line(old(self)@.cols)));
            }
            self.push_history(top);
            proof {
                assert(self@ =~~= lf_spec(old(self)@));
            }
        }
    }

    /// Executes one finished control sequence.
    fn csi_dispatch(&mut self, cmd: u8)
        requires
            old(self)@.wf(),
        ensures
            final(self)@.wf(),
            final(self)@ == csi_spec(old(self)@, cmd),
            same_frame(old(self)@, final(self)@),
            final(self)@.scrollback == old(self)@.scrollback,
    {
        if cmd == 0x41 {
            // cursor up
            let n = self.param_or(0, 1);
            if (n as usize) <= self.cur_row {
                self.cur_row = self.cur_row - n as usize;
            } else {
                self.cur_row = 0;
            }
        } else if cmd == 0x42 {
            // cursor down
            let n = self.param_or(0, 1);
            let room = self.rows - 1 - self.cur_row;
            if (n as usize) <= room {
                self.cur_row = self.cur_row + n as usize;
            } else {
                self.cur_row = self.rows - 1;
            }
        } else if cmd == 0x43 {
            // cursor right
            let n = self.param_or(0, 1);
            let room = self.cols - 1 - self.cur_col;
            if (n as usize) <= room {
                self.cur_col = self.cur_col + n as usize;
            } else {
                self.cur_col = self.cols - 1;
            }
        } else if cmd == 0x44 {
            // cursor left
            let n = self.param_or(0, 1);
            if (n as usize) <= self.cur_col {
                self.cur_col = self.cur_col - n as usize;
            } else {
                self.cur_col = 0;
            }
        } else if cmd == 0x48 || cmd == 0x66 {
            // cursor position, 1-based
            let r = self.param_or(0, 1);
            let c = self.param_or(1, 1);
            let r0 = if r >= 1 { (r - 1) as usize } else { 0 };
            let c0 = if c >= 1 { (c - 1) as usize } else { 0 };
            self.cur_row = if r0 < self.rows {
                r0
            } else {
                self.rows - 1
            };
            self.cur_col = if c0 < self.cols {
                c0
            } else {
                self.cols - 1
            };
        } else if cmd == 0x4a {
            // erase in display
            let m = self.param_or(0, 0);
            if m == 0 {
                let cr = self.cur_row;
                let cc = self.cur_col;
                let w = self.cols;
                self.clear_row_range(cr, cc, w);
                let rows = self.rows;
                self.clear_rows(cr + 1, rows);
            } else if m == 1 {
                let cr = self.cur_row;
                let cc = self.cur_col;
                self.clear_rows(0, cr);
                self.clear_row_range(cr, 0, cc + 1);
            } else if m == 2 {
                let rows = self.rows;
                self.clear_rows(0, rows);
            }
        } else if cmd == 0x4b {
            // erase in line
            let m = self.param_or(0, 0);
            let cr = self.cur_row;
            let cc = self.cur_col;
            let w = self.cols;
            if m == 0 {
                self.clear_row_range(cr, cc, w);
            } else if m == 1 {
                self.clear_row_range(cr, 0, cc + 1);
            } else if m == 2 {
                self.clear_row_range(cr, 0, w);
            }
        } else if cmd == 0x6d {
            // select graphic rendition
            proof {
                assert(self@.csi_params.skip(0) =~= self@.csi_params);
            }
            let mut i: usize = 0;
            while i < self.csi_params.len()
                invariant
                    self@.wf(),
                    i <= self@.csi_params.len(),
                    *self == (Screen { style: self.style, ..*old(self) }),
                    sgr_fold(old(self)@.style, old(self)@.csi_params) == sgr_fold(
                        self@.style,
                        self@.csi_params.skip(i as int),
                    ),
                decreases self.csi_params.len() - i,
            {
                proof {
                    assert(self@.csi_params.skip(i as int)[0] == self@.csi_params[i as int]);
                    assert(self@.csi_params.skip(i as int).drop_first() =~= self@.csi_params.skip(
                        i as int + 1,
                    ));
                }
                let p = self.csi_params[i];
                self.style = apply_sgr(self.style, p);
                i += 1;
            }
            proof {
                assert(self@.csi_params.skip(self@.csi_params.len() as int)
                    =~= Seq::<u16>::empty());
                assert(self@ =~~= csi_spec(old(self)@, cmd));
            }
        } else if (cmd == 0x68 || cmd == 0x6c) && self.csi_priv {
            // mouse-reporting modes switched on or off by the child
            let p = self.param_or(0, 0);
            if p == 1000 || p == 1002 || p == 1003 {
                self.mouse_on = cmd == 0x68;
            } else if p == 1006 {
                self.mouse_sgr = cmd == 0x68;
            }
        }
        proof {
            assert(self@ =~~= csi_spec(old(self)@, cmd));
        }
    }

    /// Parameter `i` of the current control sequence, with `dflt` when it is
    /// missing or zero.
    fn param_or(&self, i: usize, dflt: u16) -> (n: u16)
        ensures
            n == param_or_spec(self@.csi_params, i as int, dflt),
    {
        if i < self.csi_params.len() {
            let p = self.csi_params[i];
            if p == 0 {
                dflt
            } else {
                p
            }
        } else {
            dflt
        }
    }

    /// Blanks columns `[from, to)` of grid row `r`.
    fn clear_row_range(&mut self, r: usize, from: usize, to: usize)
        requires
            old(self)@.wf(),
            r < old(self)@.rows,
            to <= old(self)@.cols,
        ensures
            final(self)@.wf(),
            final(self)@ == clear_row_spec(old(self)@, r as int, from as int, to as int),
            same_frame(old(self)@, final(self)@),
            final(self)@.scrollback == old(self)@.scrollback,
    {
        proof {
            wf_grid_lens(*self);
            grid_view_facts(*self);
        }
        let row = cleared_row(&self.grid[r], from, to);
        self.grid.set(r, row);
        proof {
            grid_view_facts(*self);
            assert(self@.grid =~= old(self)@.grid.update(r as int, self.grid@[r as int]@));
            assert(self.grid@[r as int]@.len() == old(self)@.cols);
            assert(self@ =~~= clear_row_spec(old(self)@, r as int, from as int, to as int));
        }
    }

    /// Blanks all grid rows in `[from, to)`.
    fn clear_rows(&mut self, from: usize, to: usize)
        requires
            old(self)@.wf(),
            to <= old(self)@.rows,
        ensures
            final(self)@.wf(),
            final(self)@ == clear_rows_spec(old(self)@, from as int, to as int),
            same_frame(old(self)@, final(self)@),
            final(self)@.scrollback == old(self)@.scrollback,
    {
        let mut r: usize = from;
        while r < to
            invariant
                self@.wf(),
                from <= r,
                to <= self@.rows,
                clear_rows_spec(old(self)@, from as int, to as int) == clear_rows_spec(
                    self@,
                    r as int,
                    to as int,
                ),
                same_frame(old(self)@, self@),
                self@.scrollback == old(self)@.scrollback,
            decreases to - r,
        {
            let w = self.cols;
            self.clear_row_range(r, 0, w);
            r += 1;
        }
    }

    /// Resizes the screen to the given size (raised to at least 1 each way).
    /// When the grid shrinks, the lines pushed out at the top join the
    /// scrollback; when it grows, lines come back out of the scrollback
    /// before blank lines are added. The scrollback bound is kept.
    #[verifier::rlimit(100)]
    pub fn resize(&mut self, rows: usize, cols: usize)
        requires
            old(self)@.wf(),
        ensures
            final(self)@.wf(),
            resized_view(old(self)@, final(self)@, rows, cols),
            final(self)@.rows == clamp_dim(rows),
            final(self)@.cols == clamp_dim(cols),
            final(self)@.max_scrollback == old(self)@.max_scrollback,
            final(self)@.style == old(self)@.style,
            final(self)@.phase == old(self)@.phase,
            clamp_dim(rows) <= old(self)@.rows ==> {
                let cut = old(self)@.rows - clamp_dim(rows);
                &&& final(self)@.scrollback == pushed_hist(
                    old(self)@.scrollback,
                    old(self)@.max_scrollback,
                    old(self)@.grid,
                    0,
                    cut,
                )
                &&& final(self)@.grid == old(self)@.grid.subrange(
                    cut,
                    old(self)@.rows,
                ).map_values(|row: Seq<Cell>| pad_cells(row, clamp_dim(cols)))
                &&& final(self)@.cur_row == if old(self)@.cur_row >= cut {
                    old(self)@.cur_row - cut
                } else {
                    0int
                }
            },
            clamp_dim(rows) > old(self)@.rows ==> {
                let pull = if clamp_dim(rows) - old(self)@.rows <= old(self)@.scrollback.len() {
                    clamp_dim(rows) - old(self)@.rows
                } else {
                    old(self)@.scrollback.len() as int
                };
                &&& final(self)@.scrollback == old(self)@.scrollback.take(
                    old(self)@.scrollback.len() - pull,
                )
                &&& final(self)@.grid == old(self)@.scrollback.skip(
                    old(self)@.scrollback.len() - pull,
                ).map_values(|row: Seq<Cell>| pad_cells(row, clamp_dim(cols)))
                    + old(self)@.grid.map_values(
                    |row: Seq<Cell>| pad_cells(row, clamp_dim(cols)),
                ) + Seq::new(
                    (clamp_dim(rows) - pull - old(self)@.rows) as nat,
                    |i: int| blank_line(clamp_dim(cols)),
                )
                &&& final(self)@.cur_row == old(self)@.cur_row + pull
            },
            final(self)@.cur_col == if old(self)@.cur_col < clamp_dim(cols) {
                old(self)@.cur_col
            } else {
                clamp_dim(cols) - 1
            },
            final(self)@.offset == if old(self)@.offset <= final(self)@.scrollback.len() {
                old(self)@.offset
            } else {
                final(self)@.scrollback.len() as int
            },
    {
        proof {
            wf_grid_lens(*self);
            grid_view_facts(*self);
        }
        let r2 = if rows < 1 {
            1
        } else if rows > 0xffff {
            0xffff
        } else {
            rows
        };
        let c2 = if cols < 1 {
            1
        } else if cols > 0xffff {
            0xffff
        } else {
            cols
        };
        let mut newgrid: Vec<Vec<Cell>> = Vec::new();
        if r2 <= self.rows {
            let cut = self.rows - r2;
            let mut i: usize = 0;
            while i < cut
                invariant
                    self@.wf(),
                    cut <= self@.rows,
                    i <= cut,
                    self@ == (ScreenView { scrollback: self@.scrollback, ..old(self)@ }),
                    self@.scrollback.len() >= old(self)@.scrollback.len(),
                    pushed_hist(
                        old(self)@.scrollback,
                        old(self)@.max_scrollback,
                        old(self)@.grid,
                        0,
                        cut as int,
                    ) == pushed_hist(
                        self@.scrollback,
                        old(self)@.max_scrollback,
                        old(self)@.grid,
                        i as int,
                        cut as int,
                    ),
                decreases cut - i,
            {
                proof {
                    wf_grid_lens(*self);
                    grid_view_facts(*self);
                }
                let line = copy_row(&self.grid[i]);
                self.push_history(line);
                i += 1;
            }
            let mut j: usize = cut;
            while j < self.rows
                invariant
                    self@.wf(),
                    cut <= j <= self@.rows,
                    self@ == (ScreenView { scrollback: self@.scrollback, ..old(self)@ }),
                    newgrid.len() == j - cut,
                    forall|k: int| 0 <= k < newgrid.len() ==> (#[trigger] newgrid[k]@).len() == c2,
                    forall|k: int|
                        0 <= k < newgrid.len() ==> (#[trigger] newgrid[k]@) == pad_cells(
                            old(self)@.grid[cut + k],
                            c2 as int,
                        ),
                decreases self.rows - j,
            {
                proof {
                    wf_grid_lens(*self);
                    grid_view_facts(*self);
                }
                newgrid.push(fit_row(&self.grid[j], c2));
                j += 1;
            }
            if self.cur_row >= cut {
                self.cur_row = self.cur_row - cut;
            } else {
                self.cur_row = 0;
            }
        } else {
            let pull = if r2 - self.rows <= self.scrollback.len() {
                r2 - self.rows
            } else {
                self.scrollback.len()
            };
            let start = self.scrollback.len() - pull;
            let mut i: usize = start;
            while i < self.scrollback.len()
                invariant
                    self@.wf(),
                    *self == *old(self),
                    start <= i <= self@.scrollback.len(),
                    newgrid.len() == i - start,
                    forall|k: int| 0 <= k < newgrid.len() ==> (#[trigger] newgrid[k]@).len() == c2,
                    forall|k: int|
                        0 <= k < newgrid.len() ==> (#[trigger] newgrid[k]@) == pad_cells(
                            old(self)@.scrollback[start + k],
                            c2 as int,
                        ),
                decreases self.scrollback.len() - i,
            {
                proof {
                    grid_view_facts(*self);
                }
                newgrid.push(fit_row(&self.scrollback[i], c2));
                i += 1;
            }
            self.scrollback.truncate(start);
            proof {
                grid_view_facts(*self);
                assert(self@.scrollback =~~= old(self)@.scrollback.take(start as int));
            }
            if self.offset > self.scrollback.len() {
                let len = self.scrollback.len();
                self.offset = len;
            }
            proof {
                wf_grid_lens(*self);
                grid_view_facts(*self);
            }
            let mut j: usize = 0;
            while j < self.rows
                invariant
                    j <= self.rows,
                    self.grid.len() == self.rows,
                    self@.grid == old(self)@.grid,
                    forall|k: int|
                        0 <= k < self.grid.len() ==> (#[trigger] self.grid[k]@).len() == self.cols,
                    newgrid.len() == pull + j,
                    forall|k: int| 0 <= k < newgrid.len() ==> (#[trigger] newgrid[k]@).len() == c2,
                    forall|k: int|
                        0 <= k < pull ==> (#[trigger] newgrid[k]@) == pad_cells(
                            old(self)@.scrollback[start + k],
                            c2 as int,
                        ),
                    forall|k: int|
                        pull <= k < newgrid.len() ==> (#[trigger] newgrid[k]@) == pad_cells(
                            old(self)@.grid[k - pull],
                            c2 as int,
                        ),
                decreases self.rows - j,
            {
                newgrid.push(fit_row(&self.grid[j], c2));
                j += 1;
            }
            while newgrid.len() < r2
                invariant
                    newgrid.len() >= pull + self.rows,
                    forall|k: int| 0 <= k < newgrid.len() ==> (#[trigger] newgrid[k]@).len() == c2,
                    forall|k: int|
                        0 <= k < pull ==> (#[trigger] newgrid[k]@) == pad_cells(
                            old(self)@.scrollback[start + k],
                            c2 as int,
                        ),
                    forall|k: int|
                        pull <= k < pull + self.rows ==> (#[trigger] newgrid[k]@) == pad_cells(
                            old(self)@.grid[k - pull],
                            c2 as int,
                        ),
                    forall|k: int|
                        pull + self.rows <= k < newgrid.len() ==> (#[trigger] newgrid[k]@)
                            == blank_line(c2 as int),
                decreases r2 - newgrid.len(),
            {
                newgrid.push(blank_row(c2));
            }
            if newgrid.len() > r2 {
                newgrid.truncate(r2);
            }
            self.cur_row = self.cur_row + pull;
        }
        self.grid = newgrid;
        self.rows = r2;
        self.cols = c2;
        if self.cur_col >= c2 {
            self.cur_col = c2 - 1;
        }
        if self.cur_row >= r2 {
            self.cur_row = r2 - 1;
        }
        if self.offset > self.scrollback.len() {
            let len = self.scrollback.len();
            self.offset = len;
        }
        proof {
            grid_view_facts(*self);
            assert forall|i: int| 0 <= i < self@.grid.len() implies (#[trigger] self@.grid[i]).len()
                == self@.cols by {
                assert(self@.grid[i] == self.grid@[i]@);
            }
            if clamp_dim(rows) <= old(self)@.rows {
                let cut = old(self)@.rows - clamp_dim(rows);
                assert(self@.grid =~~= old(self)@.grid.subrange(
                    cut,
                    old(self)@.rows,
                ).map_values(|row: Seq<Cell>| pad_cells(row, clamp_dim(cols))));
            } else {
                let pull = if clamp_dim(rows) - old(self)@.rows <= old(self)@.scrollback.len() {
                    clamp_dim(rows) - old(self)@.rows
                } else {
                    old(self)@.scrollback.len() as int
                };
                assert(self@.grid =~~= old(self)@.scrollback.skip(
                    old(self)@.scrollback.len() - pull,
                ).map_values(|row: Seq<Cell>| pad_cells(row, clamp_dim(cols)))
                    + old(self)@.grid.map_values(
                    |row: Seq<Cell>| pad_cells(row, clamp_dim(cols)),
                ) + Seq::new(
                    (clamp_dim(rows) - pull - old(self)@.rows) as nat,
                    |i: int| blank_line(clamp_dim(cols)),
                ));
            }
        }
    }

    /// Appends a line to the scrollback, evicting the oldest line when the
    /// bound is reached.
    fn push_history(&mut self, line: Vec<Cell>)
        requires
            old(self)@.wf(),
        ensures
            final(self)@.wf(),
            final(self)@ == (ScreenView {
                scrollback: push_hist_spec(
                    old(self)@.scrollback,
                    old(self)@.max_scrollback,
                    line@,
                ),
                ..old(self)@
            }),
            final(self)@.scrollback.len() >= old(self)@.scrollback.len(),
    {
        if self.max_scrollback == 0 {
            proof {
                assert(self@ =~~= (ScreenView {
                    scrollback: push_hist_spec(self@.scrollback, self@.max_scrollback, line@),
                    ..self@
                }));
            }
            return ;
        }
        if self.scrollback.len() == self.max_scrollback {
            self.scrollback.remove(0);
            proof {
                grid_view_facts(*self);
                grid_view_facts(*old(self));
                assert(self@.scrollback =~~= old(self)@.scrollback.drop_first());
            }
        }
        self.scrollback.push(line);
        proof {
            grid_view_facts(*self);
            grid_view_facts(*old(self));
            assert(self@ =~~= (ScreenView {
                scrollback: push_hist_spec(
                    old(self)@.scrollback,
                    old(self)@.max_scrollback,
                    line@,
                ),
                ..old(self)@
            }));
        }
    }
}


/// Connects the screen's view to the underlying vectors.
proof fn grid_view_facts(s: Screen)
    ensures
        s@.grid.len() == s.grid@.len(),
        s@.scrollback.len() == s.scrollback@.len(),
        forall|i: int| 0 <= i < s.grid@.len() ==> #[trigger] s@.grid[i] == s.grid@[i]@,
        forall|i: int|
            0 <= i < s.scrollback@.len() ==> #[trigger] s@.scrollback[i] == s.scrollback@[i]@,
{
}

/// Exec-level consequences of well-formedness for the grid vectors.
proof fn wf_grid_lens(s: Screen)
    requires
        s@.wf(),
    ensures
        s.grid@.len() == s.rows,
        forall|i: int| 0 <= i < s.grid@.len() ==> (#[trigger] s.grid@[i]@).len() == s.cols,
{
    grid_view_facts(s);
    assert forall|i: int| 0 <= i < s.grid@.len() implies (#[trigger] s.grid@[i]@).len()
        == s.cols by {
        assert(s@.grid[i].len() == s@.cols);
    }
}

/// `row` with the cell at `x` replaced.
fn row_with(row: &Vec<Cell>, x: usize, cell: Cell) -> (r: Vec<Cell>)
    requires
        x < row.len(),
    ensures
        r@ == row@.update(x as int, cell),
{
    let mut r: Vec<Cell> = Vec::new();
    let mut i: usize = 0;
    while i < row.len()
        invariant
            i <= row.len(),
            r.len() == i,
            x < row.len(),
            forall|k: int| 0 <= k < i ==> r[k] == row@.update(x as int, cell)[k],
        decreases row.len() - i,
    {
        if i == x {
            r.push(cell);
        } else {
            let c = row[i];
            r.push(c);
        }
        i += 1;
    }
    proof {
        assert(r@ =~= row@.update(x as int, cell));
    }
    r
}

/// `row` with columns `[from, to)` blanked.
fn cleared_row(row: &Vec<Cell>, from: usize, to: usize) -> (r: Vec<Cell>)
    ensures
        r@.len() == row@.len(),
        r@ == clear_range(row@, from as int, to as int),
{
    let mut r: Vec<Cell> = Vec::new();
    let mut i: usize = 0;
    while i < row.len()
        invariant
            i <= row.len(),
            r.len() == i,
            forall|k: int| 0 <= k < i ==> r[k] == clear_range(row@, from as int, to as int)[k],
        decreases row.len() - i,
    {
        if from <= i && i < to {
            r.push(Cell {
                ch: ' ',
                style: CellStyle { fg: 0, bg: 0, bold: false, underline: false },
            });
        } else {
            let c = row[i];
            r.push(c);
        }
        i += 1;
    }
    proof {
        assert(r@ =~= clear_range(row@, from as int, to as int));
    }
    r
}

/// `row` padded with blank cells, or cut, to exactly `cols` cells.
fn fit_row(row: &Vec<Cell>, cols: usize) -> (r: Vec<Cell>)
    ensures
        r@.len() == cols,
        r@ == pad_cells(row@, cols as int),
{
    let mut r: Vec<Cell> = Vec::new();
    let mut i: usize = 0;
    while i < cols
        invariant
            i <= cols,
            r.len() == i,
            forall|k: int| 0 <= k < i ==> r[k] == pad_cells(row@, cols as int)[k],
        decreases cols - i,
    {
        if i < row.len() {
            let cell = row[i];
            r.push(cell);
        } else {
            r.push(Cell {
                ch: ' ',
                style: CellStyle { fg: 0, bg: 0, bold: false, underline: false },
            });
        }
        i += 1;
    }
    proof {
        assert(r@ =~= pad_cells(row@, cols as int));
    }
    r
}

/// An element-wise copy of a line.
fn copy_row(row: &Vec<Cell>) -> (r: Vec<Cell>)
    ensures
        r@ == row@,
{
    let mut r: Vec<Cell> = Vec::new();
    let mut i: usize = 0;
    while i < row.len()
        invariant
            i <= row.len(),
            r.len() == i,
            forall|k: int| 0 <= k < i ==> r[k] == row@[k],
        decreases row.len() - i,
    {
        let cell = row[i];
        r.push(cell);
        i += 1;
    }
    proof {
        assert(r@ =~= row@);
    }
    r
}

/// An element-wise copy of a list of lines.
fn copy_lines(lines: &Vec<Vec<Cell>>) -> (r: Vec<Vec<Cell>>)
    ensures
        r@.map_values(|v: Vec<Cell>| v@) == lines@.map_values(|v: Vec<Cell>| v@),
        r@.len() == lines@.len(),
{
    let mut r: Vec<Vec<Cell>> = Vec::new();
    let mut i: usize = 0;
    while i < lines.len()
        invariant
            i <= lines.len(),
            r.len() == i,
            forall|k: int| 0 <= k < i ==> (#[trigger] r[k])@ == lines@[k]@,
        decreases lines.len() - i,
    {
        r.push(copy_row(&lines[i]));
        i += 1;
    }
    proof {
        assert(r@.map_values(|v: Vec<Cell>| v@) =~= lines@.map_values(|v: Vec<Cell>| v@));
    }
    r
}

/// An element-wise copy of the parameter list.
fn copy_params(params: &Vec<u16>) -> (r: Vec<u16>)
    ensures
        r@ == params@,
{
    let mut r: Vec<u16> = Vec::new();
    let mut i: usize = 0;
    while i < params.len()
        invariant
            i <= params.len(),
            r.len() == i,
            forall|k: int| 0 <= k < i ==> r[k] == params@[k],
        decreases params.len() - i,
    {
        let p = params[i];
        r.push(p);
        i += 1;
    }
    proof {
        assert(r@ =~= params@);
    }
    r
}

/// One graphic-rendition parameter applied to a style.
pub open spec fn sgr_spec(s: CellStyle, p: u16) -> CellStyle {
    if p == 0 {
        plain_style()
    } else if p == 1 {
        CellStyle { bold: true, ..s }
    } else if p == 4 {
        CellStyle { underline: true, ..s }
    } else if p == 22 {
        CellStyle { bold: false, ..s }
    } else if p == 24 {
        CellStyle { underline: false, ..s }
    } else if 30 <= p && p <= 37 {
        CellStyle { fg: (p - 29) as u8, ..s }
    } else if p == 39 {
        CellStyle { fg: 0, ..s }
    } else if 40 <= p && p <= 47 {
        CellStyle { bg: (p - 39) as u8, ..s }
    } else if p == 49 {
        CellStyle { bg: 0, ..s }
    } else {
        s
    }
}

/// Applies one graphic-rendition parameter.
fn apply_sgr(s: CellStyle, p: u16) -> (r: CellStyle)
    ensures
        r == sgr_spec(s, p),
{
    if p == 0 {
        CellStyle { fg: 0, bg: 0, bold: false, underline: false }
    } else if p == 1 {
        CellStyle { bold: true, ..s }
    } else if p == 4 {
        CellStyle { underline: true, ..s }
    } else if p == 22 {
        CellStyle { bold: false, ..s }
    } else if p == 24 {
        CellStyle { underline: false, ..s }
    } else if 30 <= p && p <= 37 {
        CellStyle { fg: (p - 29) as u8, ..s }
    } else if p == 39 {
        CellStyle { fg: 0, ..s }
    } else if 40 <= p && p <= 47 {
        CellStyle { bg: (p - 39) as u8, ..s }
    } else if p == 49 {
        CellStyle { bg: 0, ..s }
    } else {
        s
    }
}

/// A line of `cols` blank cells.
fn blank_row(cols: usize) -> (row: Vec<Cell>)
    ensures
        row.len() == cols,
        forall|x: int| 0 <= x < cols ==> row[x] == blank_cell(),
{
    let mut row: Vec<Cell> = Vec::new();
    let mut x: usize = 0;
    while x < cols
        invariant
            x <= cols,
            row.len() == x,
            forall|i: int| 0 <= i < x ==> row[i] == blank_cell(),
        decreases cols - x,
    {
        row.push(Cell { ch: ' ', style: CellStyle { fg: 0, bg: 0, bold: false, underline: false } });
        x += 1;
    }
    row
}

} // verus!
