//! Text-mode console: an 80 x 25 grid of 16-bit cells and a cursor.

use vstd::prelude::*;
use vstd::string::StringSliceAdditionalSpecFns;

verus! {

/// Columns of the text grid.
pub const WIDTH: usize = 80;

/// Rows of the text grid.
pub const HEIGHT: usize = 25;

/// Number of cells in the text grid.
pub const CELLS: usize = 2000;

/// Attribute byte used for every cell: light grey on black.
pub const DEFAULT_ATTRIBUTE: u8 = 0x07;

/// The byte that moves the cursor to the start of the next row.
pub const NEWLINE: u8 = 10;

/// A space character with the default attribute.
pub const BLANK: u16 = 0x0720;

/// A 16-bit text cell: the character in the low byte, the attribute in the high byte.
pub open spec fn text_cell(ch: u8, attr: u8) -> u16 {
    (attr as int * 256 + ch as int) as u16
}

/// What a printed byte leaves in its cell.
pub open spec fn printed_cell(ch: u8) -> u16 {
    text_cell(ch, DEFAULT_ATTRIBUTE)
}

/// The abstract state of the console: the grid in row-major order and the cursor.
pub struct ScreenState {
    pub cells: Seq<u16>,
    pub col: int,
    pub row: int,
}

impl ScreenState {
    /// The grid has all its cells and the cursor lies inside it.
    pub open spec fn valid(self) -> bool {
        &&& self.cells.len() == CELLS
        &&& 0 <= self.col < WIDTH
        &&& 0 <= self.row < HEIGHT
    }

    /// Index of the cursor's cell in the row-major grid.
    pub open spec fn position(self) -> int {
        self.row * WIDTH + self.col
    }
}

/// A cleared screen: blanks everywhere, cursor at the top left.
pub open spec fn blank_screen() -> ScreenState {
    ScreenState { cells: Seq::new(CELLS as nat, |i: int| BLANK), col: 0, row: 0 }
}

/// The cursor moved to column 0 of the next row, wrapping from the last row to the first.
pub open spec fn line_feed(st: ScreenState) -> ScreenState {
    ScreenState { col: 0, row: (st.row + 1) % (HEIGHT as int), ..st }
}

/// The cursor moved one column on, into the next row after the last column.
pub open spec fn advanced(st: ScreenState) -> ScreenState {
    if st.col + 1 == WIDTH {
        line_feed(st)
    } else {
        ScreenState { col: st.col + 1, ..st }
    }
}

/// The effect of one byte: a newline moves the cursor, any other byte is written
/// at the cursor, which then advances.
pub open spec fn put_byte(st: ScreenState, b: u8) -> ScreenState {
    if b == NEWLINE {
        line_feed(st)
    } else {
        advanced(ScreenState { cells: st.cells.update(st.position(), printed_cell(b)), ..st })
    }
}

/// The effect of a byte sequence, byte by byte from the first.
pub open spec fn printed(st: ScreenState, bytes: Seq<u8>) -> ScreenState
    decreases bytes.len(),
{
    if bytes.len() == 0 {
        st
    } else {
        put_byte(printed(st, bytes.drop_last()), bytes.last())
    }
}

/// The console: the display buffer and the cursor, owned together.
pub struct Console {
    buffer: Vec<u16>,
    x: usize,
    y: usize,
}

impl View for Console {
    type V = ScreenState;

    closed spec fn view(&self) -> ScreenState {
        ScreenState { cells: self.buffer@, col: self.x as int, row: self.y as int }
    }
}

/// Builds a text cell from a character and an attribute.
pub fn make_cell(ch: u8, attr: u8) -> (r: u16)
    ensures
        r == text_cell(ch, attr),
        r as int == attr as int * 256 + ch as int,
{
    (attr as u16) * 256 + (ch as u16)
}

impl Console {
    /// The buffer holds the whole grid and the cursor lies inside it.
    pub open spec fn wf(&self) -> bool {
        self@.valid()
    }

    /// A console over a cleared screen.
    pub fn new() -> (c: Console)
        ensures
            c.wf(),
            c@ == blank_screen(),
    {
        let mut buffer: Vec<u16> = Vec::new();
        let mut i: usize = 0;
        while i < CELLS
            invariant
                i <= CELLS,
                buffer@ == Seq::new(i as nat, |j: int| BLANK),
            decreases CELLS - i,
        {
            buffer.push(BLANK);
            i += 1;
            proof {
                assert(buffer@ =~= Seq::new(i as nat, |j: int| BLANK));
            }
        }
        Console { buffer, x: 0, y: 0 }
    }

    /// The cursor as (column, row).
    pub fn cursor(&self) -> (r: (usize, usize))
        ensures
            r.0 == self@.col,
            r.1 == self@.row,
    {
        (self.x, self.y)
    }

    /// The cell at the given row and column.
    pub fn cell(&self, row: usize, col: usize) -> (r: u16)
        requires
            self.wf(),
            row < HEIGHT,
            col < WIDTH,
        ensures
            r == self@.cells[row * WIDTH + col],
    {
        proof {
            assert(row * WIDTH + col < CELLS) by (nonlinear_arith)
                requires
                    row < HEIGHT,
                    col < WIDTH,
            ;
        }
        self.buffer[row * WIDTH + col]
    }
}

fn advance_cursor(con: &mut Console)
    requires
        old(con).wf(),
    ensures
        final(con).wf(),
        final(con)@ == advanced(old(con)@),
{
    con.x = (con.x + 1) % WIDTH;
    if con.x == 0 {
        con.y = (con.y + 1) % HEIGHT;
    }
}

/// Writes a blank into every cell and moves the cursor to the top left.
pub fn clear_screen(con: &mut Console)
    requires
        old(con).wf(),
    ensures
        final(con).wf(),
        final(con)@ == blank_screen(),
{
    let mut row: usize = 0;
    while row < HEIGHT
        invariant
            row <= HEIGHT,
            con.buffer@.len() == CELLS,
            con.x == old(con).x,
            con.y == old(con).y,
            forall|i: int| 0 <= i < row * WIDTH ==> con.buffer@[i] == BLANK,
        decreases HEIGHT - row,
    {
        let mut col: usize = 0;
        while col < WIDTH
            invariant
                row < HEIGHT,
                col <= WIDTH,
                con.buffer@.len() == CELLS,
                con.x == old(con).x,
                con.y == old(con).y,
                forall|i: int| 0 <= i < row * WIDTH + col ==> con.buffer@[i] == BLANK,
            decreases WIDTH - col,
        {
            proof {
                assert(row * WIDTH + col < CELLS) by (nonlinear_arith)
                    requires
                        row < HEIGHT,
                        col < WIDTH,
                ;
            }
            con.buffer.set(row * WIDTH + col, BLANK);
            col += 1;
        }
        row += 1;
    }
    con.x = 0;
    con.y = 0;
    proof {
        assert(con.buffer@ =~= blank_screen().cells);
    }
}

/// Writes the bytes of `s` at the cursor: a newline moves the cursor to the
/// start of the next row, any other byte is stored verbatim with the default
/// attribute and the cursor advances by one cell.
pub fn print(con: &mut Console, s: &str)
    requires
        old(con).wf(),
    ensures
        final(con).wf(),
        final(con)@ == printed(old(con)@, s.spec_bytes()),
{
    let bytes = s.as_bytes();
    let mut i: usize = 0;
    while i < bytes.len()
        invariant
            con.wf(),
            i <= bytes@.len(),
            bytes@ == s.spec_bytes(),
            con@ == printed(old(con)@, bytes@.take(i as int)),
        decreases bytes@.len() - i,
    {
        let b = bytes[i];
        if b == NEWLINE {
            con.x = 0;
            con.y = (con.y + 1) % HEIGHT;
        } else {
            proof {
                assert(con.y * WIDTH + con.x < CELLS) by (nonlinear_arith)
                    requires
                        con.y < HEIGHT,
                        con.x < WIDTH,
                ;
            }
            con.buffer.set(con.y * WIDTH + con.x, make_cell(b, DEFAULT_ATTRIBUTE));
            advance_cursor(con);
        }
        proof {
            assert(bytes@.take(i + 1).drop_last() =~= bytes@.take(i as int));
        }
        i += 1;
    }
    proof {
        assert(bytes@.take(i as int) =~= bytes@);
    }
}

/// Printing keeps the screen state valid.
pub proof fn lemma_printed_valid(st: ScreenState, bytes: Seq<u8>)
    requires
        st.valid(),
    ensures
        printed(st, bytes).valid(),
    decreases bytes.len(),
{
    if bytes.len() > 0 {
        lemma_printed_valid(st, bytes.drop_last());
    }
}

/// Printing `a` and then `b` leaves the screen as printing `a` followed by `b` at once.
pub proof fn lemma_print_concat(st: ScreenState, a: Seq<u8>, b: Seq<u8>)
    ensures
        printed(printed(st, a), b) == printed(st, a + b),
    decreases b.len(),
{
    if b.len() == 0 {
        assert(a + b =~= a);
    } else {
        lemma_print_concat(st, a, b.drop_last());
        assert((a + b).drop_last() =~= a + b.drop_last());
        assert((a + b).last() == b.last());
    }
}

proof fn lemma_advanced_position(st: ScreenState)
    requires
        st.valid(),
    ensures
        advanced(st).valid(),
        advanced(st).cells == st.cells,
        advanced(st).position() == (st.position() + 1) % (CELLS as int),
{
}

proof fn lemma_mod_successor(a: int)
    requires
        a >= 0,
    ensures
        (a % (CELLS as int) + 1) % (CELLS as int) == (a + 1) % (CELLS as int),
{
}

proof fn lemma_mod_distinct(a: int, d: int)
    requires
        0 < d < CELLS,
    ensures
        a % (CELLS as int) != (a + d) % (CELLS as int),
{
}

/// Without newlines, the cursor's cell index moves one cell per byte, modulo the
/// grid, and each of the last `CELLS` bytes sits in the cell it was written to.
proof fn lemma_position_without_newline(st: ScreenState, bytes: Seq<u8>)
    requires
        st.valid(),
        forall|i: int| 0 <= i < bytes.len() ==> bytes[i] != NEWLINE,
    ensures
        printed(st, bytes).valid(),
        printed(st, bytes).position() == (st.position() + bytes.len()) % (CELLS as int),
        forall|i: int|
            0 <= i < bytes.len() && bytes.len() <= i + CELLS ==> printed(st, bytes).cells[(
            st.position() + i) % (CELLS as int)] == printed_cell(#[trigger] bytes[i]),
    decreases bytes.len(),
{
    if bytes.len() > 0 {
        let init = bytes.drop_last();
        let n = bytes.len() as int;
        lemma_position_without_newline(st, init);
        let prev = printed(st, init);
        let b = bytes.last();
        assert(bytes[n - 1] == b);
        assert(b != NEWLINE);
        let written = ScreenState { cells: prev.cells.update(prev.position(), printed_cell(b)), ..prev };
        assert(printed(st, bytes) == advanced(written));
        lemma_advanced_position(written);
        lemma_mod_successor(st.position() + n - 1);
        let p0 = st.position();
        assert forall|i: int|
            0 <= i < bytes.len() && bytes.len() <= i + CELLS implies printed(st, bytes).cells[(p0
                + i) % (CELLS as int)] == printed_cell(#[trigger] bytes[i]) by {
            if i < n - 1 {
                assert(init[i] == bytes[i]);
                lemma_mod_distinct(p0 + i, n - 1 - i);
            }
        }
    }
}

/// For text without newlines, the cursor column is the old column plus the number
/// of bytes, modulo the width, with the carry added to the row modulo the height;
/// and each byte that no later byte overwrote stands verbatim in the cell it was
/// written to, counted from the old cursor in row-major order.
pub proof fn lemma_print_without_newline(st: ScreenState, bytes: Seq<u8>)
    requires
        st.valid(),
        forall|i: int| 0 <= i < bytes.len() ==> bytes[i] != NEWLINE,
    ensures
        printed(st, bytes).valid(),
        printed(st, bytes).col == (st.col + bytes.len()) % (WIDTH as int),
        printed(st, bytes).row == (st.row + (st.col + bytes.len()) / (WIDTH as int)) % (
        HEIGHT as int),
        forall|i: int|
            0 <= i < bytes.len() && bytes.len() <= i + CELLS ==> printed(st, bytes).cells[(
            st.position() + i) % (CELLS as int)] == printed_cell(#[trigger] bytes[i]),
{
    lemma_position_without_newline(st, bytes);
    let fin = printed(st, bytes);
    let t = st.position() + bytes.len();
    assert(fin.col == fin.position() % 80 && fin.row == fin.position() / 80);
    assert((t % 2000) % 80 == t % 80);
    assert((t % 2000) / 80 == (t / 80) % 25);
    assert(t % 80 == (st.col + bytes.len()) % 80);
    assert(t / 80 == st.row + (st.col + bytes.len()) / 80);
}

} // verus!
