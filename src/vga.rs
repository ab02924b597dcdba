//! The text console: a 25 x 80 grid of coloured characters with a cursor,
//! filled line by line and scrolled up when full.
use vstd::prelude::*;
use vstd::string::StringSliceAdditionalSpecFns;

verus! {

pub const BUFFER_HEIGHT: usize = 25;
pub const BUFFER_WIDTH: usize = 80;
/// Number of cells on the screen.
pub const BUFFER_CELLS: usize = 2000;

/// A foreground and a background colour, packed as the display reads them.
#[derive(Clone, Copy, Debug, PartialEq, Eq, Structural)]
pub struct ColorCode {
    pub value: u8,
}

impl ColorCode {
    /// The code for `foreground` on `background`, both palette indices.
    pub fn new(foreground: u8, background: u8) -> (r: ColorCode)
        requires
            foreground < 16,
            background < 16,
        ensures
            r.value == background * 16 + foreground,
    {
        ColorCode { value: background * 16 + foreground }
    }
}

/// One cell of the screen.
#[derive(Clone, Copy, Debug, PartialEq, Eq, Structural)]
pub struct Character {
    pub ascii: u8,
    pub color_code: ColorCode,
}

/// What a writer is: the cursor, the colour it writes in, and the cells,
/// row by row.
pub struct WriterView {
    pub row: int,
    pub column: int,
    pub color: ColorCode,
    pub cells: Seq<Character>,
}

/// A blank cell in `color`.
pub open spec fn blank(color: ColorCode) -> Character {
    Character { ascii: 32, color_code: color }
}

/// The cells after moving every row up by one and blanking the last row.
pub open spec fn scrolled(cells: Seq<Character>, color: ColorCode) -> Seq<Character> {
    Seq::new(
        BUFFER_CELLS as nat,
        |i: int| if i < (BUFFER_CELLS - BUFFER_WIDTH) as int { cells[i + BUFFER_WIDTH] } else { blank(color) },
    )
}

/// The cells with row `row` blanked.
pub open spec fn row_cleared(cells: Seq<Character>, row: int, color: ColorCode) -> Seq<Character> {
    Seq::new(
        cells.len(),
        |i: int| if row * BUFFER_WIDTH <= i < (row + 1) * BUFFER_WIDTH { blank(color) } else { cells[i] },
    )
}

/// Moves the cursor to the start of the next row; on the last row the screen
/// scrolls up one row first.
pub open spec fn new_line_spec(w: WriterView) -> WriterView {
    if w.row >= BUFFER_HEIGHT - 1 {
        WriterView { row: BUFFER_HEIGHT - 1, column: 0, color: w.color, cells: scrolled(w.cells, w.color) }
    } else {
        WriterView { row: w.row + 1, column: 0, color: w.color, cells: w.cells }
    }
}

/// Writes one byte: a newline moves to the next row; any other byte goes at
/// the cursor, after a line break where the row is full.
pub open spec fn write_byte_spec(w: WriterView, b: u8) -> WriterView {
    if b == 10 {
        new_line_spec(w)
    } else {
        let v = if w.column >= BUFFER_WIDTH { new_line_spec(w) } else { w };
        WriterView {
            row: v.row,
            column: v.column + 1,
            color: v.color,
            cells: v.cells.update(v.row * BUFFER_WIDTH + v.column, Character { ascii: b, color_code: v.color }),
        }
    }
}

/// Writes the bytes in order.
pub open spec fn write_bytes_spec(w: WriterView, bs: Seq<u8>) -> WriterView
    decreases bs.len(),
{
    if bs.len() == 0 {
        w
    } else {
        write_byte_spec(write_bytes_spec(w, bs.drop_last()), bs.last())
    }
}

/// The cursor on the screen and a full grid of cells.
pub open spec fn view_wf(w: WriterView) -> bool {
    &&& 0 <= w.row < BUFFER_HEIGHT
    &&& 0 <= w.column <= BUFFER_WIDTH
    &&& w.cells.len() == BUFFER_CELLS
}

/// Writes to the screen.
pub struct Writer {
    row_position: usize,
    column_position: usize,
    color: ColorCode,
    buffer: Vec<Character>,
}

impl View for Writer {
    type V = WriterView;

    closed spec fn view(&self) -> WriterView {
        WriterView {
            row: self.row_position as int,
            column: self.column_position as int,
            color: self.color,
            cells: self.buffer@,
        }
    }
}

impl Writer {
    /// The cursor is on the screen and the grid is full.
    pub open spec fn wf(&self) -> bool {
        view_wf(self@)
    }

    /// A writer in `color` over a blank screen, the cursor at the top left.
    pub fn new(color: ColorCode) -> (r: Writer)
        ensures
            r.wf(),
            r@.row == 0,
            r@.column == 0,
            r@.color == color,
            r@.cells == Seq::new(BUFFER_CELLS as nat, |i: int| blank(color)),
    {
        let mut buffer: Vec<Character> = Vec::new();
        let mut i: usize = 0;
        while i < BUFFER_CELLS
            invariant
                i <= BUFFER_CELLS,
                buffer@ == Seq::new(i as nat, |k: int| blank(color)),
            decreases BUFFER_CELLS - i,
        {
            buffer.push(Character { ascii: 32, color_code: color });
            i = i + 1;
            assert(buffer@ =~= Seq::new(i as nat, |k: int| blank(color)));
        }
        Writer { row_position: 0, column_position: 0, color, buffer }
    }

    /// Writes one byte at the cursor, or moves to the next row for a newline.
    pub fn write_byte(&mut self, ascii: u8)
        requires
            old(self).wf(),
        ensures
            final(self).wf(),
            final(self)@ == write_byte_spec(old(self)@, ascii),
    {
        if ascii == 10 {
            self.new_line();
        } else {
            if self.column_position >= BUFFER_WIDTH {
                self.new_line();
            }
            let row = self.row_position;
            let col = self.column_position;
            let color = self.color;
            self.buffer.set(row * BUFFER_WIDTH + col, Character { ascii, color_code: color });
            self.column_position = col + 1;
        }
    }

    /// Writes the bytes in order.
    pub fn write_bytes(&mut self, bytes: &[u8])
        requires
            old(self).wf(),
        ensures
            final(self).wf(),
            final(self)@ == write_bytes_spec(old(self)@, bytes@),
    {
        let mut i: usize = 0;
        while i < bytes.len()
            invariant
                i <= bytes@.len(),
                self.wf(),
                self@ == write_bytes_spec(old(self)@, bytes@.take(i as int)),
            decreases bytes@.len() - i,
        {
            let b = bytes[i];
            self.write_byte(b);
            assert(bytes@.take(i + 1).drop_last() =~= bytes@.take(i as int));
            i = i + 1;
        }
        assert(bytes@.take(i as int) =~= bytes@);
    }

    /// Writes the text's bytes in order.
    pub fn write_str(&mut self, s: &str)
        requires
            old(self).wf(),
        ensures
            final(self).wf(),
            final(self)@ == write_bytes_spec(old(self)@, s.spec_bytes()),
    {
        self.write_bytes(s.as_bytes());
    }

    /// Moves the cursor to the start of the next row, scrolling the screen up
    /// one row when the cursor is on the last row.
    pub fn new_line(&mut self)
        requires
            old(self).wf(),
        ensures
            final(self).wf(),
            final(self)@ == new_line_spec(old(self)@),
    {
        if self.row_position >= BUFFER_HEIGHT - 1 {
            let ghost before = self.buffer@;
            let mut i: usize = 0;
            while i < BUFFER_CELLS - BUFFER_WIDTH
                invariant
                    i <= BUFFER_CELLS - BUFFER_WIDTH,
                    self.buffer@.len() == BUFFER_CELLS,
                    self.row_position == old(self).row_position,
                    self.column_position == old(self).column_position,
                    self.color == old(self).color,
                    old(self).wf(),
                    before == old(self).buffer@,
                    self.buffer@ == Seq::new(
                        BUFFER_CELLS as nat,
                        |k: int| if k < i { before[k + BUFFER_WIDTH] } else { before[k] },
                    ),
                decreases BUFFER_CELLS - BUFFER_WIDTH - i,
            {
                let c = self.buffer[i + BUFFER_WIDTH];
                self.buffer.set(i, c);
                i = i + 1;
                assert(self.buffer@ =~= Seq::new(
                    BUFFER_CELLS as nat,
                    |k: int| if k < i { before[k + BUFFER_WIDTH] } else { before[k] },
                ));
            }
            self.clear_row(BUFFER_HEIGHT - 1);
            assert(self.buffer@ =~= scrolled(before, self.color));
            self.row_position = BUFFER_HEIGHT - 1;
        } else {
            self.row_position = self.row_position + 1;
        }
        self.column_position = 0;
    }

    /// Blanks row `row` in the writer's colour.
    pub fn clear_row(&mut self, row: usize)
        requires
            old(self).wf(),
            row < BUFFER_HEIGHT,
        ensures
            final(self).wf(),
            final(self)@ == (WriterView { cells: row_cleared(old(self)@.cells, row as int, old(self)@.color), ..old(self)@ }),
    {
        let blank_cell = Character { ascii: 32, color_code: self.color };
        let ghost before = self.buffer@;
        let start = row * BUFFER_WIDTH;
        let mut column: usize = 0;
        while column < BUFFER_WIDTH
            invariant
                column <= BUFFER_WIDTH,
                start == row * BUFFER_WIDTH,
                row < BUFFER_HEIGHT,
                blank_cell == blank(self.color),
                self.row_position == old(self).row_position,
                self.column_position == old(self).column_position,
                self.color == old(self).color,
                old(self).wf(),
                before == old(self).buffer@,
                self.buffer@ == Seq::new(
                    BUFFER_CELLS as nat,
                    |k: int| if start <= k < start + column { blank(self.color) } else { before[k] },
                ),
                before.len() == BUFFER_CELLS,
            decreases BUFFER_WIDTH - column,
        {
            self.buffer.set(start + column, blank_cell);
            column = column + 1;
            assert(self.buffer@ =~= Seq::new(
                BUFFER_CELLS as nat,
                |k: int| if start <= k < start + column { blank(self.color) } else { before[k] },
            ));
        }
        assert(self.buffer@ =~= row_cleared(before, row as int, self.color));
    }

    /// Blanks every row; the cursor stays where it is.
    pub fn clear_buffer(&mut self)
        requires
            old(self).wf(),
        ensures
            final(self).wf(),
            final(self)@ == (WriterView { cells: Seq::new(BUFFER_CELLS as nat, |i: int| blank(old(self)@.color)), ..old(self)@ }),
    {
        let mut row: usize = 0;
        while row < BUFFER_HEIGHT
            invariant
                row <= BUFFER_HEIGHT,
                self.wf(),
                self.row_position == old(self).row_position,
                self.column_position == old(self).column_position,
                self.color == old(self).color,
                forall|k: int| 0 <= k < row * BUFFER_WIDTH ==> self.buffer@[k] == blank(self.color),
            decreases BUFFER_HEIGHT - row,
        {
            self.clear_row(row);
            row = row + 1;
        }
        assert(self.buffer@ =~= Seq::new(BUFFER_CELLS as nat, |i: int| blank(old(self)@.color)));
    }

    /// The row of the cursor.
    pub fn row_position(&self) -> (r: usize)
        ensures
            r == self@.row,
    {
        self.row_position
    }

    /// The column of the cursor.
    pub fn column_position(&self) -> (r: usize)
        ensures
            r == self@.column,
    {
        self.column_position
    }

    /// The cell at `row`, `column`.
    pub fn cell(&self, row: usize, column: usize) -> (r: Character)
        requires
            self.wf(),
            row < BUFFER_HEIGHT,
            column < BUFFER_WIDTH,
        ensures
            r == self@.cells[row * BUFFER_WIDTH + column],
    {
        self.buffer[row * BUFFER_WIDTH + column]
    }

    /// The cursor's position as the display controller counts it: cells from
    /// the top left, row by row.
    pub fn cursor_offset(&self) -> (r: u16)
        requires
            self.wf(),
        ensures
            r == self@.row * BUFFER_WIDTH + self@.column,
    {
        (self.row_position * BUFFER_WIDTH + self.column_position) as u16
    }
}

/// Writes `s` to the screen.
pub fn print(writer: &mut Writer, s: &str)
    requires
        old(writer).wf(),
    ensures
        final(writer).wf(),
        final(writer)@ == write_bytes_spec(old(writer)@, s.spec_bytes()),
{
    writer.write_str(s);
}

/// Blanks the screen and puts the cursor at the top left.
pub fn clear_buffer(writer: &mut Writer)
    requires
        old(writer).wf(),
    ensures
        final(writer).wf(),
        final(writer)@ == (WriterView {
            row: 0,
            column: 0,
            color: old(writer)@.color,
            cells: Seq::new(BUFFER_CELLS as nat, |i: int| blank(old(writer)@.color)),
        }),
{
    writer.clear_buffer();
    writer.row_position = 0;
    writer.column_position = 0;
}

} // verus!
