//! The 80x25 text screen: a grid of coloured characters with a cursor that
//! moves right and down and scrolls the grid up once the last row is full.

use vstd::prelude::*;
use vstd::string::StringSliceAdditionalSpecFns;

verus! {

pub const BUFFER_WIDTH: usize = 80;

pub const BUFFER_HEIGHT: usize = 25;

/// Number of cells of the grid.
pub const BUFFER_CELLS: usize = 2000;

/// The byte that ends a line.
pub const NEWLINE: u8 = 0x0a;

/// The byte of an empty cell.
pub const SPACE: u8 = 0x20;

/// The byte shown in place of anything that is not printable ASCII.
pub const UNPRINTABLE: u8 = 0xfe;

/// The sixteen colours of the text mode palette.
#[allow(dead_code)]
#[derive(Debug, Clone, Copy, PartialEq, Eq, Structural)]
pub enum Color {
    Black,
    Blue,
    Green,
    Cyan,
    Red,
    Magenta,
    Brown,
    LightGray,
    DarkGray,
    LightBlue,
    LightGreen,
    LightCyan,
    LightRed,
    Pink,
    Yellow,
    White,
}

impl Color {
    /// The palette index of the colour, 0 to 15.
    pub open spec fn index(self) -> u8 {
        match self {
            Color::Black => 0,
            Color::Blue => 1,
            Color::Green => 2,
            Color::Cyan => 3,
            Color::Red => 4,
            Color::Magenta => 5,
            Color::Brown => 6,
            Color::LightGray => 7,
            Color::DarkGray => 8,
            Color::LightBlue => 9,
            Color::LightGreen => 10,
            Color::LightCyan => 11,
            Color::LightRed => 12,
            Color::Pink => 13,
            Color::Yellow => 14,
            Color::White => 15,
        }
    }

    pub fn as_u8(self) -> (code: u8)
        ensures
            code == self.index(),
            code < 16,
    {
        match self {
            Color::Black => 0,
            Color::Blue => 1,
            Color::Green => 2,
            Color::Cyan => 3,
            Color::Red => 4,
            Color::Magenta => 5,
            Color::Brown => 6,
            Color::LightGray => 7,
            Color::DarkGray => 8,
            Color::LightBlue => 9,
            Color::LightGreen => 10,
            Color::LightCyan => 11,
            Color::LightRed => 12,
            Color::Pink => 13,
            Color::Yellow => 14,
            Color::White => 15,
        }
    }
}

/// A foreground and a background colour packed into one attribute byte:
/// background in the high four bits, foreground in the low four.
#[derive(Debug, Clone, Copy, PartialEq, Eq, Structural)]
pub struct ColorCode(pub u8);

impl ColorCode {
    pub fn new(foreground: Color, background: Color) -> (code: ColorCode)
        ensures
            code.0 == background.index() * 16 + foreground.index(),
    {
        let fg: u8 = foreground.as_u8();
        let bg: u8 = background.as_u8();
        assert((bg << 4 | fg) == bg * 16 + fg) by (bit_vector)
            requires
                fg < 16,
                bg < 16,
        ;
        ColorCode(bg << 4 | fg)
    }
}

/// One cell of the grid.
#[derive(Debug, Clone, Copy, PartialEq, Eq, Structural)]
pub struct ScreenChar {
    pub ascii_char: u8,
    pub color_code: ColorCode,
}

/// The empty cell in a given colour.
pub open spec fn blank(color: ColorCode) -> ScreenChar {
    ScreenChar { ascii_char: SPACE, color_code: color }
}

/// What is shown for a byte: itself if it is printable ASCII or a newline,
/// the replacement byte otherwise.
pub open spec fn shown(byte: u8) -> u8 {
    if (0x20 <= byte <= 0x7e) || byte == NEWLINE {
        byte
    } else {
        UNPRINTABLE
    }
}

/// The screen as a mathematical value: the cursor, the colour in use and the
/// cells row after row.
pub struct Screen {
    pub row: int,
    pub col: int,
    pub color: ColorCode,
    pub cells: Seq<ScreenChar>,
}

impl Screen {
    pub open spec fn wf(self) -> bool {
        &&& 0 <= self.row < BUFFER_HEIGHT
        &&& 0 <= self.col <= BUFFER_WIDTH
        &&& self.cells.len() == BUFFER_CELLS
    }

    /// The cell at a row and a column.
    pub open spec fn at(self, row: int, col: int) -> ScreenChar {
        self.cells[row * BUFFER_WIDTH + col]
    }

    /// The cells with one row blanked in the current colour.
    pub open spec fn row_cleared(self, row: int) -> Screen {
        Screen {
            cells: Seq::new(
                BUFFER_CELLS as nat,
                |i: int|
                    if row * BUFFER_WIDTH <= i < (row + 1) * BUFFER_WIDTH {
                        blank(self.color)
                    } else {
                        self.cells[i]
                    },
            ),
            ..self
        }
    }

    /// Every row moved up by one, the first row lost, the last row blank.
    pub open spec fn scrolled(self) -> Screen {
        Screen {
            cells: Seq::new(
                BUFFER_CELLS as nat,
                |i: int|
                    if i < BUFFER_CELLS - BUFFER_WIDTH {
                        self.cells[i + BUFFER_WIDTH]
                    } else {
                        blank(self.color)
                    },
            ),
            ..self
        }
    }

    /// The cursor at the start of the next row; at the last row the grid
    /// scrolls instead and the cursor stays in that row.
    pub open spec fn new_line(self) -> Screen {
        if self.row < BUFFER_HEIGHT - 1 {
            Screen { row: self.row + 1, col: 0, ..self }
        } else {
            Screen { col: 0, ..self.scrolled() }
        }
    }

    /// One byte written at the cursor. A newline byte only moves the cursor;
    /// any other byte wraps to a new line first if the row is full.
    pub open spec fn put(self, byte: u8) -> Screen {
        if byte == NEWLINE {
            self.new_line()
        } else {
            let s = if self.col >= BUFFER_WIDTH {
                self.new_line()
            } else {
                self
            };
            Screen {
                col: s.col + 1,
                cells: s.cells.update(
                    s.row * BUFFER_WIDTH + s.col,
                    ScreenChar { ascii_char: byte, color_code: s.color },
                ),
                ..s
            }
        }
    }

    /// The bytes written one after the other, each as it is shown.
    pub open spec fn put_all(self, bytes: Seq<u8>) -> Screen
        decreases bytes.len(),
    {
        if bytes.len() == 0 {
            self
        } else {
            self.put_all(bytes.drop_last()).put(shown(bytes.last()))
        }
    }
}

/// The writer: the grid and the cursor.
pub struct Writer {
    row_position: usize,
    column_position: usize,
    color_code: ColorCode,
    buffer: Vec<ScreenChar>,
}

impl View for Writer {
    type V = Screen;

    closed spec fn view(&self) -> Screen {
        Screen {
            row: self.row_position as int,
            col: self.column_position as int,
            color: self.color_code,
            cells: self.buffer@,
        }
    }
}

impl Writer {
    /// A blank screen in the given colour with the cursor at the top left.
    pub fn new(color_code: ColorCode) -> (writer: Writer)
        ensures
            writer@.wf(),
            writer@.row == 0,
            writer@.col == 0,
            writer@.color == color_code,
            forall|i: int| 0 <= i < BUFFER_CELLS ==> writer@.cells[i] == blank(color_code),
    {
        let mut buffer: Vec<ScreenChar> = Vec::new();
        let mut i: usize = 0;
        while i < BUFFER_CELLS
            invariant
                i <= BUFFER_CELLS,
                buffer.len() == i,
                forall|k: int| 0 <= k < i ==> buffer@[k] == blank(color_code),
            decreases BUFFER_CELLS - i,
        {
            buffer.push(ScreenChar { ascii_char: SPACE, color_code });
            i += 1;
        }
        Writer { row_position: 0, column_position: 0, color_code, buffer }
    }

    pub fn row_position(&self) -> (row: usize)
        ensures
            row == self@.row,
    {
        self.row_position
    }

    pub fn column_position(&self) -> (col: usize)
        ensures
            col == self@.col,
    {
        self.column_position
    }

    /// The cell at a row and a column of the grid.
    pub fn char_at(&self, row: usize, col: usize) -> (cell: ScreenChar)
        requires
            self@.wf(),
            row < BUFFER_HEIGHT,
            col < BUFFER_WIDTH,
        ensures
            cell == self@.at(row as int, col as int),
    {
        self.buffer[row * BUFFER_WIDTH + col]
    }

    pub fn write_byte(&mut self, byte: u8)
        requires
            old(self)@.wf(),
        ensures
            final(self)@ == old(self)@.put(byte),
            final(self)@.wf(),
    {
        match byte {
            NEWLINE => self.new_line(),
            _ => {
                if self.column_position >= BUFFER_WIDTH {
                    self.new_line();
                }
                let row = self.row_position;
                let col = self.column_position;
                self.buffer.set(
                    row * BUFFER_WIDTH + col,
                    ScreenChar { ascii_char: byte, color_code: self.color_code },
                );
                self.column_position += 1;
            },
        }
    }

    pub fn write_string(&mut self, string: &str)
        requires
            old(self)@.wf(),
        ensures
            final(self)@ == old(self)@.put_all(string.spec_bytes()),
            final(self)@.wf(),
    {
        let bytes = string.as_bytes();
        let mut i: usize = 0;
        while i < bytes.len()
            invariant
                i <= bytes@.len(),
                bytes@ == string.spec_bytes(),
                self@.wf(),
                self@ == old(self)@.put_all(bytes@.take(i as int)),
            decreases bytes@.len() - i,
        {
            let byte = bytes[i];
            proof {
                assert(bytes@.take(i + 1).drop_last() =~= bytes@.take(i as int));
            }
            match byte {
                // printable ASCII byte or newline
                0x20..=0x7e | NEWLINE => self.write_byte(byte),
                // not part of printable ASCII range
                _ => self.write_byte(UNPRINTABLE),
            }
            i += 1;
        }
        proof {
            assert(bytes@.take(i as int) =~= bytes@);
        }
    }

    pub fn new_line(&mut self)
        requires
            old(self)@.wf(),
        ensures
            final(self)@ == old(self)@.new_line(),
            final(self)@.wf(),
    {
        if self.row_position < BUFFER_HEIGHT - 1 {
            self.row_position += 1;
        } else {
            let mut i: usize = BUFFER_WIDTH;
            while i < BUFFER_CELLS
                invariant
                    BUFFER_WIDTH <= i <= BUFFER_CELLS,
                    self.buffer.len() == BUFFER_CELLS,
                    self.row_position == old(self).row_position,
                    self.column_position == old(self).column_position,
                    self.color_code == old(self).color_code,
                    forall|k: int|
                        0 <= k < i - BUFFER_WIDTH ==> self.buffer@[k] == old(self).buffer@[k
                            + BUFFER_WIDTH],
                    forall|k: int|
                        i - BUFFER_WIDTH <= k < BUFFER_CELLS ==> self.buffer@[k] == old(
                            self,
                        ).buffer@[k],
                decreases BUFFER_CELLS - i,
            {
                let character = self.buffer[i];
                self.buffer.set(i - BUFFER_WIDTH, character);
                i += 1;
            }
            self.clear_row(BUFFER_HEIGHT - 1);
            proof {
                assert(self@.cells =~= old(self)@.scrolled().cells);
            }
        }
        self.column_position = 0;
    }

    pub fn clear_row(&mut self, row: usize)
        requires
            old(self)@.wf(),
            row < BUFFER_HEIGHT,
        ensures
            final(self)@ == old(self)@.row_cleared(row as int),
            final(self)@.wf(),
    {
        let blank = ScreenChar { ascii_char: SPACE, color_code: self.color_code };
        let start: usize = row * BUFFER_WIDTH;
        let mut col: usize = 0;
        while col < BUFFER_WIDTH
            invariant
                col <= BUFFER_WIDTH,
                start == row * BUFFER_WIDTH,
                row < BUFFER_HEIGHT,
                self.buffer.len() == BUFFER_CELLS,
                self.row_position == old(self).row_position,
                self.column_position == old(self).column_position,
                self.color_code == old(self).color_code,
                blank == self::blank(self.color_code),
                forall|k: int|
                    0 <= k < BUFFER_CELLS ==> self.buffer@[k] == if start <= k < start + col {
                        blank
                    } else {
                        old(self).buffer@[k]
                    },
            decreases BUFFER_WIDTH - col,
        {
            self.buffer.set(start + col, blank);
            col += 1;
        }
        proof {
            assert(self@.cells =~= old(self)@.row_cleared(row as int).cells);
        }
    }
}

} // verus!
