//! The VGA text-mode driver.

use super::console::{hex_digit, hex_text, lemma_put_all_push, Console, BLANK, NEWLINE};
use vstd::prelude::*;
use vstd::string::StringSliceAdditionalSpecFns;

verus! {

/// Number of character columns of the text surface.
pub const VGA_WIDTH: usize = 80;

/// Number of character rows of the text surface.
pub const VGA_HEIGHT: usize = 25;

/// The sixteen colours of the VGA text palette, in palette order.
#[derive(Clone, Copy, Debug, PartialEq, Eq, Structural)]
pub enum Color {
    Black,
    Blue,
    Green,
    Cyan,
    Red,
    Magenta,
    Brown,
    LightGray,
    DarkGray,
    LightBlue,
    LightGreen,
    LightCyan,
    LightRed,
    Pink,
    Yellow,
    White,
}

impl Color {
    /// The palette index of the colour, a number below sixteen.
    pub open spec fn index(self) -> nat {
        match self {
            Color::Black => 0,
            Color::Blue => 1,
            Color::Green => 2,
            Color::Cyan => 3,
            Color::Red => 4,
            Color::Magenta => 5,
            Color::Brown => 6,
            Color::LightGray => 7,
            Color::DarkGray => 8,
            Color::LightBlue => 9,
            Color::LightGreen => 10,
            Color::LightCyan => 11,
            Color::LightRed => 12,
            Color::Pink => 13,
            Color::Yellow => 14,
            Color::White => 15,
        }
    }

    /// The palette index as the hardware expects it in a colour nibble.
    pub fn code(self) -> (code: u8)
        ensures
            code == self.index(),
            code < 16,
    {
        match self {
            Color::Black => 0,
            Color::Blue => 1,
            Color::Green => 2,
            Color::Cyan => 3,
            Color::Red => 4,
            Color::Magenta => 5,
            Color::Brown => 6,
            Color::LightGray => 7,
            Color::DarkGray => 8,
            Color::LightBlue => 9,
            Color::LightGreen => 10,
            Color::LightCyan => 11,
            Color::LightRed => 12,
            Color::Pink => 13,
            Color::Yellow => 14,
            Color::White => 15,
        }
    }
}

/// A foreground and a background colour packed into one attribute byte:
/// the background in the high nibble, the foreground in the low nibble.
#[derive(Clone, Copy, Debug, PartialEq, Eq, Structural)]
pub struct ColorCode(pub u8);

impl ColorCode {
    /// The attribute byte for a pair of colours.
    pub open spec fn pack(foreground: Color, background: Color) -> u8 {
        (16 * background.index() + foreground.index()) as u8
    }

    /// Packs a pair of colours into an attribute byte.
    pub fn new(foreground: Color, background: Color) -> (code: ColorCode)
        ensures
            code.0 == Self::pack(foreground, background),
            code.0 / 16 == background.index(),
            code.0 % 16 == foreground.index(),
    {
        let fg: u8 = foreground.code();
        let bg: u8 = background.code();
        assert((bg << 4 | fg) == 16 * bg + fg) by (bit_vector)
            requires
                fg < 16,
                bg < 16,
        ;
        ColorCode(bg << 4 | fg)
    }
}

/// One cell of the surface: a character code and the colours it is shown in.
#[derive(Clone, Copy, Debug, PartialEq, Eq, Structural)]
pub struct ScreenChar {
    pub ascii_code: u8,
    pub color_code: ColorCode,
}

impl ScreenChar {
    /// The cell as the 16-bit word the hardware reads: the character code in
    /// the low byte, the attribute byte in the high byte.
    pub open spec fn word(self) -> u16 {
        (256 * self.color_code.0 + self.ascii_code) as u16
    }

    /// Encodes the cell as its hardware word.
    pub fn to_bits(self) -> (bits: u16)
        ensures
            bits == self.word(),
            bits % 256 == self.ascii_code,
            bits / 256 == self.color_code.0,
    {
        let low: u8 = self.ascii_code;
        let high: u8 = self.color_code.0;
        assert(((high as u16) << 8 | (low as u16)) == 256 * high + low) by (bit_vector);
        (high as u16) << 8 | (low as u16)
    }

    /// Decodes a hardware word into the cell it shows.
    pub fn from_bits(bits: u16) -> (cell: ScreenChar)
        ensures
            cell.word() == bits,
            cell.ascii_code == bits % 256,
            cell.color_code.0 == bits / 256,
    {
        assert((bits & 0xFF) == bits % 256) by (bit_vector);
        assert((bits >> 8) == bits / 256) by (bit_vector);
        assert((bits & 0xFF) < 256 && (bits >> 8) < 256) by (bit_vector);
        ScreenChar { ascii_code: (bits & 0xFF) as u8, color_code: ColorCode((bits >> 8) as u8) }
    }
}

/// The cells of the text surface, held row by row.
pub struct Buffer {
    chars: [[ScreenChar; VGA_WIDTH]; VGA_HEIGHT],
}

impl Buffer {
    /// The rows of the surface from the top, each a sequence of cells from
    /// the left.
    pub closed spec fn view(&self) -> Seq<Seq<ScreenChar>> {
        Seq::new(VGA_HEIGHT as nat, |row: int| self.chars@[row]@)
    }

    /// The view always has the dimensions of the surface.
    pub proof fn lemma_dimensions(&self)
        ensures
            self@.len() == VGA_HEIGHT,
            forall|row: int| 0 <= row < VGA_HEIGHT ==> (#[trigger] self@[row]).len() == VGA_WIDTH,
    {
    }

    /// A surface with the same cell everywhere.
    pub fn new(fill: ScreenChar) -> (buffer: Buffer)
        ensures
            buffer@.len() == VGA_HEIGHT,
            forall|row: int| 0 <= row < VGA_HEIGHT ==> (#[trigger] buffer@[row]).len() == VGA_WIDTH,
            forall|row: int, column: int|
                0 <= row < VGA_HEIGHT && 0 <= column < VGA_WIDTH ==> buffer@[row][column] == fill,
    {
        Buffer { chars: [[fill; VGA_WIDTH]; VGA_HEIGHT] }
    }

    /// Stores one cell.
    pub fn write(&mut self, row: usize, col: usize, char: ScreenChar)
        requires
            row < VGA_HEIGHT,
            col < VGA_WIDTH,
        ensures
            final(self)@ == old(self)@.update(
                row as int,
                old(self)@[row as int].update(col as int, char),
            ),
        no_unwind
    {
        self.chars[row][col] = char;
    }

    /// Loads one cell.
    pub fn read(&self, row: usize, col: usize) -> (char: ScreenChar)
        requires
            row < VGA_HEIGHT,
            col < VGA_WIDTH,
        ensures
            char == self@[row as int][col as int],
    {
        self.chars[row][col]
    }
}

/// The console writer: it owns the surface, the cursor column on the bottom
/// row and the colours it writes with.
pub struct Writer {
    column_position: usize,
    color_code: ColorCode,
    buffer: Buffer,
}

impl Writer {
    #[verifier::type_invariant]
    spec fn cursor_in_row(self) -> bool {
        self.column_position <= VGA_WIDTH
    }

    /// What the console shows and where its cursor stands.
    pub closed spec fn view(&self) -> Console {
        Console {
            cells: self.buffer@,
            column: self.column_position as nat,
            color: self.color_code,
        }
    }

    /// A writer over the given surface, with the cursor at the start of the
    /// bottom row. The surface is taken as it is.
    pub fn new(foreground: Color, background: Color, buffer: Buffer) -> (writer: Writer)
        ensures
            writer@.cells == buffer@,
            writer@.column == 0,
            writer@.color.0 == ColorCode::pack(foreground, background),
            writer@.wf(),
    {
        proof {
            buffer.lemma_dimensions();
        }
        Writer { column_position: 0, color_code: ColorCode::new(foreground, background), buffer }
    }

    /// Writes the text byte by byte, in its UTF-8 encoding.
    pub fn write(&mut self, text: &str)
        ensures
            final(self)@ == old(self)@.put_all(text.spec_bytes()),
            final(self)@.wf(),
    {
        let bytes = text.as_bytes();
        proof {
            use_type_invariant(&*self);
            self.buffer.lemma_dimensions();
        }
        for i in 0..bytes.len()
            invariant
                bytes@ == text.spec_bytes(),
                self@ == old(self)@.put_all(bytes@.take(i as int)),
                self@.wf(),
        {
            proof {
                assert(bytes@.take(i + 1).drop_last() =~= bytes@.take(i as int));
            }
            self.write_byte(bytes[i]);
        }
        proof {
            assert(bytes@.take(bytes@.len() as int) =~= bytes@);
        }
    }

    /// Writes one byte. A newline scrolls the console. Any other byte goes
    /// to the cursor on the bottom row, after a scroll if that row is full,
    /// and moves the cursor one column on.
    #[inline]
    pub fn write_byte(&mut self, chr: u8)
        ensures
            final(self)@ == old(self)@.put(chr),
            final(self)@.wf(),
    {
        proof {
            use_type_invariant(&*self);
        }
        match chr {
            NEWLINE => {
                self.new_line();
            },
            byte => {
                if self.column_position >= VGA_WIDTH {
                    self.new_line();
                }
                proof {
                    use_type_invariant(&*self);
                }
                self.send_bytes(VGA_HEIGHT - 1, self.column_position, byte);
                self.column_position += 1;
            },
        }
    }

    /// Writes the last `digits` digits of `value` in base sixteen, most
    /// significant first, with leading zeros where the value is short.
    pub fn write_hex(&mut self, value: u64, digits: u8)
        ensures
            final(self)@ == old(self)@.put_all(hex_text(value as nat, digits as nat)),
            final(self)@.wf(),
        decreases digits,
    {
        if digits == 0 {
            proof {
                use_type_invariant(&*self);
                self.buffer.lemma_dimensions();
            }
        } else {
            self.write_hex(value / 16, digits - 1);
            let nibble: u8 = (value % 16) as u8;
            let digit: u8 = if nibble < 10 {
                0x30 + nibble
            } else {
                0x41 + (nibble - 10)
            };
            proof {
                lemma_put_all_push(
                    old(self)@,
                    hex_text((value / 16) as nat, (digits - 1) as nat),
                    hex_digit((value % 16) as int),
                );
            }
            self.write_byte(digit);
        }
    }

    /// Blanks every cell of the surface. The cursor does not move.
    pub fn clean(&mut self)
        ensures
            final(self)@ == old(self)@.clear(),
            final(self)@.wf(),
    {
        proof {
            use_type_invariant(&*self);
            self.buffer.lemma_dimensions();
        }
        for i in 0..VGA_HEIGHT
            invariant
                self.column_position == old(self).column_position,
                self.color_code == old(self).color_code,
                forall|row: int| 0 <= row < i ==> #[trigger] self.buffer@[row] == self@.blank_row(),
        {
            for j in 0..VGA_WIDTH
                invariant
                    i < VGA_HEIGHT,
                    self.column_position == old(self).column_position,
                    self.color_code == old(self).color_code,
                    forall|row: int|
                        0 <= row < i ==> #[trigger] self.buffer@[row] == self@.blank_row(),
                    forall|column: int|
                        0 <= column < j ==> #[trigger] self.buffer@[i as int][column]
                            == self@.glyph(BLANK),
            {
                self.send_bytes(i, j, BLANK);
            }
            proof {
                self.buffer.lemma_dimensions();
                assert(self.buffer@[i as int] =~= self@.blank_row());
            }
        }
        proof {
            self.buffer.lemma_dimensions();
            assert(self@.cells =~= old(self)@.clear().cells);
        }
    }

    /// Deletes the last character of the bottom row: the cursor steps back
    /// one column and the cell it then stands on is blanked. With the cursor
    /// at the start of the row nothing happens.
    pub fn delete_last_char(&mut self)
        ensures
            final(self)@ == old(self)@.delete_last(),
            final(self)@.wf(),
    {
        proof {
            use_type_invariant(&*self);
            self.buffer.lemma_dimensions();
        }
        if self.column_position > 0 {
            self.column_position -= 1;
            self.send_bytes(VGA_HEIGHT - 1, self.column_position, BLANK);
        }
    }

    /// The column of the bottom row that the next byte goes to.
    pub fn column_position(&self) -> (column: usize)
        ensures
            column == self@.column,
            column <= VGA_WIDTH,
    {
        proof {
            use_type_invariant(self);
        }
        self.column_position
    }

    /// The colours the writer writes with.
    pub fn color_code(&self) -> (color: ColorCode)
        ensures
            color == self@.color,
    {
        self.color_code
    }

    /// The cell shown at the given row and column.
    pub fn cell(&self, row: usize, col: usize) -> (char: ScreenChar)
        requires
            row < VGA_HEIGHT,
            col < VGA_WIDTH,
        ensures
            char == self@.cells[row as int][col as int],
    {
        self.buffer.read(row, col)
    }

    /// Stores one byte in the writer's colours at the given cell.
    fn send_bytes(&mut self, row: usize, col: usize, byte: u8)
        requires
            row < VGA_HEIGHT,
            col < VGA_WIDTH,
        ensures
            final(self).column_position == old(self).column_position,
            final(self).color_code == old(self).color_code,
            final(self).buffer@ == old(self).buffer@.update(
                row as int,
                old(self).buffer@[row as int].update(col as int, old(self)@.glyph(byte)),
            ),
    {
        proof {
            use_type_invariant(&*self);
        }
        let bytes = ScreenChar { color_code: self.color_code, ascii_code: byte };
        self.buffer.write(row, col, bytes);
    }

    /// Scrolls the console by one line: each row takes the cells of the row
    /// below it, the bottom row is blanked and the cursor returns to its
    /// start.
    pub fn new_line(&mut self)
        ensures
            final(self)@ == old(self)@.scroll(),
            final(self)@.wf(),
    {
        self.column_position = 0;
        proof {
            self.buffer.lemma_dimensions();
        }

        for i in 0..(VGA_HEIGHT - 1)
            invariant
                self.column_position == 0,
                self.color_code == old(self).color_code,
                forall|row: int|
                    0 <= row < i ==> #[trigger] self.buffer@[row] == old(self).buffer@[row + 1],
                forall|row: int|
                    i <= row < VGA_HEIGHT ==> #[trigger] self.buffer@[row] == old(
                        self,
                    ).buffer@[row],
        {
            for j in 0..VGA_WIDTH
                invariant
                    i < VGA_HEIGHT - 1,
                    self.column_position == 0,
                    self.color_code == old(self).color_code,
                    forall|row: int|
                        0 <= row < i ==> #[trigger] self.buffer@[row] == old(self).buffer@[row + 1],
                    forall|row: int|
                        i < row < VGA_HEIGHT ==> #[trigger] self.buffer@[row] == old(
                            self,
                        ).buffer@[row],
                    forall|column: int|
                        0 <= column < j ==> #[trigger] self.buffer@[i as int][column] == old(
                            self,
                        ).buffer@[i + 1][column],
            {
                let value = self.buffer.read(i + 1, j);
                self.buffer.write(i, j, value);
            }
            proof {
                self.buffer.lemma_dimensions();
                old(self).buffer.lemma_dimensions();
                assert(self.buffer@[i as int] =~= old(self).buffer@[i + 1]);
            }
        }

        let value = ScreenChar { color_code: self.color_code, ascii_code: BLANK };
        for i in 0..VGA_WIDTH
            invariant
                self.column_position == 0,
                self.color_code == old(self).color_code,
                value == self@.glyph(BLANK),
                forall|row: int|
                    0 <= row < VGA_HEIGHT - 1 ==> #[trigger] self.buffer@[row] == old(
                        self,
                    ).buffer@[row + 1],
                forall|column: int|
                    0 <= column < i ==> #[trigger] self.buffer@[VGA_HEIGHT - 1][column] == value,
        {
            self.buffer.write(VGA_HEIGHT - 1, i, value);
        }
        proof {
            self.buffer.lemma_dimensions();
            old(self).buffer.lemma_dimensions();
            assert(self.buffer@[VGA_HEIGHT - 1] =~= old(self)@.blank_row());
            assert(self@.cells =~= old(self)@.scroll().cells);
        }
    }
}

} // verus!
