//! The console as a mathematical object: a grid of cells, a cursor column
//! and a colour, with the effect of every operation of the writer on them.

use super::vga::{ColorCode, ScreenChar, VGA_HEIGHT, VGA_WIDTH};
use vstd::prelude::*;

verus! {

/// The byte that ends a line.
pub const NEWLINE: u8 = 0x0A;

/// The byte an empty cell shows: a space.
pub const BLANK: u8 = 0x20;

/// What the console looks like at one moment.
pub struct Console {
    /// The cells, row by row from the top, each row from the left.
    pub cells: Seq<Seq<ScreenChar>>,
    /// The column of the bottom row that the next byte goes to. It equals the
    /// width when the bottom row is full.
    pub column: nat,
    /// The colours every byte is written with.
    pub color: ColorCode,
}

impl Console {
    /// The grid has the dimensions of the surface and the cursor is on the
    /// bottom row or just behind its end.
    pub open spec fn wf(self) -> bool {
        &&& self.cells.len() == VGA_HEIGHT
        &&& forall|row: int|
            0 <= row < VGA_HEIGHT ==> (#[trigger] self.cells[row]).len() == VGA_WIDTH
        &&& self.column <= VGA_WIDTH
    }

    /// The cell that shows `byte` in the console's colours.
    pub open spec fn glyph(self, byte: u8) -> ScreenChar {
        ScreenChar { ascii_code: byte, color_code: self.color }
    }

    /// A row of blank cells in the console's colours.
    pub open spec fn blank_row(self) -> Seq<ScreenChar> {
        Seq::new(VGA_WIDTH as nat, |column: int| self.glyph(BLANK))
    }

    /// The console after a line feed: every row has moved up by one, the top
    /// row is gone, the bottom row is blank and the cursor is at its start.
    pub open spec fn scroll(self) -> Console {
        Console {
            cells: self.cells.drop_first().push(self.blank_row()),
            column: 0,
            color: self.color,
        }
    }

    /// The console after `byte` is stored under the cursor and the cursor has
    /// moved one column to the right.
    pub open spec fn place(self, byte: u8) -> Console {
        let bottom = VGA_HEIGHT - 1;
        Console {
            cells: self.cells.update(
                bottom,
                self.cells[bottom].update(self.column as int, self.glyph(byte)),
            ),
            column: self.column + 1,
            color: self.color,
        }
    }

    /// Whether writing `byte` scrolls the console: a newline always does,
    /// any other byte when the bottom row is full.
    pub open spec fn scrolls_on(self, byte: u8) -> bool {
        byte == NEWLINE || self.column >= VGA_WIDTH
    }

    /// The console after one byte is written: a newline scrolls; any other
    /// byte is placed under the cursor, after a scroll if the row was full.
    pub open spec fn put(self, byte: u8) -> Console {
        let start = if self.scrolls_on(byte) {
            self.scroll()
        } else {
            self
        };
        if byte == NEWLINE {
            start
        } else {
            start.place(byte)
        }
    }

    /// The console after the bytes are written one by one, first to last.
    pub open spec fn put_all(self, bytes: Seq<u8>) -> Console
        decreases bytes.len(),
    {
        if bytes.len() == 0 {
            self
        } else {
            self.put_all(bytes.drop_last()).put(bytes.last())
        }
    }

    /// How many times the console scrolls while the bytes are written.
    pub open spec fn scroll_count(self, bytes: Seq<u8>) -> nat
        decreases bytes.len(),
    {
        if bytes.len() == 0 {
            0
        } else {
            let before = self.put_all(bytes.drop_last());
            let last: nat = if before.scrolls_on(bytes.last()) {
                1
            } else {
                0
            };
            self.scroll_count(bytes.drop_last()) + last
        }
    }

    /// The console with every cell blank. The cursor stays where it is.
    pub open spec fn clear(self) -> Console {
        Console {
            cells: Seq::new(VGA_HEIGHT as nat, |row: int| self.blank_row()),
            column: self.column,
            color: self.color,
        }
    }

    /// The console after the last character of the bottom row is deleted:
    /// the cursor steps back one column and the cell it then stands on is
    /// blanked. At the start of the row there is nothing to delete and the
    /// console stays as it is; the rows above are never reached.
    pub open spec fn delete_last(self) -> Console {
        if self.column == 0 {
            self
        } else {
            let bottom = VGA_HEIGHT - 1;
            let column = (self.column - 1) as nat;
            Console {
                cells: self.cells.update(
                    bottom,
                    self.cells[bottom].update(column as int, self.glyph(BLANK)),
                ),
                column,
                color: self.color,
            }
        }
    }
}

/// The ASCII digit for a value below sixteen, capitals for ten and above.
pub open spec fn hex_digit(value: int) -> u8 {
    if value < 10 {
        (0x30 + value) as u8
    } else {
        (0x41 + value - 10) as u8
    }
}

/// The last `digits` digits of `value` in base sixteen, most significant
/// first, with leading zeros where the value is short.
pub open spec fn hex_text(value: nat, digits: nat) -> Seq<u8>
    decreases digits,
{
    if digits == 0 {
        Seq::empty()
    } else {
        hex_text(value / 16, (digits - 1) as nat).push(hex_digit((value % 16) as int))
    }
}

/// Whether none of the bytes is a newline.
pub open spec fn no_newline(bytes: Seq<u8>) -> bool {
    forall|i: int| 0 <= i < bytes.len() ==> bytes[i] != NEWLINE
}

/// The cell that row `row`, column `column` shows after `bytes`, free of
/// newlines, were written to `start` with its cursor at the start of the row,
/// where writing them took `scrolls` scrolls. Line `l` of the text, its bytes
/// from `l * width` on, stands `scrolls - l` rows above the bottom. Rows above
/// the text still show what `start` showed `scrolls` rows further down. To the
/// right of the last byte the bottom row is blank, or as in `start` if the
/// console never scrolled.
pub open spec fn shown_after(
    start: Console,
    bytes: Seq<u8>,
    scrolls: nat,
    row: int,
    column: int,
) -> ScreenChar {
    let line = row - (VGA_HEIGHT - 1) + scrolls;
    if line < 0 {
        start.cells[row + scrolls][column]
    } else if line * VGA_WIDTH + column < bytes.len() {
        start.glyph(bytes[line * VGA_WIDTH + column])
    } else if scrolls == 0 {
        start.cells[row][column]
    } else {
        start.glyph(BLANK)
    }
}

/// Scrolling keeps the console well formed, moves each row up by one and
/// leaves a blank bottom row with the cursor at its start.
pub proof fn lemma_scroll(start: Console)
    requires
        start.wf(),
    ensures
        start.scroll().wf(),
        start.scroll().column == 0,
        start.scroll().color == start.color,
        forall|row: int|
            0 <= row < VGA_HEIGHT - 1 ==> #[trigger] start.scroll().cells[row] == start.cells[row
                + 1],
        start.scroll().cells[VGA_HEIGHT - 1] == start.blank_row(),
{
    let after = start.scroll();
    assert forall|row: int| 0 <= row < VGA_HEIGHT implies (#[trigger] after.cells[row]).len()
        == VGA_WIDTH by {
        if row < VGA_HEIGHT - 1 {
            assert(after.cells[row] == start.cells[row + 1]);
        }
    }
}

/// Writing a byte keeps the console well formed and its colours unchanged.
pub proof fn lemma_put_wf(start: Console, byte: u8)
    requires
        start.wf(),
    ensures
        start.put(byte).wf(),
        start.put(byte).color == start.color,
{
    lemma_scroll(start);
}

/// Writing any bytes keeps the console well formed and its colours
/// unchanged.
pub proof fn lemma_put_all_wf(start: Console, bytes: Seq<u8>)
    requires
        start.wf(),
    ensures
        start.put_all(bytes).wf(),
        start.put_all(bytes).color == start.color,
    decreases bytes.len(),
{
    if bytes.len() > 0 {
        lemma_put_all_wf(start, bytes.drop_last());
        lemma_put_wf(start.put_all(bytes.drop_last()), bytes.last());
    }
}

/// Writing a text and then one byte more is writing the text with the byte
/// at its end.
pub proof fn lemma_put_all_push(start: Console, bytes: Seq<u8>, byte: u8)
    ensures
        start.put_all(bytes.push(byte)) == start.put_all(bytes).put(byte),
{
    assert(bytes.push(byte).drop_last() =~= bytes);
}

/// Writing one text and then another is writing the two joined, and the
/// scrolls add up.
pub proof fn lemma_put_all_concat(start: Console, first: Seq<u8>, second: Seq<u8>)
    ensures
        start.put_all(first + second) == start.put_all(first).put_all(second),
        start.scroll_count(first + second) == start.scroll_count(first) + start.put_all(
            first,
        ).scroll_count(second),
    decreases second.len(),
{
    if second.len() == 0 {
        assert(first + second =~= first);
    } else {
        assert((first + second).drop_last() =~= first + second.drop_last());
        lemma_put_all_concat(start, first, second.drop_last());
    }
}

/// What the console shows after a text without newlines was written from the
/// start of the bottom row. With the text `scrolls` full rows and `column`
/// bytes long, `column` between one and the width, the console has scrolled
/// `scrolls` times, the cursor stands at `column`, and every cell is the one
/// that `shown_after` names.
pub proof fn lemma_put_all_text(start: Console, bytes: Seq<u8>, scrolls: nat, column: nat)
    requires
        start.wf(),
        start.column == 0,
        no_newline(bytes),
        1 <= column <= VGA_WIDTH,
        bytes.len() == scrolls * VGA_WIDTH + column,
    ensures
        start.put_all(bytes).wf(),
        start.put_all(bytes).color == start.color,
        start.put_all(bytes).column == column,
        start.scroll_count(bytes) == scrolls,
        forall|row: int, col: int|
            0 <= row < VGA_HEIGHT && 0 <= col < VGA_WIDTH ==> #[trigger] start.put_all(
                bytes,
            ).cells[row][col] == shown_after(start, bytes, scrolls, row, col),
    decreases bytes.len(),
{
    let head = bytes.drop_last();
    let byte = bytes.last();
    let before = start.put_all(head);
    let after = start.put_all(bytes);
    lemma_put_all_wf(start, head);
    lemma_put_wf(before, byte);
    if bytes.len() == 1 {
        // The first byte: it is placed at the start of the row, in place.
        assert(head =~= Seq::<u8>::empty());
        assert(start.scroll_count(head) == 0);
        assert(after == start.place(byte));
    } else if column > 1 {
        // The row has room: the byte is placed behind the others.
        lemma_put_all_text(start, head, scrolls, (column - 1) as nat);
        assert(after == before.place(byte));
    } else {
        // The row was full: the console scrolls and the byte starts a row.
        lemma_put_all_text(start, head, (scrolls - 1) as nat, VGA_WIDTH as nat);
        lemma_scroll(before);
        assert(after == before.scroll().place(byte));
        assert forall|row: int, col: int|
            0 <= row < VGA_HEIGHT && 0 <= col < VGA_WIDTH implies #[trigger] after.cells[row][col]
            == shown_after(start, bytes, scrolls, row, col) by {
            if row < VGA_HEIGHT - 1 {
                assert(after.cells[row][col] == before.cells[row + 1][col]);
                assert(before.cells[row + 1][col] == shown_after(
                    start,
                    head,
                    (scrolls - 1) as nat,
                    row + 1,
                    col,
                ));
            }
        }
    }
}

/// Writing as many bytes as the surface has cells, none of them a newline,
/// from the start of the bottom row fills the whole surface with them in
/// row-major order: byte `row * width + column` shows at that row and column,
/// and nothing of what the console showed before is left.
pub proof fn lemma_full_screen(start: Console, bytes: Seq<u8>)
    requires
        start.wf(),
        start.column == 0,
        no_newline(bytes),
        bytes.len() == VGA_HEIGHT * VGA_WIDTH,
    ensures
        start.put_all(bytes).wf(),
        start.put_all(bytes).column == VGA_WIDTH,
        start.scroll_count(bytes) == VGA_HEIGHT - 1,
        forall|row: int, column: int|
            0 <= row < VGA_HEIGHT && 0 <= column < VGA_WIDTH ==> #[trigger] start.put_all(
                bytes,
            ).cells[row][column] == start.glyph(bytes[row * VGA_WIDTH + column]),
{
    let rows = (VGA_HEIGHT - 1) as nat;
    lemma_put_all_text(start, bytes, rows, VGA_WIDTH as nat);
    assert forall|row: int, column: int|
        0 <= row < VGA_HEIGHT && 0 <= column < VGA_WIDTH implies #[trigger] start.put_all(
        bytes,
    ).cells[row][column] == start.glyph(bytes[row * VGA_WIDTH + column]) by {
        assert(start.put_all(bytes).cells[row][column] == shown_after(
            start,
            bytes,
            rows,
            row,
            column,
        ));
    }
}

/// Writing a newline moves the cursor to the start of a fresh bottom row:
/// every row shows what the row below it showed, the former top row is lost
/// and the bottom row is blank.
pub proof fn lemma_newline(start: Console)
    requires
        start.wf(),
    ensures
        start.put(NEWLINE) == start.scroll(),
        start.put(NEWLINE).column == 0,
        forall|row: int|
            0 <= row < VGA_HEIGHT - 1 ==> #[trigger] start.put(NEWLINE).cells[row]
                == start.cells[row + 1],
        forall|column: int|
            0 <= column < VGA_WIDTH ==> #[trigger] start.put(NEWLINE).cells[VGA_HEIGHT
                - 1][column] == start.glyph(BLANK),
        start.scroll_count(seq![NEWLINE]) == 1,
{
    lemma_scroll(start);
    assert(seq![NEWLINE].drop_last() =~= Seq::<u8>::empty());
    assert(start.scroll_count(seq![NEWLINE].drop_last()) == 0);
}

/// Writing one byte more than a row holds, without a newline, from the start
/// of the bottom row scrolls the console exactly once, and only when the last
/// byte arrives: the first `width` bytes fill the bottom row in place, then
/// the row moves up as a whole and the last byte starts the new bottom row.
pub proof fn lemma_column_wrap(start: Console, bytes: Seq<u8>)
    requires
        start.wf(),
        start.column == 0,
        no_newline(bytes),
        bytes.len() == VGA_WIDTH + 1,
    ensures
        start.scroll_count(bytes.take(VGA_WIDTH as int)) == 0,
        start.scroll_count(bytes) == 1,
        start.put_all(bytes.take(VGA_WIDTH as int)).scrolls_on(bytes[VGA_WIDTH as int]),
        start.put_all(bytes).column == 1,
        forall|row: int|
            0 <= row < VGA_HEIGHT - 1 ==> #[trigger] start.put_all(
                bytes.take(VGA_WIDTH as int),
            ).cells[row] == start.cells[row],
        forall|row: int|
            0 <= row < VGA_HEIGHT - 2 ==> #[trigger] start.put_all(bytes).cells[row]
                == start.cells[row + 1],
        forall|column: int|
            0 <= column < VGA_WIDTH ==> #[trigger] start.put_all(bytes).cells[VGA_HEIGHT
                - 2][column] == start.glyph(bytes[column]),
        start.put_all(bytes).cells[VGA_HEIGHT - 1][0] == start.glyph(bytes[VGA_WIDTH as int]),
        forall|column: int|
            1 <= column < VGA_WIDTH ==> #[trigger] start.put_all(bytes).cells[VGA_HEIGHT
                - 1][column] == start.glyph(BLANK),
{
    let row_bytes = bytes.take(VGA_WIDTH as int);
    let filled = start.put_all(row_bytes);
    let after = start.put_all(bytes);
    lemma_put_all_text(start, row_bytes, 0, VGA_WIDTH as nat);
    lemma_put_all_text(start, bytes, 1, 1);
    assert forall|row: int| 0 <= row < VGA_HEIGHT - 1 implies #[trigger] filled.cells[row]
        == start.cells[row] by {
        assert forall|column: int| 0 <= column < VGA_WIDTH implies filled.cells[row][column]
            == start.cells[row][column] by {
            assert(filled.cells[row][column] == shown_after(start, row_bytes, 0, row, column));
        }
        assert(filled.cells[row] =~= start.cells[row]);
    }
    assert forall|row: int| 0 <= row < VGA_HEIGHT - 2 implies #[trigger] after.cells[row]
        == start.cells[row + 1] by {
        assert forall|column: int| 0 <= column < VGA_WIDTH implies after.cells[row][column]
            == start.cells[row + 1][column] by {
            assert(after.cells[row][column] == shown_after(start, bytes, 1, row, column));
        }
        assert(after.cells[row] =~= start.cells[row + 1]);
    }
    assert forall|column: int| 0 <= column < VGA_WIDTH implies #[trigger] after.cells[VGA_HEIGHT
        - 2][column] == start.glyph(bytes[column]) by {
        assert(after.cells[VGA_HEIGHT - 2][column] == shown_after(
            start,
            bytes,
            1,
            VGA_HEIGHT - 2,
            column,
        ));
    }
    assert forall|column: int| 0 <= column < VGA_WIDTH implies #[trigger] after.cells[VGA_HEIGHT
        - 1][column] == shown_after(start, bytes, 1, VGA_HEIGHT - 1, column) by {}
}

} // verus!
