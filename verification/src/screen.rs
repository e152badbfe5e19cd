//! The mathematical model of the text display: a grid of cells, a cursor
//! column and the active colour, with the effect of every write given as a
//! function on that model, and what follows from those functions.

use crate::vga_buffer::{ColorCode, ScreenChar};
use vstd::prelude::*;

verus! {

/// The line-feed byte.
pub const NEWLINE: u8 = 0x0a;

/// The byte of an empty cell.
pub const BLANK: u8 = 0x20;

/// The glyph shown in place of a byte that has no printable form.
pub const REPLACEMENT_GLYPH: u8 = 0xfe;

/// Printable ASCII: space up to tilde.
pub open spec fn is_printable(byte: u8) -> bool {
    0x20 <= byte <= 0x7e
}

/// The byte that a string write hands to the display for `byte`: the byte
/// itself when it is printable or a line feed, the replacement glyph
/// otherwise.
pub open spec fn glyph(byte: u8) -> u8 {
    if is_printable(byte) || byte == NEWLINE {
        byte
    } else {
        REPLACEMENT_GLYPH
    }
}

/// The bytes that a string write hands to the display for `bytes`.
pub open spec fn glyphs(bytes: Seq<u8>) -> Seq<u8> {
    bytes.map_values(|byte: u8| glyph(byte))
}

/// The state of a display: `rows[0]` is the top line, the last row is the
/// line being written, `column` is where the next character goes.
pub struct Screen {
    pub width: nat,
    pub rows: Seq<Seq<ScreenChar>>,
    pub column: nat,
    pub color: ColorCode,
}

impl Screen {
    /// At least one row and one column, every row as wide as the grid, the
    /// cursor inside the line or just past its end.
    pub open spec fn wf(self) -> bool {
        &&& 0 < self.width
        &&& 0 < self.rows.len()
        &&& self.column <= self.width
        &&& forall|r: int| 0 <= r < self.rows.len() ==> (#[trigger] self.rows[r]).len() == self.width
    }

    pub open spec fn height(self) -> nat {
        self.rows.len()
    }

    /// The cell at `row`, `col`.
    pub open spec fn cell(self, row: int, col: int) -> ScreenChar
        recommends
            0 <= row < self.rows.len(),
            0 <= col < self.rows[row].len(),
    {
        self.rows[row][col]
    }

    /// The line being written.
    pub open spec fn bottom(self) -> Seq<ScreenChar> {
        self.rows.last()
    }

    /// `byte` in the active colour.
    pub open spec fn inked(self, byte: u8) -> ScreenChar {
        ScreenChar { ascii_character: byte, color_code: self.color }
    }

    /// A line of blanks in the active colour.
    pub open spec fn blank_row(self) -> Seq<ScreenChar> {
        Seq::new(self.width, |c: int| self.inked(BLANK))
    }

    /// Scrolling: the top line leaves, every other line moves up by one, a
    /// blank line enters at the bottom and the cursor returns to column 0.
    pub open spec fn new_line(self) -> Screen {
        Screen { rows: self.rows.drop_first().push(self.blank_row()), column: 0, ..self }
    }

    /// `byte` placed at the cursor, which then moves one column right.
    pub open spec fn put(self, byte: u8) -> Screen {
        let last = self.rows.len() - 1;
        Screen {
            rows: self.rows.update(last, self.rows[last].update(self.column as int, self.inked(byte))),
            column: self.column + 1,
            ..self
        }
    }

    /// One byte written: a line feed scrolls; any other byte is placed at the
    /// cursor, after a scroll if the line is full.
    pub open spec fn write_byte(self, byte: u8) -> Screen {
        if byte == NEWLINE {
            self.new_line()
        } else if self.column >= self.width {
            self.new_line().put(byte)
        } else {
            self.put(byte)
        }
    }

    /// The bytes written one after the other from the left, each as it is.
    pub open spec fn write_bytes(self, bytes: Seq<u8>) -> Screen
        decreases bytes.len(),
    {
        if bytes.len() == 0 {
            self
        } else {
            self.write_bytes(bytes.drop_last()).write_byte(bytes.last())
        }
    }

    /// A string written: every byte goes through `glyph` first.
    pub open spec fn write_string(self, bytes: Seq<u8>) -> Screen {
        self.write_bytes(glyphs(bytes))
    }

    /// A line break on a display that keeps every line: a blank line is
    /// appended, nothing leaves, and the cursor returns to column 0.
    pub open spec fn log_break(self) -> Screen {
        Screen { rows: self.rows.push(self.blank_row()), column: 0, ..self }
    }

    /// `write_byte` on a display that keeps every line.
    pub open spec fn log_byte(self, byte: u8) -> Screen {
        if byte == NEWLINE {
            self.log_break()
        } else if self.column >= self.width {
            self.log_break().put(byte)
        } else {
            self.put(byte)
        }
    }

    /// `write_bytes` on a display that keeps every line: the transcript of
    /// all that was written.
    pub open spec fn log_bytes(self, bytes: Seq<u8>) -> Screen
        decreases bytes.len(),
    {
        if bytes.len() == 0 {
            self
        } else {
            self.log_bytes(bytes.drop_last()).log_byte(bytes.last())
        }
    }

    /// The display cut down to its last `height` rows.
    pub open spec fn tail(self, height: nat) -> Screen
        recommends
            height <= self.rows.len(),
    {
        Screen {
            rows: self.rows.subrange(self.rows.len() - height, self.rows.len() as int),
            ..self
        }
    }
}

/// Writing a byte keeps the display well formed, its dimensions and its
/// colour.
pub proof fn write_byte_keeps_shape(screen: Screen, byte: u8)
    requires
        screen.wf(),
    ensures
        screen.write_byte(byte).wf(),
        screen.write_byte(byte).width == screen.width,
        screen.write_byte(byte).height() == screen.height(),
        screen.write_byte(byte).color == screen.color,
{
}

/// Writing bytes keeps the display well formed, its dimensions and its
/// colour.
pub proof fn write_bytes_keeps_shape(screen: Screen, bytes: Seq<u8>)
    requires
        screen.wf(),
    ensures
        screen.write_bytes(bytes).wf(),
        screen.write_bytes(bytes).width == screen.width,
        screen.write_bytes(bytes).height() == screen.height(),
        screen.write_bytes(bytes).color == screen.color,
    decreases bytes.len(),
{
    if bytes.len() > 0 {
        write_bytes_keeps_shape(screen, bytes.drop_last());
        write_byte_keeps_shape(screen.write_bytes(bytes.drop_last()), bytes.last());
    }
}

/// Writing one byte is writing the sequence of that byte.
pub proof fn write_byte_is_write_bytes(screen: Screen, byte: u8)
    ensures
        screen.write_bytes(seq![byte]) == screen.write_byte(byte),
{
    let one = seq![byte];
    assert(one.drop_last() =~= Seq::<u8>::empty());
    assert(screen.write_bytes(one.drop_last()) == screen);
    assert(one.last() == byte);
}

/// Bytes written in pieces leave the display as the whole sequence does.
proof fn bytes_in_pieces(screen: Screen, first: Seq<u8>, second: Seq<u8>)
    ensures
        screen.write_bytes(first + second) == screen.write_bytes(first).write_bytes(second),
    decreases second.len(),
{
    if second.len() == 0 {
        assert(first + second =~= first);
    } else {
        bytes_in_pieces(screen, first, second.drop_last());
        assert((first + second).drop_last() =~= first + second.drop_last());
    }
}

/// Text written in pieces leaves the display as the whole text does, for
/// bytes written as they are and for strings. So formatted output, which
/// arrives piece by piece, shows as the formatted text written at once.
pub proof fn pieces_write_as_whole(screen: Screen, first: Seq<u8>, second: Seq<u8>)
    ensures
        screen.write_bytes(first + second) == screen.write_bytes(first).write_bytes(second),
        screen.write_string(first + second) == screen.write_string(first).write_string(second),
{
    bytes_in_pieces(screen, first, second);
    bytes_in_pieces(screen, glyphs(first), glyphs(second));
    assert(glyphs(first + second) =~= glyphs(first) + glyphs(second));
}

/// A string of printable bytes is written as it is.
pub proof fn printable_string_is_written_raw(screen: Screen, bytes: Seq<u8>)
    requires
        forall|i: int| 0 <= i < bytes.len() ==> is_printable(#[trigger] bytes[i]),
    ensures
        screen.write_string(bytes) == screen.write_bytes(bytes),
{
    assert(glyphs(bytes) =~= bytes);
}

/// A line of printable bytes that fits the grid, written where a line
/// starts, reads back from the first cells of the bottom row, each byte in
/// the active colour. A line starts at column 0, and also just past the end
/// of a full line, where the first byte scrolls the grid.
pub proof fn line_reads_back(screen: Screen, line: Seq<u8>)
    requires
        screen.wf(),
        forall|i: int| 0 <= i < line.len() ==> is_printable(#[trigger] line[i]),
        line.len() <= screen.width,
        screen.column == 0 || screen.column == screen.width || line.len() == 0,
    ensures
        screen.write_string(line).bottom().len() == screen.width,
        forall|i: int|
            0 <= i < line.len() ==> #[trigger] screen.write_string(line).bottom()[i]
                == screen.inked(line[i]),
        line.len() > 0 ==> screen.write_string(line).column == line.len(),
    decreases line.len(),
{
    printable_string_is_written_raw(screen, line);
    write_bytes_keeps_shape(screen, line);
    if line.len() > 0 {
        let head = line.drop_last();
        let before = screen.write_bytes(head);
        line_reads_back(screen, head);
        printable_string_is_written_raw(screen, head);
        write_bytes_keeps_shape(screen, head);
        let after = before.write_byte(line.last());
        assert(after == screen.write_bytes(line));
        assert forall|i: int| 0 <= i < line.len() implies #[trigger] after.bottom()[i]
            == screen.inked(line[i]) by {
            if i < head.len() {
                assert(before.bottom()[i] == screen.inked(head[i]));
            }
        }
    }
}

/// A string of one byte that is neither printable nor a line feed shows the
/// replacement glyph in the active colour where the byte was to go, and
/// changes the display as writing the replacement glyph does.
pub proof fn unprintable_byte_shows_replacement(screen: Screen, byte: u8)
    requires
        screen.wf(),
        !is_printable(byte),
        byte != NEWLINE,
    ensures
        screen.write_string(seq![byte]) == screen.write_byte(REPLACEMENT_GLYPH),
        screen.write_string(seq![byte]).column == (if screen.column < screen.width {
            screen.column + 1
        } else {
            1
        }),
        screen.write_string(seq![byte]).bottom()[screen.write_string(seq![byte]).column - 1]
            == screen.inked(REPLACEMENT_GLYPH),
{
    assert(glyphs(seq![byte]) =~= seq![REPLACEMENT_GLYPH]);
    write_byte_is_write_bytes(screen, REPLACEMENT_GLYPH);
}

/// A string reaches the display byte for byte through `glyph`: what is
/// shown for a byte is printable, a line feed or the replacement glyph, and
/// it is the byte itself only where the byte is printable, a line feed or
/// the replacement glyph's own code.
pub proof fn string_shows_only_glyphs(bytes: Seq<u8>)
    ensures
        glyphs(bytes).len() == bytes.len(),
        forall|i: int| 0 <= i < bytes.len() ==> #[trigger] glyphs(bytes)[i] == glyph(bytes[i]),
        forall|byte: u8|
            is_printable(#[trigger] glyph(byte)) || glyph(byte) == NEWLINE || glyph(byte)
                == REPLACEMENT_GLYPH,
        forall|byte: u8|
            #[trigger] glyph(byte) == byte ==> is_printable(byte) || byte == NEWLINE || byte
                == REPLACEMENT_GLYPH,
{
}

/// A scroll is first in, first out over the rows: the top row leaves, every
/// other row moves up by exactly one, and the bottom row is blank. A line
/// feed does just that.
pub proof fn scroll_moves_rows_up(screen: Screen)
    requires
        screen.wf(),
    ensures
        screen.write_byte(NEWLINE) == screen.new_line(),
        screen.new_line().height() == screen.height(),
        forall|r: int|
            0 <= r < screen.height() - 1 ==> #[trigger] screen.new_line().rows[r] == screen.rows[r
                + 1],
        screen.new_line().bottom() == screen.blank_row(),
{
}

/// One more byte on the transcript, then cut to the last `height` rows, is
/// the same as cutting first and writing the byte on the grid.
proof fn tail_follows_byte(transcript: Screen, height: nat, byte: u8)
    requires
        transcript.wf(),
        0 < height <= transcript.height(),
    ensures
        transcript.log_byte(byte).wf(),
        transcript.log_byte(byte).height() >= transcript.height(),
        transcript.log_byte(byte).tail(height) == transcript.tail(height).write_byte(byte),
        forall|r: int|
            0 <= r < transcript.height() - 1 ==> #[trigger] transcript.log_byte(byte).rows[r]
                == transcript.rows[r],
{
    let cut = transcript.tail(height);
    assert(cut.rows.last() == transcript.rows.last());
    if byte == NEWLINE || transcript.column >= transcript.width {
        let grown = transcript.log_break();
        assert(grown.tail(height).rows =~= cut.new_line().rows);
        if byte != NEWLINE {
            assert(grown.put(byte).tail(height).rows =~= cut.new_line().put(byte).rows);
        }
    } else {
        assert(transcript.put(byte).tail(height).rows =~= cut.put(byte).rows);
    }
}

/// The grid is the transcript cut to the grid's height, for bytes written as
/// they are.
proof fn tail_follows_bytes(screen: Screen, bytes: Seq<u8>)
    requires
        screen.wf(),
    ensures
        screen.log_bytes(bytes).wf(),
        screen.log_bytes(bytes).height() >= screen.height(),
        screen.write_bytes(bytes) == screen.log_bytes(bytes).tail(screen.height()),
        forall|r: int|
            0 <= r < screen.height() - 1 ==> #[trigger] screen.log_bytes(bytes).rows[r]
                == screen.rows[r],
    decreases bytes.len(),
{
    if bytes.len() == 0 {
        assert(screen.tail(screen.height()).rows =~= screen.rows);
    } else {
        let head = bytes.drop_last();
        tail_follows_bytes(screen, head);
        tail_follows_byte(screen.log_bytes(head), screen.height(), bytes.last());
    }
}

/// After any writes, the grid shows the last rows of the transcript: the
/// most recent lines, as many as the grid is high. The transcript never
/// loses a line, so a line leaves the grid only at the top, and only when a
/// new line enters at the bottom.
pub proof fn grid_shows_latest_rows(screen: Screen, bytes: Seq<u8>)
    requires
        screen.wf(),
    ensures
        screen.log_bytes(bytes).height() >= screen.height(),
        screen.write_bytes(bytes) == screen.log_bytes(bytes).tail(screen.height()),
        screen.log_bytes(glyphs(bytes)).height() >= screen.height(),
        screen.write_string(bytes) == screen.log_bytes(glyphs(bytes)).tail(screen.height()),
        forall|r: int|
            0 <= r < screen.height() - 1 ==> #[trigger] screen.log_bytes(bytes).rows[r]
                == screen.rows[r],
{
    tail_follows_bytes(screen, bytes);
    tail_follows_bytes(screen, glyphs(bytes));
}

/// A line feed returns the cursor to column 0, and the byte written next
/// lands at column 0 of the new bottom row, under the rows that moved up.
pub proof fn newline_returns_cursor(screen: Screen, next: u8)
    requires
        screen.wf(),
        next != NEWLINE,
    ensures
        screen.write_byte(NEWLINE).column == 0,
        screen.write_byte(NEWLINE).write_byte(next).column == 1,
        screen.write_byte(NEWLINE).write_byte(next).bottom() == screen.blank_row().update(
            0,
            screen.inked(next),
        ),
        forall|r: int|
            0 <= r < screen.height() - 1 ==> #[trigger] screen.write_byte(NEWLINE).write_byte(
                next,
            ).rows[r] == screen.rows[r + 1],
{
}

} // verus!
