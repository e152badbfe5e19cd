//! The text-mode display driver: a writer that appends characters to the
//! bottom line of a grid of 16-bit cells and scrolls the grid when the line
//! ends.
//!
//! A cell is one 16-bit word: the character in the low byte, the colour
//! attribute in the high byte. On the little-endian machine this is written
//! for, that is the character byte followed by the attribute byte, the layout
//! of VGA text memory.

use crate::screen::{glyphs, Screen, BLANK, REPLACEMENT_GLYPH};
use vstd::prelude::*;
use vstd::string::StringSliceAdditionalSpecFns;
use volatile::Volatile;

verus! {

/// Rows of the VGA text screen.
pub const BUFFER_HEIGHT: usize = 25;

/// Columns of the VGA text screen.
pub const BUFFER_WIDTH: usize = 80;

/// The sixteen colours of the VGA text palette, in palette order.
#[allow(dead_code)]
#[derive(Debug, Clone, Copy, PartialEq, Eq, Structural)]
pub enum Color {
    Black,
    Blue,
    Green,
    Cyan,
    Red,
    Magenta,
    Brown,
    LightGray,
    DarkGray,
    LightBlue,
    LightGreen,
    LightCyan,
    LightRed,
    Pink,
    Yellow,
    White,
}

impl Color {
    /// The colour's number in the palette, 0 to 15.
    pub open spec fn index(self) -> u8 {
        match self {
            Color::Black => 0,
            Color::Blue => 1,
            Color::Green => 2,
            Color::Cyan => 3,
            Color::Red => 4,
            Color::Magenta => 5,
            Color::Brown => 6,
            Color::LightGray => 7,
            Color::DarkGray => 8,
            Color::LightBlue => 9,
            Color::LightGreen => 10,
            Color::LightCyan => 11,
            Color::LightRed => 12,
            Color::Pink => 13,
            Color::Yellow => 14,
            Color::White => 15,
        }
    }
}

/// A colour attribute byte: background in the high nibble, foreground in the
/// low nibble.
#[derive(Debug, Clone, Copy, PartialEq, Eq, Structural)]
pub struct ColorCode(pub u8);

impl ColorCode {
    /// The attribute byte of `foreground` on `background`.
    pub open spec fn of(foreground: Color, background: Color) -> ColorCode {
        ColorCode((background.index() * 16 + foreground.index()) as u8)
    }

    pub fn new(foreground: Color, background: Color) -> (code: ColorCode)
        ensures
            code == ColorCode::of(foreground, background),
            code.0 == (background.index() << 4) | foreground.index(),
    {
        let high: u8 = background as u8;
        let low: u8 = foreground as u8;
        assert((high << 4) | low == high * 16 + low) by (bit_vector)
            requires
                high < 16,
                low < 16,
        ;
        ColorCode((high << 4) | low)
    }
}

/// What one cell of the screen shows.
#[derive(Debug, Clone, Copy, PartialEq, Eq, Structural)]
pub struct ScreenChar {
    pub ascii_character: u8,
    pub color_code: ColorCode,
}

impl ScreenChar {
    /// The cell word that shows `self`.
    pub open spec fn word(self) -> u16 {
        (self.color_code.0 * 256 + self.ascii_character) as u16
    }

    /// What a cell word shows.
    pub open spec fn of_word(word: u16) -> ScreenChar {
        ScreenChar { ascii_character: (word % 256) as u8, color_code: ColorCode((word / 256) as u8) }
    }

    pub fn to_word(self) -> (word: u16)
        ensures
            word == self.word(),
            ScreenChar::of_word(word) == self,
    {
        let high: u16 = self.color_code.0 as u16;
        let low: u16 = self.ascii_character as u16;
        high * 256 + low
    }

    pub fn from_word(word: u16) -> (shown: ScreenChar)
        ensures
            shown == ScreenChar::of_word(word),
            shown.word() == word,
    {
        ScreenChar { ascii_character: (word % 256) as u8, color_code: ColorCode((word / 256) as u8) }
    }
}

/// `volatile::Volatile<T>`: a value that is read and written only with
/// volatile accesses, which the compiler neither removes nor reorders.
#[verifier::external_type_specification]
#[verifier::external_body]
#[verifier::reject_recursive_types(T)]
pub struct ExVolatile<T: Copy>(Volatile<T>);

/// The word that a `Volatile<u16>` cell holds: what `Volatile::read` gives.
pub uninterp spec fn stored(cell: Volatile<u16>) -> u16;

/// `Volatile::read`: one volatile read of the cell, which gives a copy of
/// the word that the cell holds.
#[verifier::external_body]
fn read_word(cell: &Volatile<u16>) -> (word: u16)
    ensures
        word == stored(*cell),
{
    cell.read()
}

/// `Volatile::write`: one volatile write to the cell, after which the cell
/// holds `word`. It never panics. This takes the cell for memory that keeps
/// what was last written to it, as text-mode video memory does.
#[verifier::external_body]
fn write_word(cell: &mut Volatile<u16>, word: u16)
    ensures
        stored(*final(cell)) == word,
    no_unwind
{
    cell.write(word)
}

/// What a grid of cells shows, row by row from the top.
pub open spec fn shown<const W: usize, const H: usize>(cells: [[Volatile<u16>; W]; H]) -> Seq<
    Seq<ScreenChar>,
> {
    Seq::new(H as nat, |r: int| Seq::new(W as nat, |c: int| ScreenChar::of_word(stored(cells[r][c]))))
}

/// Appends text to the bottom line of a grid of `W` columns and `H` rows.
pub struct Writer<'a, const W: usize, const H: usize> {
    column_position: usize,
    color_code: ColorCode,
    buffer: &'a mut [[Volatile<u16>; W]; H],
}

impl<'a, const W: usize, const H: usize> Writer<'a, W, H> {
    #[verifier::type_invariant]
    spec fn well_formed(self) -> bool {
        0 < W && 0 < H && self.column_position <= W
    }

    /// The display that the writer has produced so far.
    pub closed spec fn view(&self) -> Screen {
        Screen {
            width: W as nat,
            rows: shown(*self.buffer),
            column: self.column_position as nat,
            color: self.color_code,
        }
    }

    /// Whether `display` is well formed and has the writer's dimensions. It
    /// holds of every writer's display.
    pub open spec fn on_grid(display: Screen) -> bool {
        display.wf() && display.width == W && display.height() == H
    }

    /// A writer on `buffer` that starts at column 0 of the bottom line and
    /// leaves what the grid shows as it is.
    pub fn new(color_code: ColorCode, buffer: &'a mut [[Volatile<u16>; W]; H]) -> (writer: Self)
        requires
            0 < W,
            0 < H,
        ensures
            writer@ == (Screen {
                width: W as nat,
                rows: shown(*old(buffer)),
                column: 0,
                color: color_code,
            }),
            Self::on_grid(writer@),
    {
        Writer { column_position: 0, color_code, buffer }
    }

    /// The column at which the next character goes.
    pub fn column_position(&self) -> (column: usize)
        ensures
            column == self@.column,
            Self::on_grid(self@),
    {
        proof {
            use_type_invariant(self);
        }
        self.column_position
    }

    /// The active colour.
    pub fn color_code(&self) -> (code: ColorCode)
        ensures
            code == self@.color,
            Self::on_grid(self@),
    {
        proof {
            use_type_invariant(self);
        }
        self.color_code
    }

    /// What the cell at `row`, `col` shows, read with one volatile access;
    /// `None` outside the grid.
    pub fn read(&self, row: usize, col: usize) -> (cell: Option<ScreenChar>)
        ensures
            cell == if row < H && col < W {
                Some(self@.cell(row as int, col as int))
            } else {
                None
            },
            Self::on_grid(self@),
    {
        proof {
            use_type_invariant(self);
        }
        if row < H && col < W {
            Some(ScreenChar::from_word(read_word(&self.buffer[row][col])))
        } else {
            None
        }
    }

    /// Makes the cell at `row`, `col` show `shown`, with one volatile write.
    fn write(&mut self, row: usize, col: usize, shown: ScreenChar)
        requires
            row < H,
            col < W,
        ensures
            final(self)@ == (Screen {
                rows: old(self)@.rows.update(
                    row as int,
                    old(self)@.rows[row as int].update(col as int, shown),
                ),
                ..old(self)@
            }),
    {
        proof {
            use_type_invariant(&*self);
        }
        write_word(&mut self.buffer[row][col], shown.to_word());
        assert(self@.rows =~~= old(self)@.rows.update(
            row as int,
            old(self)@.rows[row as int].update(col as int, shown),
        ));
    }

    /// Writes one byte as it is. A line feed scrolls the grid. Any other byte
    /// is put at the cursor on the bottom line in the active colour, after a
    /// scroll if the line is full, and the cursor moves one column right.
    pub fn write_byte(&mut self, byte: u8)
        ensures
            final(self)@ == old(self)@.write_byte(byte),
            Self::on_grid(final(self)@),
    {
        match byte {
            0x0a => self.new_line(),
            byte => {
                proof {
                    use_type_invariant(&*self);
                }
                if self.column_position >= W {
                    self.new_line();
                }
                let row = H - 1;
                let col = self.column_position;

                let color_code = self.color_code;
                self.write(row, col, ScreenChar { ascii_character: byte, color_code });
                self.column_position += 1;
            },
        }
    }

    /// Scrolls: every row takes what the row below it shows, the bottom row
    /// is blanked and the cursor returns to column 0.
    fn new_line(&mut self)
        ensures
            final(self)@ == old(self)@.new_line(),
            Self::on_grid(final(self)@),
    {
        proof {
            use_type_invariant(&*self);
        }
        for row in 1..H
            invariant
                0 < W,
                0 < H,
                self.column_position <= W,
                self.column_position == old(self).column_position,
                self.color_code == old(self).color_code,
                forall|r: int, c: int|
                    0 <= r < row - 1 && 0 <= c < W ==> stored(#[trigger] self.buffer[r][c])
                        == stored(old(self).buffer[r + 1][c]),
                forall|r: int, c: int|
                    row - 1 <= r < H && 0 <= c < W ==> stored(#[trigger] self.buffer[r][c])
                        == stored(old(self).buffer[r][c]),
        {
            for col in 0..W
                invariant
                    0 < W,
                    1 <= row < H,
                    self.column_position <= W,
                    self.column_position == old(self).column_position,
                    self.color_code == old(self).color_code,
                    forall|r: int, c: int|
                        0 <= r < row - 1 && 0 <= c < W ==> stored(#[trigger] self.buffer[r][c])
                            == stored(old(self).buffer[r + 1][c]),
                    forall|c: int|
                        0 <= c < col ==> stored(#[trigger] self.buffer[row - 1][c]) == stored(
                            old(self).buffer[row as int][c],
                        ),
                    forall|c: int|
                        col <= c < W ==> stored(#[trigger] self.buffer[row - 1][c]) == stored(
                            old(self).buffer[row - 1][c],
                        ),
                    forall|r: int, c: int|
                        row <= r < H && 0 <= c < W ==> stored(#[trigger] self.buffer[r][c])
                            == stored(old(self).buffer[r][c]),
            {
                let character = read_word(&self.buffer[row][col]);
                write_word(&mut self.buffer[row - 1][col], character);
            }
        }
        self.clean_row(H - 1);
        self.column_position = 0;
        assert(self@.rows =~~= old(self)@.new_line().rows);
    }

    /// Blanks `row` in the active colour.
    fn clean_row(&mut self, row: usize)
        requires
            row < H,
        ensures
            final(self)@ == (Screen {
                rows: old(self)@.rows.update(row as int, old(self)@.blank_row()),
                ..old(self)@
            }),
    {
        proof {
            use_type_invariant(&*self);
        }
        let blank = ScreenChar { ascii_character: BLANK, color_code: self.color_code };
        for col in 0..W
            invariant
                0 < W,
                row < H,
                self.column_position <= W,
                blank == old(self)@.inked(BLANK),
                self.column_position == old(self).column_position,
                self.color_code == old(self).color_code,
                forall|c: int|
                    0 <= c < col ==> ScreenChar::of_word(stored(#[trigger] self.buffer[row as int][c]))
                        == blank,
                forall|c: int|
                    col <= c < W ==> stored(#[trigger] self.buffer[row as int][c]) == stored(
                        old(self).buffer[row as int][c],
                    ),
                forall|r: int, c: int|
                    0 <= r < H && r != row && 0 <= c < W ==> stored(#[trigger] self.buffer[r][c])
                        == stored(old(self).buffer[r][c]),
        {
            write_word(&mut self.buffer[row][col], blank.to_word());
        }
        assert(self@.rows =~~= old(self)@.rows.update(row as int, old(self)@.blank_row()));
    }

    /// Writes a string: each byte that is printable ASCII or a line feed is
    /// written as it is, any other byte as the replacement glyph.
    pub fn write_string(&mut self, s: &str)
        ensures
            final(self)@ == old(self)@.write_string(s.spec_bytes()),
            Self::on_grid(final(self)@),
    {
        proof {
            use_type_invariant(&*self);
        }
        let bytes = s.as_bytes();
        for i in 0..bytes.len()
            invariant
                bytes@ == s.spec_bytes(),
                self@ == old(self)@.write_string(bytes@.take(i as int)),
                i <= bytes@.len(),
                Self::on_grid(self@),
        {
            let byte = bytes[i];
            assert(glyphs(bytes@.take(i + 1)).drop_last() =~= glyphs(bytes@.take(i as int)));
            match byte {
                0x20..=0x7e | 0x0a => self.write_byte(byte),
                _ => self.write_byte(REPLACEMENT_GLYPH),
            }
        }
        assert(bytes@.take(bytes@.len() as int) =~= bytes@);
    }
}

/// `core::fmt::Error`, the error of a formatted write. The writer never
/// returns one.
#[verifier::external_type_specification]
#[verifier::external_body]
pub struct ExFmtError(core::fmt::Error);

/// Formatted output: numbers and composed text reach the display through
/// `write!` and `writeln!`, which hand their pieces to `write_str`.
impl<'a, const W: usize, const H: usize> core::fmt::Write for Writer<'a, W, H> {
    /// Writes `s` as `write_string` does. It never fails.
    fn write_str(&mut self, s: &str) -> (done: core::fmt::Result)
        ensures
            done is Ok,
            final(self)@ == old(self)@.write_string(s.spec_bytes()),
            Self::on_grid(final(self)@),
    {
        self.write_string(s);
        Ok(())
    }
}

} // verus!
