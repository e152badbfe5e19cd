use core::fmt::Write;
use rust_os::vga_buffer::{Color, ColorCode, ScreenChar, Writer, BUFFER_HEIGHT, BUFFER_WIDTH};
use volatile::Volatile;

const YELLOW_ON_BLACK: u8 = 0x0e;

fn blank_grid<const W: usize, const H: usize>(color: ColorCode) -> [[Volatile<u16>; W]; H] {
    let blank = ScreenChar { ascii_character: b' ', color_code: color }.to_word();
    core::array::from_fn(|_| core::array::from_fn(|_| Volatile::new(blank)))
}

fn row_text<const W: usize, const H: usize>(writer: &Writer<'_, W, H>, row: usize) -> String {
    let mut text = String::new();
    for col in 0..W {
        text.push(char::from(writer.read(row, col).unwrap().ascii_character));
    }
    text
}

fn row_colors<const W: usize, const H: usize>(writer: &Writer<'_, W, H>, row: usize) -> Vec<u8> {
    let mut colors = Vec::new();
    for col in 0..W {
        colors.push(writer.read(row, col).unwrap().color_code.0);
    }
    colors
}

#[test]
fn palette_indices_follow_the_vga_palette() {
    assert_eq!(Color::Black as u8, 0);
    assert_eq!(Color::Blue as u8, 1);
    assert_eq!(Color::Green as u8, 2);
    assert_eq!(Color::Cyan as u8, 3);
    assert_eq!(Color::Red as u8, 4);
    assert_eq!(Color::Magenta as u8, 5);
    assert_eq!(Color::Brown as u8, 6);
    assert_eq!(Color::LightGray as u8, 7);
    assert_eq!(Color::DarkGray as u8, 8);
    assert_eq!(Color::LightBlue as u8, 9);
    assert_eq!(Color::LightGreen as u8, 10);
    assert_eq!(Color::LightCyan as u8, 11);
    assert_eq!(Color::LightRed as u8, 12);
    assert_eq!(Color::Pink as u8, 13);
    assert_eq!(Color::Yellow as u8, 14);
    assert_eq!(Color::White as u8, 15);
}

#[test]
fn color_code_packs_background_into_high_nibble() {
    assert_eq!(ColorCode::new(Color::Yellow, Color::Black), ColorCode(YELLOW_ON_BLACK));
    assert_eq!(ColorCode::new(Color::Black, Color::Yellow).0, 0xe0);
    assert_eq!(ColorCode::new(Color::White, Color::Blue).0, 0x1f);
    assert_eq!(ColorCode::new(Color::LightRed, Color::DarkGray).0, 0x8c);
    assert_eq!(ColorCode::new(Color::Black, Color::Black).0, 0x00);
    assert_eq!(ColorCode::new(Color::White, Color::White).0, 0xff);
}

#[test]
fn cell_word_has_character_low_and_color_high() {
    let shown = ScreenChar { ascii_character: b'A', color_code: ColorCode(0x0e) };
    assert_eq!(shown.to_word(), 0x0e41);
    assert_eq!(shown.to_word().to_le_bytes(), [b'A', 0x0e]);
    assert_eq!(ScreenChar::from_word(0x0e41), shown);
    assert_eq!(ScreenChar::from_word(0xffff).ascii_character, 0xff);
    assert_eq!(ScreenChar::from_word(0xffff).color_code, ColorCode(0xff));
    assert_eq!(ScreenChar::from_word(0).to_word(), 0);
}

#[test]
fn cell_words_round_trip() {
    for word in [0u16, 1, 0x00ff, 0x0100, 0x0e41, 0x1f20, 0x7ffe, 0xfffe, 0xffff] {
        assert_eq!(ScreenChar::from_word(word).to_word(), word);
    }
}

#[test]
fn new_writer_starts_at_column_zero_and_keeps_the_grid() {
    let color = ColorCode::new(Color::Yellow, Color::Black);
    let mut cells = blank_grid::<5, 2>(color);
    cells[0][3].write(0x1f58);
    let writer = Writer::new(color, &mut cells);
    assert_eq!(writer.column_position(), 0);
    assert_eq!(writer.color_code(), color);
    assert_eq!(
        writer.read(0, 3),
        Some(ScreenChar { ascii_character: b'X', color_code: ColorCode(0x1f) })
    );
    assert_eq!(row_text(&writer, 1), "     ");
}

#[test]
fn read_outside_the_grid_is_none() {
    let color = ColorCode::new(Color::Yellow, Color::Black);
    let mut cells = blank_grid::<5, 2>(color);
    let writer = Writer::new(color, &mut cells);
    assert_eq!(writer.read(2, 0), None);
    assert_eq!(writer.read(0, 5), None);
    assert_eq!(writer.read(usize::MAX, usize::MAX), None);
    assert!(writer.read(1, 4).is_some());
}

#[test]
fn write_byte_puts_the_byte_on_the_bottom_row() {
    let color = ColorCode::new(Color::Yellow, Color::Black);
    let mut cells = blank_grid::<5, 2>(color);
    let mut writer = Writer::new(color, &mut cells);
    writer.write_byte(b'H');
    assert_eq!(writer.column_position(), 1);
    assert_eq!(writer.read(1, 0), Some(ScreenChar { ascii_character: b'H', color_code: color }));
    assert_eq!(row_text(&writer, 0), "     ");
    assert_eq!(row_text(&writer, 1), "H    ");
}

#[test]
fn write_byte_reaches_the_memory_behind_the_writer() {
    let color = ColorCode::new(Color::Yellow, Color::Black);
    let mut cells = blank_grid::<5, 2>(color);
    {
        let mut writer = Writer::new(color, &mut cells);
        writer.write_byte(b'H');
        writer.write_byte(b'i');
    }
    assert_eq!(cells[1][0].read(), 0x0e48);
    assert_eq!(cells[1][1].read(), 0x0e69);
    assert_eq!(cells[1][2].read(), 0x0e20);
    assert_eq!(cells[0][0].read(), 0x0e20);
}

#[test]
fn write_byte_writes_unprintable_bytes_as_they_are() {
    let color = ColorCode::new(Color::Yellow, Color::Black);
    let mut cells = blank_grid::<5, 2>(color);
    let mut writer = Writer::new(color, &mut cells);
    writer.write_byte(0x01);
    writer.write_byte(0xff);
    assert_eq!(writer.read(1, 0).unwrap().ascii_character, 0x01);
    assert_eq!(writer.read(1, 1).unwrap().ascii_character, 0xff);
    assert_eq!(writer.column_position(), 2);
}

#[test]
fn printable_line_reads_back_with_the_active_color() {
    let color = ColorCode::new(Color::LightGreen, Color::Blue);
    let mut cells = blank_grid::<BUFFER_WIDTH, BUFFER_HEIGHT>(ColorCode(YELLOW_ON_BLACK));
    let mut writer = Writer::new(color, &mut cells);
    let line = "This should be outputed as is";
    writer.write_string(line);
    for (i, byte) in line.bytes().enumerate() {
        assert_eq!(
            writer.read(BUFFER_HEIGHT - 1, i),
            Some(ScreenChar { ascii_character: byte, color_code: color })
        );
    }
    assert_eq!(writer.column_position(), line.len());
    assert_eq!(
        writer.read(BUFFER_HEIGHT - 1, line.len()),
        Some(ScreenChar { ascii_character: b' ', color_code: ColorCode(YELLOW_ON_BLACK) })
    );
}

#[test]
fn every_printable_byte_is_shown_as_itself() {
    let color = ColorCode::new(Color::Yellow, Color::Black);
    for byte in 0x20u8..=0x7e {
        let mut cells = blank_grid::<5, 2>(color);
        let mut writer = Writer::new(color, &mut cells);
        let text = String::from(char::from(byte));
        writer.write_string(&text);
        assert_eq!(writer.read(1, 0).unwrap().ascii_character, byte);
    }
}

#[test]
fn line_as_wide_as_the_grid_fills_the_row_without_scrolling() {
    let color = ColorCode::new(Color::Yellow, Color::Black);
    let mut cells = blank_grid::<5, 2>(color);
    let mut writer = Writer::new(color, &mut cells);
    writer.write_string("top");
    writer.write_byte(b'\n');
    writer.write_string("12345");
    assert_eq!(writer.column_position(), 5);
    assert_eq!(row_text(&writer, 0), "top  ");
    assert_eq!(row_text(&writer, 1), "12345");
}

#[test]
fn line_written_after_a_full_line_starts_a_new_row() {
    let color = ColorCode::new(Color::Yellow, Color::Black);
    let mut cells = blank_grid::<5, 3>(color);
    let mut writer = Writer::new(color, &mut cells);
    writer.write_string("12345");
    writer.write_string("ab");
    assert_eq!(writer.column_position(), 2);
    assert_eq!(row_text(&writer, 0), "     ");
    assert_eq!(row_text(&writer, 1), "12345");
    assert_eq!(row_text(&writer, 2), "ab   ");
}

#[test]
fn long_line_wraps_onto_following_rows() {
    let color = ColorCode::new(Color::Yellow, Color::Black);
    let mut cells = blank_grid::<5, 3>(color);
    let mut writer = Writer::new(color, &mut cells);
    writer.write_string("abcdefghijkl");
    assert_eq!(row_text(&writer, 0), "abcde");
    assert_eq!(row_text(&writer, 1), "fghij");
    assert_eq!(row_text(&writer, 2), "kl   ");
    assert_eq!(writer.column_position(), 2);
}

#[test]
fn unprintable_bytes_show_the_replacement_glyph() {
    let color = ColorCode::new(Color::Yellow, Color::Black);
    let mut cells = blank_grid::<BUFFER_WIDTH, BUFFER_HEIGHT>(color);
    let mut writer = Writer::new(color, &mut cells);
    writer.write_string("a\u{1}\t\r\u{7f}b");
    let expected = [b'a', 0xfe, 0xfe, 0xfe, 0xfe, b'b'];
    for (i, byte) in expected.iter().enumerate() {
        assert_eq!(
            writer.read(BUFFER_HEIGHT - 1, i),
            Some(ScreenChar { ascii_character: *byte, color_code: color })
        );
    }
    assert_eq!(writer.column_position(), 6);
}

#[test]
fn each_byte_of_a_multibyte_character_shows_the_replacement_glyph() {
    let color = ColorCode::new(Color::Yellow, Color::Black);
    let mut cells = blank_grid::<BUFFER_WIDTH, BUFFER_HEIGHT>(color);
    let mut writer = Writer::new(color, &mut cells);
    writer.write_string("Hell\u{f6} W\u{f6}rld");
    let expected = [
        b'H', b'e', b'l', b'l', 0xfe, 0xfe, b' ', b'W', 0xfe, 0xfe, b'r', b'l', b'd', b' ',
    ];
    for (i, byte) in expected.iter().enumerate() {
        assert_eq!(writer.read(BUFFER_HEIGHT - 1, i).unwrap().ascii_character, *byte);
    }
    assert_eq!(writer.column_position(), 13);
}

#[test]
fn no_unprintable_byte_is_ever_shown_raw() {
    let color = ColorCode::new(Color::Yellow, Color::Black);
    for byte in (0x00u8..0x20).chain(0x7f..=0x7f) {
        if byte == b'\n' {
            continue;
        }
        let mut cells = blank_grid::<5, 2>(color);
        let mut writer = Writer::new(color, &mut cells);
        let text = String::from(char::from(byte));
        writer.write_string(&text);
        assert_eq!(
            writer.read(1, 0),
            Some(ScreenChar { ascii_character: 0xfe, color_code: color })
        );
        assert_eq!(writer.column_position(), 1);
    }
}

#[test]
fn newline_scrolls_every_row_up_by_one() {
    let color = ColorCode::new(Color::Yellow, Color::Black);
    let mut cells = blank_grid::<5, 3>(color);
    let mut writer = Writer::new(color, &mut cells);
    writer.write_string("one\ntwo\nthree");
    assert_eq!(row_text(&writer, 0), "one  ");
    assert_eq!(row_text(&writer, 1), "two  ");
    assert_eq!(row_text(&writer, 2), "three");
    writer.write_byte(b'\n');
    assert_eq!(row_text(&writer, 0), "two  ");
    assert_eq!(row_text(&writer, 1), "three");
    assert_eq!(row_text(&writer, 2), "     ");
    writer.write_byte(b'\n');
    assert_eq!(row_text(&writer, 0), "three");
    assert_eq!(row_text(&writer, 1), "     ");
    assert_eq!(row_text(&writer, 2), "     ");
}

#[test]
fn scroll_blanks_the_bottom_row_in_the_active_color() {
    let grid_color = ColorCode::new(Color::White, Color::Blue);
    let color = ColorCode::new(Color::Yellow, Color::Black);
    let mut cells = blank_grid::<4, 2>(grid_color);
    let mut writer = Writer::new(color, &mut cells);
    writer.write_byte(b'\n');
    assert_eq!(row_colors(&writer, 0), vec![0x1f, 0x1f, 0x1f, 0x1f]);
    assert_eq!(row_colors(&writer, 1), vec![0x0e, 0x0e, 0x0e, 0x0e]);
    assert_eq!(row_text(&writer, 1), "    ");
}

#[test]
fn scroll_keeps_the_color_of_the_rows_that_move() {
    let first = ColorCode::new(Color::White, Color::Blue);
    let mut cells = blank_grid::<4, 2>(first);
    {
        let mut writer = Writer::new(first, &mut cells);
        writer.write_string("ab");
    }
    let second = ColorCode::new(Color::Red, Color::Black);
    let mut writer = Writer::new(second, &mut cells);
    writer.write_byte(b'\n');
    writer.write_string("cd");
    assert_eq!(row_text(&writer, 0), "ab  ");
    assert_eq!(row_colors(&writer, 0), vec![0x1f, 0x1f, 0x1f, 0x1f]);
    assert_eq!(row_text(&writer, 1), "cd  ");
    assert_eq!(row_colors(&writer, 1), vec![0x04, 0x04, 0x04, 0x04]);
}

#[test]
fn newline_returns_the_cursor_to_column_zero() {
    let color = ColorCode::new(Color::Yellow, Color::Black);
    let mut cells = blank_grid::<5, 2>(color);
    let mut writer = Writer::new(color, &mut cells);
    writer.write_string("abc");
    assert_eq!(writer.column_position(), 3);
    writer.write_byte(b'\n');
    assert_eq!(writer.column_position(), 0);
    writer.write_byte(b'z');
    assert_eq!(writer.column_position(), 1);
    assert_eq!(row_text(&writer, 0), "abc  ");
    assert_eq!(row_text(&writer, 1), "z    ");
}

#[test]
fn newline_in_a_string_is_a_line_break() {
    let color = ColorCode::new(Color::Yellow, Color::Black);
    let mut cells = blank_grid::<5, 2>(color);
    let mut writer = Writer::new(color, &mut cells);
    writer.write_string("ab\ncd\n");
    assert_eq!(writer.column_position(), 0);
    assert_eq!(row_text(&writer, 0), "cd   ");
    assert_eq!(row_text(&writer, 1), "     ");
}

#[test]
fn empty_string_changes_nothing() {
    let color = ColorCode::new(Color::Yellow, Color::Black);
    let mut cells = blank_grid::<5, 2>(color);
    let mut writer = Writer::new(color, &mut cells);
    writer.write_string("ab");
    writer.write_string("");
    assert_eq!(writer.column_position(), 2);
    assert_eq!(row_text(&writer, 0), "     ");
    assert_eq!(row_text(&writer, 1), "ab   ");
}

#[test]
fn single_row_grid_clears_on_newline() {
    let color = ColorCode::new(Color::Yellow, Color::Black);
    let mut cells = blank_grid::<3, 1>(color);
    let mut writer = Writer::new(color, &mut cells);
    writer.write_string("ab");
    writer.write_byte(b'\n');
    assert_eq!(row_text(&writer, 0), "   ");
    writer.write_string("wxyz");
    assert_eq!(row_text(&writer, 0), "z  ");
    assert_eq!(writer.column_position(), 1);
}

#[test]
fn single_column_grid_scrolls_on_every_second_byte() {
    let color = ColorCode::new(Color::Yellow, Color::Black);
    let mut cells = blank_grid::<1, 3>(color);
    let mut writer = Writer::new(color, &mut cells);
    writer.write_string("abc");
    assert_eq!(row_text(&writer, 0), "a");
    assert_eq!(row_text(&writer, 1), "b");
    assert_eq!(row_text(&writer, 2), "c");
    assert_eq!(writer.column_position(), 1);
}

#[test]
fn two_lines_on_a_five_by_two_grid() {
    let color = ColorCode::new(Color::Yellow, Color::Black);
    let mut cells = blank_grid::<5, 2>(color);
    let mut writer = Writer::new(color, &mut cells);
    writer.write_string("ABC");
    writer.write_byte(b'\n');
    writer.write_string("DE");
    assert_eq!(row_text(&writer, 1), "DE   ");
    assert_eq!(row_text(&writer, 0), "ABC  ");
}

#[test]
fn two_hundred_lines_leave_the_last_twenty_five() {
    let color = ColorCode::new(Color::Yellow, Color::Black);
    let mut cells = blank_grid::<BUFFER_WIDTH, BUFFER_HEIGHT>(color);
    let mut writer = Writer::new(color, &mut cells);
    for i in 0..200 {
        if i > 0 {
            writer.write_byte(b'\n');
        }
        writer.write_string(&format!("Line {}", i));
    }
    assert_eq!(row_text(&writer, BUFFER_HEIGHT - 1).trim_end(), "Line 199");
    assert_eq!(row_text(&writer, 0).trim_end(), "Line 175");
    for row in 0..BUFFER_HEIGHT {
        assert_eq!(row_text(&writer, row).trim_end(), format!("Line {}", 175 + row));
        assert_eq!(row_text(&writer, row).len(), BUFFER_WIDTH);
    }
}

#[test]
fn text_in_pieces_shows_as_the_whole_text() {
    let color = ColorCode::new(Color::Yellow, Color::Black);
    let mut whole = blank_grid::<7, 3>(color);
    let mut whole_writer = Writer::new(color, &mut whole);
    whole_writer.write_string("Some numbers: 42 666\n!");
    let mut pieces = blank_grid::<7, 3>(color);
    let mut pieces_writer = Writer::new(color, &mut pieces);
    pieces_writer.write_string("Some numbers: ");
    pieces_writer.write_string("42");
    pieces_writer.write_byte(b' ');
    pieces_writer.write_string("666");
    pieces_writer.write_string("");
    pieces_writer.write_string("\n!");
    for row in 0..3 {
        assert_eq!(row_text(&pieces_writer, row), row_text(&whole_writer, row));
    }
    assert_eq!(pieces_writer.column_position(), whole_writer.column_position());
    assert_eq!(row_text(&whole_writer, 0), "mbers: ");
    assert_eq!(row_text(&whole_writer, 1), "42 666 ");
    assert_eq!(row_text(&whole_writer, 2), "!      ");
}

#[test]
fn grid_shows_the_tail_of_everything_written() {
    let color = ColorCode::new(Color::Yellow, Color::Black);
    let text = "alpha\nbe\n\ngamma delta\nx";
    let mut tall = blank_grid::<6, 12>(color);
    let mut tall_writer = Writer::new(color, &mut tall);
    tall_writer.write_string(text);
    let mut short = blank_grid::<6, 3>(color);
    let mut short_writer = Writer::new(color, &mut short);
    short_writer.write_string(text);
    for row in 0..3 {
        assert_eq!(row_text(&short_writer, row), row_text(&tall_writer, 9 + row));
    }
    assert_eq!(short_writer.column_position(), tall_writer.column_position());
    assert_eq!(row_text(&short_writer, 0), "gamma ");
    assert_eq!(row_text(&short_writer, 1), "delta ");
    assert_eq!(row_text(&short_writer, 2), "x     ");
}

#[test]
fn trivial_assertion() {
    assert_eq!(1, 1);
}

#[test]
fn test_println_simple() {
    let color = ColorCode::new(Color::Yellow, Color::Black);
    let mut cells = blank_grid::<BUFFER_WIDTH, BUFFER_HEIGHT>(color);
    let mut writer = Writer::new(color, &mut cells);
    assert!(writer.write_str("test println simple output\n").is_ok());
    assert_eq!(row_text(&writer, BUFFER_HEIGHT - 2).trim_end(), "test println simple output");
    assert_eq!(writer.column_position(), 0);
}

#[test]
fn test_println_many() {
    let color = ColorCode::new(Color::Yellow, Color::Black);
    let mut cells = blank_grid::<BUFFER_WIDTH, BUFFER_HEIGHT>(color);
    let mut writer = Writer::new(color, &mut cells);
    for i in 0..200 {
        assert!(writer.write_str(&format!("Print as many as {}...\n", i)).is_ok());
    }
    assert_eq!(row_text(&writer, BUFFER_HEIGHT - 2).trim_end(), "Print as many as 199...");
    assert_eq!(row_text(&writer, BUFFER_HEIGHT - 1).trim_end(), "");
    assert_eq!(row_text(&writer, 0).trim_end(), "Print as many as 176...");
}

#[test]
fn test_println_output() {
    let color = ColorCode::new(Color::Yellow, Color::Black);
    let mut cells = blank_grid::<BUFFER_WIDTH, BUFFER_HEIGHT>(color);
    let mut writer = Writer::new(color, &mut cells);
    let s = "This should be outputed as is";
    assert!(writer.write_str(s).is_ok());
    assert!(writer.write_str("\n").is_ok());
    for (i, c) in s.chars().enumerate() {
        let screen_char = writer.read(BUFFER_HEIGHT - 2, i).unwrap();
        assert_eq!(char::from(screen_char.ascii_character), c);
    }
}

#[test]
fn formatted_numbers_reach_the_display() {
    let color = ColorCode::new(Color::Yellow, Color::Black);
    let mut cells = blank_grid::<BUFFER_WIDTH, BUFFER_HEIGHT>(color);
    let mut writer = Writer::new(color, &mut cells);
    assert!(writer.write_str(&format!("Some numbers: {} {}", 42, 666)).is_ok());
    assert_eq!(row_text(&writer, BUFFER_HEIGHT - 1).trim_end(), "Some numbers: 42 666");
}
