use my_blog_os::vga_buffer::{
    Color, ColorCode, ScreenChar, Writer, BUFFER_HEIGHT, BUFFER_WIDTH,
};

fn yellow_on_black() -> ColorCode {
    ColorCode::new(Color::Yellow, Color::Black)
}

fn row_text(writer: &Writer, row: usize, len: usize) -> String {
    let mut text = String::new();
    for col in 0..len {
        text.push(char::from(writer.char_at(row, col).ascii_char));
    }
    text
}

#[test]
fn color_code_packs_background_high() {
    assert_eq!(ColorCode::new(Color::Yellow, Color::Black), ColorCode(0x0e));
    assert_eq!(ColorCode::new(Color::White, Color::Blue), ColorCode(0x1f));
    assert_eq!(ColorCode::new(Color::Black, Color::White), ColorCode(0xf0));
    assert_eq!(ColorCode::new(Color::LightRed, Color::Green), ColorCode(0x2c));
    assert_eq!(Color::Pink.as_u8(), 13);
}

#[test]
fn new_writer_is_blank() {
    let writer = Writer::new(yellow_on_black());
    assert_eq!(writer.row_position(), 0);
    assert_eq!(writer.column_position(), 0);
    for row in 0..BUFFER_HEIGHT {
        for col in 0..BUFFER_WIDTH {
            assert_eq!(
                writer.char_at(row, col),
                ScreenChar { ascii_char: b' ', color_code: ColorCode(0x0e) }
            );
        }
    }
}

#[test]
fn test_println_simple() {
    let mut writer = Writer::new(yellow_on_black());
    writer.write_string("This does not panic\n");
    assert_eq!(row_text(&writer, 0, 19), "This does not panic");
    assert_eq!(writer.row_position(), 1);
    assert_eq!(writer.column_position(), 0);
}

#[test]
fn test_println_many() {
    let mut writer = Writer::new(yellow_on_black());
    for _ in 0..200 {
        writer.write_string("test_println_many output\n");
    }
    assert_eq!(writer.row_position(), BUFFER_HEIGHT - 1);
    assert_eq!(row_text(&writer, BUFFER_HEIGHT - 2, 24), "test_println_many output");
    assert_eq!(row_text(&writer, BUFFER_HEIGHT - 1, 24), " ".repeat(24));
}

#[test]
fn test_println_output() {
    let s = "Some test string that fits on a single line";
    let mut writer = Writer::new(yellow_on_black());
    writer.write_string("\n");
    writer.write_string(s);
    writer.write_string("\n");
    for (i, c) in s.chars().enumerate() {
        let screen_char = writer.char_at(writer.row_position() - 1, i);
        assert_eq!(char::from(screen_char.ascii_char), c);
    }
}

#[test]
fn unprintable_bytes_are_replaced() {
    let mut writer = Writer::new(yellow_on_black());
    writer.write_string("a\u{e9}b\tc");
    // The two bytes of the accented letter and the tab are each replaced.
    let shown: Vec<u8> = (0..6).map(|col| writer.char_at(0, col).ascii_char).collect();
    assert_eq!(shown, vec![b'a', 0xfe, 0xfe, b'b', 0xfe, b'c']);
    assert_eq!(writer.column_position(), 6);
}

#[test]
fn full_row_wraps_before_the_next_byte() {
    let mut writer = Writer::new(yellow_on_black());
    for _ in 0..BUFFER_WIDTH {
        writer.write_byte(b'x');
    }
    assert_eq!(writer.row_position(), 0);
    assert_eq!(writer.column_position(), BUFFER_WIDTH);
    writer.write_byte(b'y');
    assert_eq!(writer.row_position(), 1);
    assert_eq!(writer.column_position(), 1);
    assert_eq!(writer.char_at(0, BUFFER_WIDTH - 1).ascii_char, b'x');
    assert_eq!(writer.char_at(1, 0).ascii_char, b'y');
}

#[test]
fn last_row_scrolls() {
    let mut writer = Writer::new(yellow_on_black());
    for row in 0..BUFFER_HEIGHT {
        writer.write_byte(b'a' + row as u8);
        if row + 1 < BUFFER_HEIGHT {
            writer.new_line();
        }
    }
    assert_eq!(writer.row_position(), BUFFER_HEIGHT - 1);
    assert_eq!(writer.char_at(0, 0).ascii_char, b'a');
    writer.new_line();
    assert_eq!(writer.row_position(), BUFFER_HEIGHT - 1);
    assert_eq!(writer.column_position(), 0);
    for row in 0..BUFFER_HEIGHT - 1 {
        assert_eq!(writer.char_at(row, 0).ascii_char, b'b' + row as u8);
    }
    assert_eq!(writer.char_at(BUFFER_HEIGHT - 1, 0).ascii_char, b' ');
}

#[test]
fn clear_row_blanks_one_row_only() {
    let mut writer = Writer::new(yellow_on_black());
    writer.write_string("first\nsecond\nthird");
    writer.clear_row(1);
    assert_eq!(row_text(&writer, 0, 5), "first");
    assert_eq!(row_text(&writer, 1, 6), "      ");
    assert_eq!(row_text(&writer, 2, 5), "third");
    assert_eq!(writer.row_position(), 2);
    assert_eq!(writer.column_position(), 5);
}
