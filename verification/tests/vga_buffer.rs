use vga_console::vga_buffer::{
    Buffer, Color, ColorCode, ScreenChar, Writer, BUFFER_HEIGHT, BUFFER_WIDTH,
};

fn fresh_writer() -> (Writer, ColorCode) {
    let code = ColorCode::new(Color::LightCyan, Color::Black);
    (Writer::new(Buffer::new(), code), code)
}

#[test]
fn test_color_code_packing() {
    assert_eq!(ColorCode::new(Color::LightCyan, Color::Black).0, 0x0b);
    assert_eq!(ColorCode::new(Color::White, Color::Blue).0, 0x1f);
    assert_eq!(ColorCode::new(Color::Yellow, Color::Red).0, 0x4e);
    assert_eq!(ColorCode::new(Color::Black, Color::Black).0, 0x00);
}

#[test]
fn test_fresh_buffer_is_blank() {
    let buffer = Buffer::new();
    let writer = Writer::new(buffer, ColorCode::new(Color::White, Color::Black));
    for row in 0..BUFFER_HEIGHT {
        for col in 0..BUFFER_WIDTH {
            let cell = writer.cell_at(row, col);
            assert_eq!(cell.ascii_character, b' ');
            assert_eq!(cell.color_code, ColorCode(0));
        }
    }
}

#[test]
fn test_round_trip_printable() {
    // Every printable byte written at a known column is read back
    // unchanged, paired with the active color.
    for byte in 0x20u8..=0x7e {
        let (mut writer, code) = fresh_writer();
        assert_eq!(writer.color(), code);
        writer.write_byte(byte);
        let cell = writer.cell_at(BUFFER_HEIGHT - 1, 0);
        assert_eq!(
            cell,
            ScreenChar {
                ascii_character: byte,
                color_code: code
            }
        );
        assert_eq!(writer.column(), 1);
    }
}

#[test]
fn test_substitution() {
    // A tab and each byte of a two-byte encoded character are outside
    // the printable range: the fallback glyph is stored, never the
    // original byte.
    let (mut writer, code) = fresh_writer();
    writer.write_string("a\t\u{00e9}b");
    let expected: [u8; 5] = [b'a', 0xfe, 0xfe, 0xfe, b'b'];
    for (i, want) in expected.iter().enumerate() {
        let cell = writer.cell_at(BUFFER_HEIGHT - 1, i);
        assert_eq!(cell.ascii_character, *want);
        assert_eq!(cell.color_code, code);
    }
    assert_eq!(writer.column(), 5);
}

#[test]
fn test_wrap_boundary() {
    // A full row of printable characters leaves the cursor exactly at
    // the row width; one character more scrolls first and lands at
    // column zero.
    let (mut writer, code) = fresh_writer();
    let row: String = std::iter::repeat('A').take(BUFFER_WIDTH).collect();
    writer.write_string(&row);
    assert_eq!(writer.column(), BUFFER_WIDTH);

    writer.write_byte(b'B');
    assert_eq!(writer.column(), 1);
    assert_eq!(
        writer.cell_at(BUFFER_HEIGHT - 1, 0),
        ScreenChar {
            ascii_character: b'B',
            color_code: code
        }
    );
    // The full row of A's moved up by one.
    for col in 0..BUFFER_WIDTH {
        assert_eq!(writer.cell_at(BUFFER_HEIGHT - 2, col).ascii_character, b'A');
    }
    // The rest of the bottom row was blanked by the scroll.
    for col in 1..BUFFER_WIDTH {
        assert_eq!(
            writer.cell_at(BUFFER_HEIGHT - 1, col),
            ScreenChar {
                ascii_character: b' ',
                color_code: code
            }
        );
    }
}

#[test]
fn test_scroll_correctness() {
    // Each newline shifts every row up by one and blanks the bottom row
    // in the active color.
    let (mut writer, code) = fresh_writer();
    writer.write_string("X\n");
    assert_eq!(writer.column(), 0);
    assert_eq!(writer.cell_at(BUFFER_HEIGHT - 2, 0).ascii_character, b'X');
    for col in 0..BUFFER_WIDTH {
        assert_eq!(
            writer.cell_at(BUFFER_HEIGHT - 1, col),
            ScreenChar {
                ascii_character: b' ',
                color_code: code
            }
        );
    }

    writer.write_string("Y\n");
    assert_eq!(writer.cell_at(BUFFER_HEIGHT - 3, 0).ascii_character, b'X');
    assert_eq!(writer.cell_at(BUFFER_HEIGHT - 2, 0).ascii_character, b'Y');
}

#[test]
fn test_single_line_scenario() {
    // A string that fits on one line is stored character for character,
    // with no substitution.
    let (mut writer, _) = fresh_writer();
    let s = "Some test string that fits on a single line";
    writer.write_string(s);
    for (i, c) in s.chars().enumerate() {
        let cell = writer.cell_at(BUFFER_HEIGHT - 1, i);
        assert_eq!(char::from(cell.ascii_character), c);
    }
    assert_eq!(writer.column(), s.len());
}

#[test]
fn test_newline_only_resets_column() {
    let (mut writer, _) = fresh_writer();
    writer.write_string("abc");
    assert_eq!(writer.column(), 3);
    writer.write_byte(b'\n');
    assert_eq!(writer.column(), 0);
    assert_eq!(writer.cell_at(BUFFER_HEIGHT - 2, 0).ascii_character, b'a');
    assert_eq!(writer.cell_at(BUFFER_HEIGHT - 2, 1).ascii_character, b'b');
    assert_eq!(writer.cell_at(BUFFER_HEIGHT - 2, 2).ascii_character, b'c');
}
