use vga_console::console::{Console, _print};
use vga_console::vga_buffer::{Buffer, Color, ColorCode, Writer, BUFFER_HEIGHT};

fn fresh_console() -> Console {
    let code = ColorCode::new(Color::LightCyan, Color::Black);
    Console::new(Writer::new(Buffer::new(), code))
}

#[test]
fn test_println_simple() {
    let console = fresh_console();
    _print(&console, "test_println_simple output\n");
    assert_eq!(console.column(), 0);
}

#[test]
fn test_println_output() {
    let console = fresh_console();
    let s = "Some test string that fits on a single line";
    _print(&console, s);
    _print(&console, "\n");
    for (i, c) in s.chars().enumerate() {
        let cell = console.cell_at(BUFFER_HEIGHT - 2, i);
        assert_eq!(char::from(cell.ascii_character), c);
    }
}

#[test]
fn test_serialization() {
    // Two whole writes through the console appear in call order, never
    // interleaved: the grid is consistent with a total ordering of the
    // two calls.
    let console = fresh_console();
    _print(&console, "AAAA");
    _print(&console, "BBBB");
    let mut line = String::new();
    for col in 0..8 {
        line.push(char::from(console.cell_at(BUFFER_HEIGHT - 1, col).ascii_character));
    }
    assert_eq!(line, "AAAABBBB");
}
