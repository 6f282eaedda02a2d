use vga_console::console::{Console, _print};
use vga_console::interrupts::{
    dispatch_trap, emit_trap_report, init_idt, trap_message, HandlerRoutine, TrapFrame,
    TrapVectorTable, BREAKPOINT_VECTOR, DIVIDE_ERROR_VECTOR,
};
use vga_console::vga_buffer::{Buffer, Color, ColorCode, Writer, BUFFER_HEIGHT};

fn fresh_console() -> Console {
    let code = ColorCode::new(Color::LightCyan, Color::Black);
    Console::new(Writer::new(Buffer::new(), code))
}

fn sample_frame() -> TrapFrame {
    TrapFrame {
        instruction_pointer: 0x1234,
        code_segment: 0x8,
        cpu_flags: 0x202,
        stack_pointer: 0xdead_beef,
        stack_segment: 0x10,
    }
}

#[test]
fn test_init_idt_slots() {
    let table = init_idt();
    assert_eq!(
        table.handler_for(BREAKPOINT_VECTOR),
        Some(HandlerRoutine::BreakpointReport)
    );
    assert_eq!(
        table.handler_for(DIVIDE_ERROR_VECTOR),
        Some(HandlerRoutine::DivideErrorReport)
    );
    assert_eq!(table.handler_for(14), None);
    assert_eq!(table.handler_for(255), None);
}

#[test]
fn test_table_build_and_load() {
    let mut table = TrapVectorTable::new();
    assert_eq!(table.handler_for(BREAKPOINT_VECTOR), None);
    table.set_handler(BREAKPOINT_VECTOR, HandlerRoutine::BreakpointReport);
    assert_eq!(
        table.handler_for(BREAKPOINT_VECTOR),
        Some(HandlerRoutine::BreakpointReport)
    );
    table.load();
    assert_eq!(
        table.handler_for(BREAKPOINT_VECTOR),
        Some(HandlerRoutine::BreakpointReport)
    );
}

#[test]
fn test_breakpoint_message_exact() {
    let message = trap_message(HandlerRoutine::BreakpointReport, &sample_frame());
    let expected = "EXCEPTION: BREAKPOINT\n\
        instruction_pointer: 0x0000000000001234\n\
        code_segment: 0x0000000000000008\n\
        cpu_flags: 0x0000000000000202\n\
        stack_pointer: 0x00000000deadbeef\n\
        stack_segment: 0x0000000000000010\n";
    assert_eq!(message.as_str(), expected);
}

#[test]
fn test_divide_error_message_exact() {
    let message = trap_message(HandlerRoutine::DivideErrorReport, &sample_frame());
    assert!(message.as_str().starts_with("EXCEPTION: DIVIDE ERROR\n"));
    assert!(message
        .as_str()
        .contains("instruction_pointer: 0x0000000000001234\n"));
}

#[test]
fn test_breakpoint_dispatch_reports_and_returns() {
    // Dispatching the breakpoint vector runs the reporting routine once
    // and hands control back; the diagnostic is on the display.
    let console = fresh_console();
    let table = init_idt();
    let handled = dispatch_trap(&table, &console, BREAKPOINT_VECTOR, &sample_frame());
    assert!(handled);
    // The message has six lines, each ended by a newline, so its first
    // line has scrolled up to six rows above the bottom.
    let first_line = "EXCEPTION: BREAKPOINT";
    for (i, c) in first_line.chars().enumerate() {
        let cell = console.cell_at(BUFFER_HEIGHT - 7, i);
        assert_eq!(char::from(cell.ascii_character), c);
    }
    assert_eq!(console.column(), 0);
}

#[test]
fn test_emit_trap_report_on_writer() {
    // The handler core renders the diagnostic straight through a
    // writer: six lines, so the first sits six rows above the bottom,
    // and the cursor ends at column zero.
    let code = ColorCode::new(Color::LightCyan, Color::Black);
    let mut writer = Writer::new(Buffer::new(), code);
    emit_trap_report(&mut writer, HandlerRoutine::BreakpointReport, &sample_frame());
    for (i, c) in "EXCEPTION: BREAKPOINT".chars().enumerate() {
        let cell = writer.cell_at(BUFFER_HEIGHT - 7, i);
        assert_eq!(char::from(cell.ascii_character), c);
        assert_eq!(cell.color_code, code);
    }
    assert_eq!(writer.column(), 0);
}

#[test]
fn test_dispatch_unpopulated_vector() {
    let console = fresh_console();
    let table = init_idt();
    let handled = dispatch_trap(&table, &console, 14, &sample_frame());
    assert!(!handled);
    // Nothing was written: the display is still blank.
    assert_eq!(console.cell_at(BUFFER_HEIGHT - 1, 0).ascii_character, b' ');
    assert_eq!(console.column(), 0);
}

#[test]
fn test_handlers_emit_after_print() {
    // A handler's output lands after earlier console output, through
    // the same locked writer.
    let console = fresh_console();
    _print(&console, "booting\n");
    let table = init_idt();
    let handled = dispatch_trap(&table, &console, DIVIDE_ERROR_VECTOR, &sample_frame());
    assert!(handled);
    let row = BUFFER_HEIGHT - 7;
    for (i, c) in "EXCEPTION: DIVIDE ERROR".chars().enumerate() {
        assert_eq!(char::from(console.cell_at(row, i).ascii_character), c);
    }
}
