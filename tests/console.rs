use interrupt_core::console::{Console, Delivery};
use interrupt_core::serial::{
    baud_for_divisor, divisor_for_baud, has_available_byte, has_write_space, join_divisor, needs_latch,
    register_port, split_divisor, with_latch, without_latch, Register, COM1_PORT,
};
use interrupt_core::trampoline::{entry_shape, handler_call, EntryShape, HandlerCall};
use interrupt_core::vga::{clear_buffer, print, ColorCode, Writer, BUFFER_HEIGHT, BUFFER_WIDTH};

fn white() -> ColorCode {
    ColorCode::new(15, 0)
}

fn row_text(w: &Writer, row: usize) -> String {
    (0..BUFFER_WIDTH).map(|c| w.cell(row, c).ascii as char).collect::<String>().trim_end().to_string()
}

#[test]
fn color_code_packs_background_high() {
    assert_eq!(ColorCode::new(15, 0).value, 0x0f);
    assert_eq!(ColorCode::new(2, 1).value, 0x12);
}

#[test]
fn writer_writes_at_cursor() {
    let mut w = Writer::new(white());
    print(&mut w, "hello");
    assert_eq!(row_text(&w, 0), "hello");
    assert_eq!(w.column_position(), 5);
    assert_eq!(w.cursor_offset(), 5);
    assert_eq!(w.cell(0, 0).color_code, white());
    w.write_byte(b'\n');
    assert_eq!(w.row_position(), 1);
    assert_eq!(w.column_position(), 0);
    w.write_str("ab");
    assert_eq!(row_text(&w, 1), "ab");
    assert_eq!(w.cursor_offset(), 82);
}

#[test]
fn writer_wraps_full_row() {
    let mut w = Writer::new(white());
    let line: String = std::iter::repeat('x').take(BUFFER_WIDTH).collect();
    w.write_str(&line);
    assert_eq!(w.column_position(), 80);
    assert_eq!(w.row_position(), 0);
    w.write_byte(b'y');
    assert_eq!(w.row_position(), 1);
    assert_eq!(w.column_position(), 1);
    assert_eq!(row_text(&w, 1), "y");
}

#[test]
fn writer_scrolls_on_last_row() {
    let mut w = Writer::new(white());
    for i in 0..BUFFER_HEIGHT {
        w.write_str(&format!("line {}\n", i));
    }
    // 25 newlines: the first line has scrolled off.
    assert_eq!(w.row_position(), BUFFER_HEIGHT - 1);
    assert_eq!(row_text(&w, 0), "line 1");
    assert_eq!(row_text(&w, 23), "line 24");
    assert_eq!(row_text(&w, 24), "");
}

#[test]
fn clearing_blanks_every_row() {
    let mut w = Writer::new(white());
    w.write_str("abc\ndef");
    w.clear_row(0);
    assert_eq!(row_text(&w, 0), "");
    assert_eq!(row_text(&w, 1), "def");
    w.clear_buffer();
    assert_eq!(row_text(&w, 1), "");
    assert_eq!(w.row_position(), 1);
    clear_buffer(&mut w);
    assert_eq!(w.row_position(), 0);
    assert_eq!(w.column_position(), 0);
    assert_eq!(w.cursor_offset(), 0);
    w.new_line();
    assert_eq!(w.cursor_offset(), 80);
}

#[test]
fn handler_write_while_lock_held_does_not_wait() {
    let mut c = Console::new(white());
    assert_eq!(c.print("boot\n"), Delivery::Written);
    assert!(c.try_lock());
    c.print_locked("main ");
    // An exception arrives while the lock is held.
    assert_eq!(c.print("FAULT"), Delivery::Deferred);
    assert!(!c.try_lock());
    assert_eq!(row_text(c.writer(), 1), "main");
    c.unlock();
    assert!(!c.is_locked());
    assert_eq!(row_text(c.writer(), 1), "main FAULT");
    assert_eq!(c.print("!"), Delivery::Written);
    assert_eq!(row_text(c.writer(), 1), "main FAULT!");
}

#[test]
fn entry_shapes_by_vector() {
    for v in 0..=255u8 {
        let expected = if v == 8 || v == 14 { EntryShape::ErrorCode } else { EntryShape::NoErrorCode };
        assert_eq!(entry_shape(v), expected);
    }
}

#[test]
fn trampoline_call_plan() {
    // The processor aligns the stack to 16 bytes before pushing 5 words.
    let top: u64 = 0x0020_0000;
    let sp = top - 40;
    assert_eq!(
        handler_call(EntryShape::NoErrorCode, sp),
        HandlerCall { frame_address: sp, error_code_address: None, call_stack_pointer: sp - 8 }
    );
    let sp = top - 48;
    assert_eq!(
        handler_call(EntryShape::ErrorCode, sp),
        HandlerCall { frame_address: sp + 8, error_code_address: Some(sp), call_stack_pointer: sp }
    );
}

#[test]
fn serial_registers_and_divisor() {
    assert_eq!(register_port(COM1_PORT, Register::LineStatus), 0x3FD);
    assert_eq!(register_port(COM1_PORT, Register::DivisorLatchHigh), 0x3F9);
    assert_eq!(register_port(COM1_PORT, Register::FifoControl), 0x3FA);
    assert!(needs_latch(Register::DivisorLatchLow));
    assert!(!needs_latch(Register::Data));
    assert_eq!(with_latch(0x03), 0x83);
    assert_eq!(without_latch(0x83), 0x03);
    assert_eq!(divisor_for_baud(115200), Some(1));
    assert_eq!(divisor_for_baud(9600), Some(12));
    assert_eq!(divisor_for_baud(7), None);
    assert_eq!(divisor_for_baud(0), None);
    assert_eq!(divisor_for_baud(1), None);
    assert_eq!(baud_for_divisor(12), Some(9600));
    assert_eq!(baud_for_divisor(0), None);
    assert_eq!(split_divisor(0x1234), (0x34, 0x12));
    assert_eq!(join_divisor(0x34, 0x12), 0x1234);
    assert!(has_available_byte(0x61));
    assert!(!has_available_byte(0x60));
    assert!(has_write_space(0x20));
    assert!(!has_write_space(0x01));
}

#[test]
fn console_clear_keeps_lock_state() {
    let mut c = Console::new(white());
    c.print("abc\ndef");
    assert!(c.try_lock());
    assert_eq!(c.print("x"), Delivery::Deferred);
    c.clear();
    assert!(c.is_locked());
    assert_eq!(row_text(c.writer(), 0), "");
    assert_eq!(c.writer().cursor_offset(), 0);
    c.unlock();
    assert_eq!(row_text(c.writer(), 0), "x");
}
