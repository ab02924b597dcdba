use interrupt_core::fault::{
    decode_page_fault, is_instruction_fetch, is_malformed_table, is_protection_violation, is_user_mode, is_write,
    ExceptionStackFrame, PageFaultFlags,
};
use interrupt_core::handlers::{
    breakpoint_handler, divide_by_zero_handler, double_fault_handler, handle_exception, invalid_opcode_handler,
    page_fault_handler, Control, FaultReport,
};
use interrupt_core::report::{fault_context_lines, flag_line, hex_line, push_hex};

fn text(r: &FaultReport) -> Vec<String> {
    r.lines.iter().map(|l| String::from_utf8(l.clone()).unwrap()).collect()
}

fn frame(ip: u64) -> ExceptionStackFrame {
    ExceptionStackFrame {
        instruction_pointer: ip,
        code_segment: 0x08,
        cpu_flags: 0x202,
        stack_pointer: 0x0012_3ff8,
        stack_segment: 0x10,
    }
}

fn frame_text(ip: u64) -> Vec<String> {
    vec![
        format!("instruction_pointer: {:#018x}", ip),
        "code_segment: 0x0000000000000008".to_string(),
        "cpu_flags: 0x0000000000000202".to_string(),
        "stack_pointer: 0x0000000000123ff8".to_string(),
        "stack_segment: 0x0000000000000010".to_string(),
    ]
}

#[test]
fn hex_is_sixteen_lower_case_digits() {
    let mut out = b"x=".to_vec();
    push_hex(&mut out, 0xDEAD_BEAF);
    assert_eq!(out, b"x=0x00000000deadbeaf".to_vec());
    assert_eq!(hex_line("a: ", u64::MAX), b"a: 0xffffffffffffffff".to_vec());
    assert_eq!(hex_line("", 0), b"0x0000000000000000".to_vec());
    assert_eq!(flag_line("f: ", true), b"f: true".to_vec());
    assert_eq!(flag_line("f: ", false), b"f: false".to_vec());
}

#[test]
fn error_code_predicates() {
    assert!(is_protection_violation(0b1));
    assert!(is_write(0b10));
    assert!(is_user_mode(0b100));
    assert!(is_malformed_table(0b1000));
    assert!(is_instruction_fetch(0b10000));
    assert!(!is_protection_violation(0b11110));
    assert!(!is_write(0b11101));
    assert!(!is_user_mode(0b11011));
    assert!(!is_malformed_table(0b10111));
    assert!(!is_instruction_fetch(0b01111));
}

#[test]
fn supervisor_write_to_missing_page_decodes() {
    let f = decode_page_fault(0b010);
    assert_eq!(
        f,
        PageFaultFlags {
            protection_violation: false,
            caused_by_write: true,
            user_mode: false,
            malformed_table: false,
            instruction_fetch: false,
            unknown_bits: 0,
        }
    );
}

#[test]
fn unknown_error_code_bits_do_not_fail() {
    let f = decode_page_fault(0xffff_ffff_ffff_ffe5);
    assert!(f.protection_violation);
    assert!(!f.caused_by_write);
    assert!(f.user_mode);
    assert!(!f.malformed_table);
    assert!(!f.instruction_fetch);
    assert_eq!(f.unknown_bits, 0xffff_ffff_ffff_ffe0);
    let lines = fault_context_lines(&frame(1), Some(0x25), Some(0x1000));
    assert_eq!(lines[7], b"unknown_bits: 0x0000000000000020".to_vec());
}

#[test]
fn page_fault_reports_address_and_flags() {
    let r = page_fault_handler(&frame(0x0010_2030), 0b010, 0xDEAD_BEAF);
    assert_eq!(r.control, Control::Resume);
    let mut expected = vec![
        "EXCEPTION: PAGE FAULT accessing 0x00000000deadbeaf".to_string(),
        "fault_address: 0x00000000deadbeaf".to_string(),
        "error_code: 0x0000000000000002".to_string(),
        "protection_violation: false".to_string(),
        "caused_by_write: true".to_string(),
        "user_mode: false".to_string(),
        "malformed_table: false".to_string(),
        "instruction_fetch: false".to_string(),
    ];
    expected.extend(frame_text(0x0010_2030));
    assert_eq!(text(&r), expected);
}

#[test]
fn breakpoint_reports_address_after_trap() {
    // int3 at A is one byte long: the frame holds A + 1.
    let a: u64 = 0x0010_4000;
    let r = breakpoint_handler(&frame(a + 1));
    assert_eq!(r.control, Control::Resume);
    let mut expected = vec!["BREAKPOINT encountered".to_string()];
    expected.extend(frame_text(a + 1));
    assert_eq!(text(&r), expected);
    assert_eq!(text(&r)[1], "instruction_pointer: 0x0000000000104001");
}

#[test]
fn divide_by_zero_reports_faulting_address() {
    let a: u64 = 0x0010_5000;
    let r = divide_by_zero_handler(&frame(a));
    assert_eq!(r.control, Control::Resume);
    let mut expected = vec!["EXCEPTION: DIVIDE BY ZERO".to_string()];
    expected.extend(frame_text(a));
    assert_eq!(text(&r), expected);
}

#[test]
fn invalid_opcode_names_instruction() {
    let r = invalid_opcode_handler(&frame(0x0010_6000));
    assert_eq!(r.control, Control::Resume);
    assert_eq!(text(&r)[0], "EXCEPTION: INVALID OPCODE at 0x0000000000106000");
    assert_eq!(text(&r).len(), 6);
}

#[test]
fn double_fault_halts() {
    let r = double_fault_handler(&frame(0x0010_7000), 0);
    assert_eq!(r.control, Control::Halt);
    let mut expected = vec![
        "EXCEPTION: DOUBLE FAULT at 0x0000000000107000".to_string(),
        "error_code: 0x0000000000000000".to_string(),
    ];
    expected.extend(frame_text(0x0010_7000));
    assert_eq!(text(&r), expected);
}

#[test]
fn dispatch_by_vector() {
    let f = frame(0x0010_8000);
    for v in 0..=255u8 {
        let r = handle_exception(v, &f, 0b11, 0x10);
        match v {
            0 | 3 | 6 | 14 => assert_eq!(r.unwrap().control, Control::Resume),
            8 => assert_eq!(r.unwrap().control, Control::Halt),
            _ => assert!(r.is_none()),
        }
    }
    let r = handle_exception(14, &f, 0b11, 0x10).unwrap();
    assert_eq!(text(&r)[0], "EXCEPTION: PAGE FAULT accessing 0x0000000000000010");
    assert_eq!(text(&r)[3], "protection_violation: true");
}

#[test]
fn context_without_code_is_the_frame() {
    let lines = fault_context_lines(&frame(9), None, None);
    let t: Vec<String> = lines.into_iter().map(|l| String::from_utf8(l).unwrap()).collect();
    assert_eq!(t, frame_text(9));
}
