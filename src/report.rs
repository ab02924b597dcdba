//! Turns a fault's frame, error code and fault address into lines of text.
use crate::fault::{flags_of, decode_page_fault, ExceptionStackFrame};
use vstd::prelude::*;
use vstd::string::StringSliceAdditionalSpecFns;

verus! {

/// The ASCII digit for a value below 16, lower case.
pub open spec fn hex_digit(d: u64) -> u8 {
    if d < 10 { (d + 48) as u8 } else { (d + 87) as u8 }
}

/// `n` as `0x` and sixteen hexadecimal digits, most significant first.
pub open spec fn hex_of(n: u64) -> Seq<u8> {
    seq![48u8, 120u8] + Seq::new(16, |i: int| hex_digit((n >> ((60 - 4 * i) as u64)) & 0xf))
}

/// `label` followed by `n` in hexadecimal.
pub open spec fn labelled_hex(label: &str, n: u64) -> Seq<u8> {
    label.spec_bytes() + hex_of(n)
}

/// `label` followed by `true` or `false`.
pub open spec fn labelled_flag(label: &str, b: bool) -> Seq<u8> {
    label.spec_bytes() + (if b { "true".spec_bytes() } else { "false".spec_bytes() })
}

/// One line per field of the frame, each by its name.
pub open spec fn frame_lines(f: ExceptionStackFrame) -> Seq<Seq<u8>> {
    seq![
        labelled_hex("instruction_pointer: ", f.instruction_pointer),
        labelled_hex("code_segment: ", f.code_segment),
        labelled_hex("cpu_flags: ", f.cpu_flags),
        labelled_hex("stack_pointer: ", f.stack_pointer),
        labelled_hex("stack_segment: ", f.stack_segment),
    ]
}

/// One line per decoded bit of a page-fault error code, each by its name,
/// and one for the bits without a meaning where any is set.
pub open spec fn flag_lines(code: u64) -> Seq<Seq<u8>> {
    let f = flags_of(code);
    seq![
        labelled_flag("protection_violation: ", f.protection_violation),
        labelled_flag("caused_by_write: ", f.caused_by_write),
        labelled_flag("user_mode: ", f.user_mode),
        labelled_flag("malformed_table: ", f.malformed_table),
        labelled_flag("instruction_fetch: ", f.instruction_fetch),
    ] + (if f.unknown_bits != 0 { seq![labelled_hex("unknown_bits: ", f.unknown_bits)] } else { seq![] })
}

/// The report body: the fault address where there is one, the error code
/// where there is one (decoded bit by bit for a page fault, which is the
/// fault with an address), then the frame.
pub open spec fn context_lines(f: ExceptionStackFrame, error_code: Option<u64>, fault_address: Option<u64>) -> Seq<Seq<u8>> {
    (match fault_address {
        Some(a) => seq![labelled_hex("fault_address: ", a)],
        None => seq![],
    }) + (match error_code {
        Some(c) => seq![labelled_hex("error_code: ", c)] + (if fault_address is Some { flag_lines(c) } else { seq![] }),
        None => seq![],
    }) + frame_lines(f)
}

/// The lines of a vector of lines.
pub open spec fn lines_of(v: Vec<Vec<u8>>) -> Seq<Seq<u8>> {
    Seq::new(v@.len(), |i: int| v@[i]@)
}

/// Appends `n` in hexadecimal to `out`.
pub fn push_hex(out: &mut Vec<u8>, n: u64)
    ensures
        final(out)@ == old(out)@ + hex_of(n),
{
    out.push(48u8);
    out.push(120u8);
    let ghost start = old(out)@ + seq![48u8, 120u8];
    let mut i: u64 = 0;
    while i < 16
        invariant
            i <= 16,
            out@ == start + Seq::new(i as nat, |k: int| hex_digit((n >> ((60 - 4 * k) as u64)) & 0xf)),
        decreases 16 - i,
    {
        let shift: u64 = 60 - 4 * i;
        let d = (n >> shift) & 0xf;
        assert((n >> shift) & 0xf < 16) by (bit_vector);
        let c: u8 = if d < 10 { (d + 48) as u8 } else { (d + 87) as u8 };
        out.push(c);
        i = i + 1;
        assert(out@ =~= start + Seq::new(i as nat, |k: int| hex_digit((n >> ((60 - 4 * k) as u64)) & 0xf)));
    }
    assert(out@ =~= old(out)@ + hex_of(n));
}

/// The line `label` followed by `n` in hexadecimal.
pub fn hex_line(label: &str, n: u64) -> (r: Vec<u8>)
    ensures
        r@ == labelled_hex(label, n),
{
    let mut out: Vec<u8> = Vec::new();
    out.extend_from_slice(label.as_bytes());
    assert(out@ =~= label.spec_bytes());
    push_hex(&mut out, n);
    out
}

/// The line `label` followed by `true` or `false`.
pub fn flag_line(label: &str, b: bool) -> (r: Vec<u8>)
    ensures
        r@ == labelled_flag(label, b),
{
    let mut out: Vec<u8> = Vec::new();
    out.extend_from_slice(label.as_bytes());
    let text = if b { "true" } else { "false" };
    out.extend_from_slice(text.as_bytes());
    out
}

/// Appends `line` to `lines`.
fn push_line(lines: &mut Vec<Vec<u8>>, line: Vec<u8>)
    ensures
        lines_of(*final(lines)) == lines_of(*old(lines)).push(line@),
{
    lines.push(line);
    assert(lines_of(*lines) =~= lines_of(*old(lines)).push(line@));
}

/// Appends the frame's lines to `lines`.
fn push_frame_lines(lines: &mut Vec<Vec<u8>>, f: &ExceptionStackFrame)
    ensures
        lines_of(*final(lines)) == lines_of(*old(lines)) + frame_lines(*f),
{
    push_line(lines, hex_line("instruction_pointer: ", f.instruction_pointer));
    push_line(lines, hex_line("code_segment: ", f.code_segment));
    push_line(lines, hex_line("cpu_flags: ", f.cpu_flags));
    push_line(lines, hex_line("stack_pointer: ", f.stack_pointer));
    push_line(lines, hex_line("stack_segment: ", f.stack_segment));
    assert(lines_of(*lines) =~= lines_of(*old(lines)) + frame_lines(*f));
}

/// Appends the decoded page-fault error code's lines to `lines`.
fn push_flag_lines(lines: &mut Vec<Vec<u8>>, code: u64)
    ensures
        lines_of(*final(lines)) == lines_of(*old(lines)) + flag_lines(code),
{
    let f = decode_page_fault(code);
    push_line(lines, flag_line("protection_violation: ", f.protection_violation));
    push_line(lines, flag_line("caused_by_write: ", f.caused_by_write));
    push_line(lines, flag_line("user_mode: ", f.user_mode));
    push_line(lines, flag_line("malformed_table: ", f.malformed_table));
    push_line(lines, flag_line("instruction_fetch: ", f.instruction_fetch));
    if f.unknown_bits != 0 {
        push_line(lines, hex_line("unknown_bits: ", f.unknown_bits));
    }
    assert(lines_of(*lines) =~= lines_of(*old(lines)) + flag_lines(code));
}

/// Appends the report body for a fault to `lines`: the fault address and the
/// error code where given, then the frame.
pub fn push_context_lines(
    lines: &mut Vec<Vec<u8>>,
    f: &ExceptionStackFrame,
    error_code: Option<u64>,
    fault_address: Option<u64>,
)
    ensures
        lines_of(*final(lines)) == lines_of(*old(lines)) + context_lines(*f, error_code, fault_address),
{
    if let Some(a) = fault_address {
        push_line(lines, hex_line("fault_address: ", a));
    }
    if let Some(c) = error_code {
        push_line(lines, hex_line("error_code: ", c));
        if fault_address.is_some() {
            push_flag_lines(lines, c);
        }
    }
    push_frame_lines(lines, f);
    assert(lines_of(*lines) =~= lines_of(*old(lines)) + context_lines(*f, error_code, fault_address));
}

/// The report body for a fault, as lines of text.
pub fn fault_context_lines(f: &ExceptionStackFrame, error_code: Option<u64>, fault_address: Option<u64>) -> (r: Vec<Vec<u8>>)
    ensures
        lines_of(r) == context_lines(*f, error_code, fault_address),
{
    let mut lines: Vec<Vec<u8>> = Vec::new();
    assert(lines_of(lines) =~= Seq::<Seq<u8>>::empty());
    push_context_lines(&mut lines, f, error_code, fault_address);
    assert(lines_of(lines) =~= context_lines(*f, error_code, fault_address));
    lines
}

} // verus!
