//! What each exception handler reports, and whether execution resumes.
use crate::fault::ExceptionStackFrame;
use crate::report::{context_lines, hex_line, labelled_hex, lines_of, push_context_lines};
use vstd::prelude::*;
use vstd::string::StringSliceAdditionalSpecFns;

verus! {

/// Vector of the divide-by-zero fault.
pub const DIVIDE_BY_ZERO: u8 = 0;
/// Vector of the breakpoint trap.
pub const BREAKPOINT: u8 = 3;
/// Vector of the invalid-opcode fault.
pub const INVALID_OPCODE: u8 = 6;
/// Vector of the double fault.
pub const DOUBLE_FAULT: u8 = 8;
/// Vector of the page fault.
pub const PAGE_FAULT: u8 = 14;

/// What the interrupted code sees once a handler is done.
#[derive(Clone, Copy, Debug, PartialEq, Eq, Structural)]
pub enum Control {
    /// Return from the interrupt: execution goes on at the frame's
    /// instruction pointer.
    Resume,
    /// Stop the processor for good.
    Halt,
}

/// A handler's report to the console and its decision.
pub struct FaultReport {
    pub lines: Vec<Vec<u8>>,
    pub control: Control,
}

/// The report of a divide-by-zero fault.
pub open spec fn divide_by_zero_lines(f: ExceptionStackFrame) -> Seq<Seq<u8>> {
    seq!["EXCEPTION: DIVIDE BY ZERO".spec_bytes()] + context_lines(f, None, None)
}

/// The report of a breakpoint.
pub open spec fn breakpoint_lines(f: ExceptionStackFrame) -> Seq<Seq<u8>> {
    seq!["BREAKPOINT encountered".spec_bytes()] + context_lines(f, None, None)
}

/// The report of an invalid opcode, naming the faulting instruction's address.
pub open spec fn invalid_opcode_lines(f: ExceptionStackFrame) -> Seq<Seq<u8>> {
    seq![labelled_hex("EXCEPTION: INVALID OPCODE at ", f.instruction_pointer)] + context_lines(f, None, None)
}

/// The report of a double fault, with its error code.
pub open spec fn double_fault_lines(f: ExceptionStackFrame, code: u64) -> Seq<Seq<u8>> {
    seq![labelled_hex("EXCEPTION: DOUBLE FAULT at ", f.instruction_pointer)] + context_lines(f, Some(code), None)
}

/// The report of a page fault: the address accessed, the error code decoded
/// bit by bit, and the frame.
pub open spec fn page_fault_lines(f: ExceptionStackFrame, code: u64, address: u64) -> Seq<Seq<u8>> {
    seq![labelled_hex("EXCEPTION: PAGE FAULT accessing ", address)] + context_lines(f, Some(code), Some(address))
}

/// The second line of a breakpoint or divide-by-zero report gives the
/// instruction pointer of the frame as the processor pushed it. For the
/// breakpoint trap at address `a`, `l` bytes long, the processor pushes
/// `a + l` (execution has moved past it); for the divide fault at `a` it
/// pushes `a` itself.
pub proof fn lemma_reported_instruction_pointer(f: ExceptionStackFrame, a: u64, l: u64)
    ensures
        f.instruction_pointer == a + l ==> breakpoint_lines(f)[1] == labelled_hex("instruction_pointer: ", (a + l) as u64),
        f.instruction_pointer == a ==> divide_by_zero_lines(f)[1] == labelled_hex("instruction_pointer: ", a),
{
}

/// A report made of `title` and then the body for the given fault.
fn report(title: Vec<u8>, f: &ExceptionStackFrame, error_code: Option<u64>, fault_address: Option<u64>, control: Control) -> (r: FaultReport)
    ensures
        lines_of(r.lines) == seq![title@] + context_lines(*f, error_code, fault_address),
        r.control == control,
{
    let mut lines: Vec<Vec<u8>> = Vec::new();
    lines.push(title);
    assert(lines_of(lines) =~= seq![title@]);
    push_context_lines(&mut lines, f, error_code, fault_address);
    FaultReport { lines, control }
}

/// The line `text`.
fn text_line(text: &str) -> (r: Vec<u8>)
    ensures
        r@ == text.spec_bytes(),
{
    let mut out: Vec<u8> = Vec::new();
    out.extend_from_slice(text.as_bytes());
    out
}

/// Divide by zero: reports the frame and resumes. The faulting instruction
/// is not skipped, so it runs, and faults, again.
pub fn divide_by_zero_handler(stack_frame: &ExceptionStackFrame) -> (r: FaultReport)
    ensures
        lines_of(r.lines) == divide_by_zero_lines(*stack_frame),
        r.control == Control::Resume,
{
    report(text_line("EXCEPTION: DIVIDE BY ZERO"), stack_frame, None, None, Control::Resume)
}

/// Breakpoint: reports the frame and resumes after the trap instruction.
pub fn breakpoint_handler(stack_frame: &ExceptionStackFrame) -> (r: FaultReport)
    ensures
        lines_of(r.lines) == breakpoint_lines(*stack_frame),
        r.control == Control::Resume,
{
    report(text_line("BREAKPOINT encountered"), stack_frame, None, None, Control::Resume)
}

/// Invalid opcode: reports the faulting address and the frame, and resumes.
pub fn invalid_opcode_handler(stack_frame: &ExceptionStackFrame) -> (r: FaultReport)
    ensures
        lines_of(r.lines) == invalid_opcode_lines(*stack_frame),
        r.control == Control::Resume,
{
    let title = hex_line("EXCEPTION: INVALID OPCODE at ", stack_frame.instruction_pointer);
    report(title, stack_frame, None, None, Control::Resume)
}

/// Double fault: reports the frame and the error code, and halts.
pub fn double_fault_handler(stack_frame: &ExceptionStackFrame, error_code: u64) -> (r: FaultReport)
    ensures
        lines_of(r.lines) == double_fault_lines(*stack_frame, error_code),
        r.control == Control::Halt,
{
    let title = hex_line("EXCEPTION: DOUBLE FAULT at ", stack_frame.instruction_pointer);
    report(title, stack_frame, Some(error_code), None, Control::Halt)
}

/// Page fault at `fault_address` (read from the fault-address register before
/// anything else): reports the address, the decoded error code and the frame,
/// and resumes. No page is mapped, so the access faults again.
pub fn page_fault_handler(stack_frame: &ExceptionStackFrame, error_code: u64, fault_address: u64) -> (r: FaultReport)
    ensures
        lines_of(r.lines) == page_fault_lines(*stack_frame, error_code, fault_address),
        r.control == Control::Resume,
{
    let title = hex_line("EXCEPTION: PAGE FAULT accessing ", fault_address);
    report(title, stack_frame, Some(error_code), Some(fault_address), Control::Resume)
}

/// The handler for `vector`, for the vectors this core binds; `None` for any
/// other. `error_code` and `fault_address` are read only for the vectors
/// that have them.
pub fn handle_exception(vector: u8, stack_frame: &ExceptionStackFrame, error_code: u64, fault_address: u64) -> (r: Option<FaultReport>)
    ensures
        r is Some <==> (vector == DIVIDE_BY_ZERO || vector == BREAKPOINT || vector == INVALID_OPCODE
            || vector == DOUBLE_FAULT || vector == PAGE_FAULT),
        r matches Some(rep) ==> {
            &&& vector == DIVIDE_BY_ZERO ==> lines_of(rep.lines) == divide_by_zero_lines(*stack_frame)
            &&& vector == BREAKPOINT ==> lines_of(rep.lines) == breakpoint_lines(*stack_frame)
            &&& vector == INVALID_OPCODE ==> lines_of(rep.lines) == invalid_opcode_lines(*stack_frame)
            &&& vector == DOUBLE_FAULT ==> lines_of(rep.lines) == double_fault_lines(*stack_frame, error_code)
            &&& vector == PAGE_FAULT ==> lines_of(rep.lines) == page_fault_lines(*stack_frame, error_code, fault_address)
            &&& (rep.control == Control::Halt <==> vector == DOUBLE_FAULT)
        },
{
    if vector == DIVIDE_BY_ZERO {
        Some(divide_by_zero_handler(stack_frame))
    } else if vector == BREAKPOINT {
        Some(breakpoint_handler(stack_frame))
    } else if vector == INVALID_OPCODE {
        Some(invalid_opcode_handler(stack_frame))
    } else if vector == DOUBLE_FAULT {
        Some(double_fault_handler(stack_frame, error_code))
    } else if vector == PAGE_FAULT {
        Some(page_fault_handler(stack_frame, error_code, fault_address))
    } else {
        None
    }
}

} // verus!
