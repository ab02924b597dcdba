//! The exception frame the hardware pushes, and the page-fault error code.
use vstd::prelude::*;

verus! {

/// The register snapshot the processor pushes on every exception, in the
/// order it pushes it.
#[derive(Clone, Copy, Debug, PartialEq, Eq, Structural)]
pub struct ExceptionStackFrame {
    pub instruction_pointer: u64,
    pub code_segment: u64,
    pub cpu_flags: u64,
    pub stack_pointer: u64,
    pub stack_segment: u64,
}

/// Bits of the page-fault error code that carry a known meaning (bits 0..5).
pub const KNOWN_CODE_BITS: u64 = 0x1f;

/// Whether bit `bit` of error code `code` is set.
pub open spec fn code_bit(code: u64, bit: u64) -> bool {
    code & (1u64 << bit) != 0
}

/// A page-fault error code, decoded bit by bit.
#[derive(Clone, Copy, Debug, PartialEq, Eq, Structural)]
pub struct PageFaultFlags {
    /// Set: a protection violation; clear: the page was not present.
    pub protection_violation: bool,
    /// Set: a write; clear: a read.
    pub caused_by_write: bool,
    /// Set: user-privilege code; clear: supervisor code.
    pub user_mode: bool,
    /// A reserved bit was set in a page-table entry.
    pub malformed_table: bool,
    /// The access was an instruction fetch.
    pub instruction_fetch: bool,
    /// Every set bit that carries no known meaning.
    pub unknown_bits: u64,
}

/// The decoding of `code`.
pub open spec fn flags_of(code: u64) -> PageFaultFlags {
    PageFaultFlags {
        protection_violation: code_bit(code, 0),
        caused_by_write: code_bit(code, 1),
        user_mode: code_bit(code, 2),
        malformed_table: code_bit(code, 3),
        instruction_fetch: code_bit(code, 4),
        unknown_bits: code & !KNOWN_CODE_BITS,
    }
}

/// Whether the fault was a protection violation rather than a missing page.
pub fn is_protection_violation(code: u64) -> (r: bool)
    ensures
        r == code_bit(code, 0),
{
    code & (1u64 << 0u64) != 0
}

/// Whether the fault was caused by a write rather than a read.
pub fn is_write(code: u64) -> (r: bool)
    ensures
        r == code_bit(code, 1),
{
    code & (1u64 << 1u64) != 0
}

/// Whether the fault came from user-privilege code.
pub fn is_user_mode(code: u64) -> (r: bool)
    ensures
        r == code_bit(code, 2),
{
    code & (1u64 << 2u64) != 0
}

/// Whether a reserved bit was set in a page-table entry.
pub fn is_malformed_table(code: u64) -> (r: bool)
    ensures
        r == code_bit(code, 3),
{
    code & (1u64 << 3u64) != 0
}

/// Whether the fault was caused by an instruction fetch.
pub fn is_instruction_fetch(code: u64) -> (r: bool)
    ensures
        r == code_bit(code, 4),
{
    code & (1u64 << 4u64) != 0
}

/// Decodes every bit of a page-fault error code. Any value decodes: bits
/// without a known meaning are kept aside, never rejected.
pub fn decode_page_fault(code: u64) -> (r: PageFaultFlags)
    ensures
        r == flags_of(code),
{
    PageFaultFlags {
        protection_violation: is_protection_violation(code),
        caused_by_write: is_write(code),
        user_mode: is_user_mode(code),
        malformed_table: is_malformed_table(code),
        instruction_fetch: is_instruction_fetch(code),
        unknown_bits: code & !KNOWN_CODE_BITS,
    }
}

} // verus!
