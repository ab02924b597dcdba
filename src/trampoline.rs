//! What an entry trampoline does with the stack: where the frame and the
//! error code lie, and where the stack pointer stands for the call.
use crate::handlers::{DOUBLE_FAULT, PAGE_FAULT};
use vstd::prelude::*;

verus! {

/// The two shapes of hardware entry.
#[derive(Clone, Copy, Debug, PartialEq, Eq, Structural)]
pub enum EntryShape {
    /// The stack pointer addresses the frame.
    NoErrorCode,
    /// A 64-bit error code lies at the stack pointer, the frame above it.
    ErrorCode,
}

/// Whether the vector's hardware entry pushes an error code below the frame.
pub open spec fn pushes_error_code(vector: u8) -> bool {
    vector == DOUBLE_FAULT || vector == PAGE_FAULT
}

/// The shape of the entry for `vector`.
pub fn entry_shape(vector: u8) -> (r: EntryShape)
    ensures
        r == (if pushes_error_code(vector) { EntryShape::ErrorCode } else { EntryShape::NoErrorCode }),
{
    if vector == DOUBLE_FAULT || vector == PAGE_FAULT {
        EntryShape::ErrorCode
    } else {
        EntryShape::NoErrorCode
    }
}

/// How a trampoline calls its handler.
#[derive(Clone, Copy, Debug, PartialEq, Eq, Structural)]
pub struct HandlerCall {
    /// The handler's first argument: the frame's address.
    pub frame_address: u64,
    /// Where the error code is popped from, for the error-code shape.
    pub error_code_address: Option<u64>,
    /// The stack pointer at the call instruction, aligned to 16 bytes.
    pub call_stack_pointer: u64,
}

/// The frame's address for a trampoline entered with stack pointer `sp`.
pub open spec fn frame_address_of(shape: EntryShape, sp: u64) -> int {
    match shape {
        EntryShape::NoErrorCode => sp as int,
        EntryShape::ErrorCode => sp + 8,
    }
}

/// The call plan for a trampoline of `shape` entered with stack pointer `sp`:
/// the error code (if any) is popped first, so that the frame's address is
/// the stack pointer after it; the stack is then rounded down to 16 bytes for
/// the call. After the handler returns, the stack pointer goes back to the
/// frame's address, where the interrupt-return instruction expects it.
pub fn handler_call(shape: EntryShape, sp: u64) -> (r: HandlerCall)
    requires
        sp <= u64::MAX - 8,
    ensures
        r.frame_address == frame_address_of(shape, sp),
        r.error_code_address == (match shape {
            EntryShape::NoErrorCode => None,
            EntryShape::ErrorCode => Some(sp),
        }),
        r.call_stack_pointer % 16 == 0,
        r.call_stack_pointer <= r.frame_address < r.call_stack_pointer + 16,
{
    let (frame_address, error_code_address) = match shape {
        EntryShape::NoErrorCode => (sp, None),
        EntryShape::ErrorCode => (sp + 8, Some(sp)),
    };
    let call_stack_pointer = frame_address & !0xf;
    assert((frame_address & !0xfu64) % 16 == 0 && (frame_address & !0xfu64) <= frame_address
        && frame_address < (frame_address & !0xfu64) + 16) by (bit_vector);
    HandlerCall { frame_address, error_code_address, call_stack_pointer }
}

} // verus!
