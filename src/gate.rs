//! One gate descriptor of the dispatch table and its binary encoding.
use crate::bits::{with_bit_u16, with_bits_u16};
use vstd::prelude::*;

verus! {

/// Option bits of a freshly built, absent gate: only the three bits 9..12 that
/// the hardware requires to be one (an interrupt gate whose bit 8 is clear).
pub const MINIMAL_OPTIONS: u16 = 0x0E00;

/// Option bits of an installed handler: present, interrupts masked on entry,
/// privilege level 0, no separate interrupt stack.
pub const HANDLER_OPTIONS: u16 = 0x8E00;

/// The 16-bit option word of a gate descriptor.
#[derive(Clone, Copy, Debug, PartialEq, Eq, Structural)]
pub struct EntryOptions {
    pub bits: u16,
}

/// Whether the present flag (bit 15) is set.
pub open spec fn present_of(bits: u16) -> bool {
    bits & 0x8000 != 0
}

/// Whether bit 8 is clear.
pub open spec fn masks_interrupts_of(bits: u16) -> bool {
    bits & 0x0100 == 0
}

/// The descriptor privilege level (bits 13..15).
pub open spec fn privilege_level_of(bits: u16) -> u16 {
    (bits >> 13u16) & 3
}

/// The interrupt stack table index (bits 0..3).
pub open spec fn stack_index_of(bits: u16) -> u16 {
    bits & 7
}

impl EntryOptions {
    /// Options of an absent gate.
    pub fn minimal() -> (r: EntryOptions)
        ensures
            r.bits == MINIMAL_OPTIONS,
    {
        assert(7u16 <= 0xffffu16 >> 13u16) by (bit_vector);
        let bits = with_bits_u16(0, 9, 12, 0b111);
        assert(((0u16 & !(((0xffffu16 >> 13u16) << 9u16) as u16)) | (7u16 << 9u16)) == 0x0E00u16)
            by (bit_vector);
        EntryOptions { bits }
    }

    /// Options of an installed handler: present, masking interrupts.
    pub fn new() -> (r: EntryOptions)
        ensures
            r.bits == HANDLER_OPTIONS,
    {
        let mut options = EntryOptions::minimal();
        options.set_present(true);
        options.disable_interrupts(true);
        assert(((0x0E00u16 | 0x8000u16) & 0xfeffu16) == 0x8E00u16) by (bit_vector);
        options
    }

    /// Sets or clears the present flag, leaving every other bit alone.
    pub fn set_present(&mut self, present: bool)
        ensures
            final(self).bits == (if present { old(self).bits | 0x8000 } else { old(self).bits & 0x7fff }),
            present_of(final(self).bits) == present,
    {
        let b = self.bits;
        self.bits = with_bit_u16(b, 15, present);
        assert(1u16 << 15u16 == 0x8000u16) by (bit_vector);
        assert(!0x8000u16 == 0x7fffu16) by (bit_vector);
        assert((b | 0x8000) & 0x8000 != 0 && (b & 0x7fff) & 0x8000 == 0) by (bit_vector);
    }

    /// Chooses an interrupt gate (`disable == true`, bit 8 clear) or a trap
    /// gate (bit 8 set), leaving every other bit alone.
    pub fn disable_interrupts(&mut self, disable: bool)
        ensures
            final(self).bits == (if disable { old(self).bits & 0xfeff } else { old(self).bits | 0x0100 }),
            masks_interrupts_of(final(self).bits) == disable,
    {
        let b = self.bits;
        self.bits = with_bit_u16(b, 8, !disable);
        assert(1u16 << 8u16 == 0x0100u16) by (bit_vector);
        assert(!0x0100u16 == 0xfeffu16) by (bit_vector);
        assert((b | 0x0100) & 0x0100 != 0 && (b & 0xfeff) & 0x0100 == 0) by (bit_vector);
    }

    /// Sets the descriptor privilege level (bits 13..15).
    pub fn set_privilege_level(&mut self, dpl: u16)
        requires
            dpl < 4,
        ensures
            final(self).bits == ((old(self).bits & 0x9fff) | (dpl << 13u16)),
            privilege_level_of(final(self).bits) == dpl,
    {
        let b = self.bits;
        assert(dpl < 4 ==> dpl <= 0xffffu16 >> 14u16) by (bit_vector);
        self.bits = with_bits_u16(b, 13, 15, dpl);
        assert(!(((0xffffu16 >> 14u16) << 13u16) as u16) == 0x9fffu16) by (bit_vector);
        assert(dpl < 4 ==> ((((b & 0x9fff) | (dpl << 13u16)) >> 13u16) & 3) == dpl) by (bit_vector);
    }

    /// Sets the interrupt stack table index (bits 0..3).
    pub fn set_stack_index(&mut self, index: u16)
        requires
            index < 8,
        ensures
            final(self).bits == ((old(self).bits & 0xfff8) | index),
            stack_index_of(final(self).bits) == index,
    {
        let b = self.bits;
        assert(index < 8 ==> index <= 0xffffu16 >> 13u16) by (bit_vector);
        self.bits = with_bits_u16(b, 0, 3, index);
        assert(!(((0xffffu16 >> 13u16) << 0u16) as u16) == 0xfff8u16) by (bit_vector);
        assert(index << 0u16 == index) by (bit_vector);
        assert(index < 8 ==> ((b & 0xfff8) | index) & 7 == index) by (bit_vector);
    }

    /// Whether the present flag is set.
    pub fn is_present(&self) -> (r: bool)
        ensures
            r == present_of(self.bits),
    {
        self.bits & 0x8000 != 0
    }
}

/// One slot of the dispatch table, field for field as the hardware reads it.
#[derive(Clone, Copy, Debug, PartialEq, Eq, Structural)]
pub struct Entry {
    pub pointer_low: u16,
    pub gdt_selector: u16,
    pub options: EntryOptions,
    pub pointer_middle: u16,
    pub pointer_high: u32,
    pub reserved: u32,
}

/// The 64-bit target address that an entry's three pointer fields hold.
pub open spec fn target_of(e: Entry) -> u64 {
    (e.pointer_low as u64) | ((e.pointer_middle as u64) << 16u64) | ((e.pointer_high as u64) << 32u64)
}

/// The entry that routes to `handler` through code segment `selector`.
pub open spec fn gate_entry(selector: u16, handler: u64) -> Entry {
    Entry {
        pointer_low: handler as u16,
        gdt_selector: selector,
        options: EntryOptions { bits: HANDLER_OPTIONS },
        pointer_middle: (handler >> 16u64) as u16,
        pointer_high: (handler >> 32u64) as u32,
        reserved: 0,
    }
}

/// The entry of a slot that no handler was installed in.
pub open spec fn missing_entry() -> Entry {
    Entry {
        pointer_low: 0,
        gdt_selector: 0,
        options: EntryOptions { bits: MINIMAL_OPTIONS },
        pointer_middle: 0,
        pointer_high: 0,
        reserved: 0,
    }
}

/// The first quadword of an entry's 16-byte encoding: pointer bits 0..16,
/// selector, options, pointer bits 16..32.
pub open spec fn low_word_of(e: Entry) -> u64 {
    (e.pointer_low as u64) | ((e.gdt_selector as u64) << 16u64) | ((e.options.bits as u64) << 32u64)
        | ((e.pointer_middle as u64) << 48u64)
}

/// The second quadword: pointer bits 32..64, then the reserved word.
pub open spec fn high_word_of(e: Entry) -> u64 {
    (e.pointer_high as u64) | ((e.reserved as u64) << 32u64)
}

/// The entry built for `handler` routes to exactly `handler`.
pub proof fn lemma_gate_entry_target(selector: u16, handler: u64)
    ensures
        target_of(gate_entry(selector, handler)) == handler,
        present_of(gate_entry(selector, handler).options.bits),
        masks_interrupts_of(gate_entry(selector, handler).options.bits),
        privilege_level_of(gate_entry(selector, handler).options.bits) == 0,
{
    assert(((handler as u16) as u64) | ((((handler >> 16u64) as u16) as u64) << 16u64) | ((((
    handler >> 32u64) as u32) as u64) << 32u64) == handler) by (bit_vector);
    assert(0x8E00u16 & 0x8000 != 0 && 0x8E00u16 & 0x0100 == 0 && (0x8E00u16 >> 13u16) & 3 == 0)
        by (bit_vector);
}

impl Entry {
    /// A present interrupt gate that routes to `handler` through code
    /// segment `gdt_selector`.
    pub fn new(gdt_selector: u16, handler: u64) -> (r: Entry)
        ensures
            r == gate_entry(gdt_selector, handler),
            target_of(r) == handler,
    {
        proof {
            lemma_gate_entry_target(gdt_selector, handler);
        }
        Entry {
            gdt_selector,
            pointer_low: handler as u16,
            pointer_middle: (handler >> 16) as u16,
            pointer_high: (handler >> 32) as u32,
            options: EntryOptions::new(),
            reserved: 0,
        }
    }

    /// An absent gate: a vector that fires through it raises a double fault.
    pub fn missing() -> (r: Entry)
        ensures
            r == missing_entry(),
            !present_of(r.options.bits),
    {
        assert(0x0E00u16 & 0x8000 == 0) by (bit_vector);
        Entry {
            gdt_selector: 0,
            pointer_low: 0,
            pointer_middle: 0,
            pointer_high: 0,
            options: EntryOptions::minimal(),
            reserved: 0,
        }
    }

    /// The target address the entry routes to.
    pub fn target(&self) -> (r: u64)
        ensures
            r == target_of(*self),
    {
        (self.pointer_low as u64) | ((self.pointer_middle as u64) << 16) | ((self.pointer_high as u64) << 32)
    }

    /// The entry's 16 bytes as two little-endian quadwords, in the order the
    /// hardware reads them.
    pub fn encode(&self) -> (r: (u64, u64))
        ensures
            r.0 == low_word_of(*self),
            r.1 == high_word_of(*self),
    {
        let low = (self.pointer_low as u64) | ((self.gdt_selector as u64) << 16) | ((self.options.bits as u64) << 32)
            | ((self.pointer_middle as u64) << 48);
        let high = (self.pointer_high as u64) | ((self.reserved as u64) << 32);
        (low, high)
    }
}

} // verus!
