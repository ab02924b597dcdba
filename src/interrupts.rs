//! Boot-time set-up: the table is built, the recognised vectors are bound to
//! their trampolines, and the table is activated, in that order.
use crate::gate::lemma_gate_entry_target;
use crate::handlers::{BREAKPOINT, DIVIDE_BY_ZERO, DOUBLE_FAULT, INVALID_OPCODE, PAGE_FAULT};
use crate::idt::{activated, fresh, image_of, installed, route, Idt, IdtView};
use vstd::prelude::*;

verus! {

/// The entry addresses of the five trampolines.
#[derive(Clone, Copy, Debug, PartialEq, Eq, Structural)]
pub struct TrampolineAddresses {
    pub divide_by_zero: u64,
    pub breakpoint: u64,
    pub invalid_opcode: u64,
    pub double_fault: u64,
    pub page_fault: u64,
}

/// Table `t` with the five recognised vectors bound to their trampolines.
pub open spec fn bound_onto(t: IdtView, selector: u16, a: TrampolineAddresses) -> IdtView {
    installed(
        installed(
            installed(
                installed(installed(t, DIVIDE_BY_ZERO, selector, a.divide_by_zero), BREAKPOINT, selector, a.breakpoint),
                INVALID_OPCODE,
                selector,
                a.invalid_opcode,
            ),
            DOUBLE_FAULT,
            selector,
            a.double_fault,
        ),
        PAGE_FAULT,
        selector,
        a.page_fault,
    )
}

/// Whether `v` is one of the five recognised vectors.
pub open spec fn recognised(v: u8) -> bool {
    v == DIVIDE_BY_ZERO || v == BREAKPOINT || v == INVALID_OPCODE || v == DOUBLE_FAULT || v == PAGE_FAULT
}

/// Binds the five recognised vectors of a table that is not yet active.
/// A vector bound earlier is rebound: the last binding wins.
pub fn bind_recognised(idt: &mut Idt, selector: u16, addresses: &TrampolineAddresses)
    requires
        old(idt).wf(),
        !old(idt)@.loaded,
    ensures
        final(idt).wf(),
        final(idt)@ == bound_onto(old(idt)@, selector, *addresses),
        !final(idt)@.loaded,
{
    idt.set_handler(DIVIDE_BY_ZERO, selector, addresses.divide_by_zero);
    idt.set_handler(BREAKPOINT, selector, addresses.breakpoint);
    idt.set_handler(INVALID_OPCODE, selector, addresses.invalid_opcode);
    idt.set_handler(DOUBLE_FAULT, selector, addresses.double_fault);
    idt.set_handler(PAGE_FAULT, selector, addresses.page_fault);
}

/// A fresh table with every recognised vector bound to its trampoline, not
/// yet active.
pub fn build(selector: u16, addresses: &TrampolineAddresses) -> (r: Idt)
    ensures
        r.wf(),
        r@ == bound_onto(fresh(), selector, *addresses),
{
    let mut idt = Idt::new();
    bind_recognised(&mut idt, selector, addresses);
    idt
}

/// Binds the recognised vectors of `idt`, which is not yet active, and
/// activates it; activation happens once, since a second call on the same
/// table is outside the contract. Returns the image the processor is to be
/// pointed at. Each recognised vector routes to its trampoline, whatever the
/// slot held before; every other vector keeps the route it had, so on a
/// fresh table it has none.
pub fn init(idt: &mut Idt, selector: u16, addresses: &TrampolineAddresses) -> (image: Vec<u64>)
    requires
        old(idt).wf(),
        !old(idt)@.loaded,
    ensures
        final(idt).wf(),
        final(idt)@ == activated(bound_onto(old(idt)@, selector, *addresses)),
        image@ == image_of(bound_onto(old(idt)@, selector, *addresses).slots),
        route(final(idt)@, DIVIDE_BY_ZERO) == Some(addresses.divide_by_zero),
        route(final(idt)@, BREAKPOINT) == Some(addresses.breakpoint),
        route(final(idt)@, INVALID_OPCODE) == Some(addresses.invalid_opcode),
        route(final(idt)@, DOUBLE_FAULT) == Some(addresses.double_fault),
        route(final(idt)@, PAGE_FAULT) == Some(addresses.page_fault),
        forall|v: u8| !recognised(v) ==> #[trigger] route(final(idt)@, v) == route(old(idt)@, v),
        old(idt)@ == fresh() ==> forall|v: u8| !recognised(v) ==> #[trigger] route(final(idt)@, v) is None,
{
    bind_recognised(idt, selector, addresses);
    let image = idt.load();
    proof {
        lemma_gate_entry_target(selector, addresses.divide_by_zero);
        lemma_gate_entry_target(selector, addresses.breakpoint);
        lemma_gate_entry_target(selector, addresses.invalid_opcode);
        lemma_gate_entry_target(selector, addresses.double_fault);
        lemma_gate_entry_target(selector, addresses.page_fault);
        assert(0x0E00u16 & 0x8000 == 0) by (bit_vector);
    }
    image
}

} // verus!
