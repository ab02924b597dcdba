//! The dispatch table: 256 gate descriptors, filled before activation and
//! frozen after it.
use crate::gate::{gate_entry, lemma_gate_entry_target, high_word_of, low_word_of, missing_entry, present_of, target_of, Entry};
use vstd::prelude::*;

verus! {

/// Number of slots, one per interrupt vector.
pub const IDT_ENTRIES: usize = 256;

/// The limit field of the table register: the table's size in bytes, less one.
pub const IDT_LIMIT: u16 = 4095;

/// What a table is: its slots and whether it has been activated.
pub struct IdtView {
    pub slots: Seq<Entry>,
    pub loaded: bool,
}

/// The table after `set_handler(vector, selector, handler)`, which is only
/// admitted before activation: the slot is rebound.
pub open spec fn installed(t: IdtView, vector: u8, selector: u16, handler: u64) -> IdtView {
    IdtView { slots: t.slots.update(vector as int, gate_entry(selector, handler)), loaded: t.loaded }
}

/// The table after activation.
pub open spec fn activated(t: IdtView) -> IdtView {
    IdtView { slots: t.slots, loaded: true }
}

/// The handler address that an activated table hands vector `vector` to, or
/// `None` where the slot is absent (the hardware then raises a double fault).
pub open spec fn route(t: IdtView, vector: u8) -> Option<u64> {
    if present_of(t.slots[vector as int].options.bits) {
        Some(target_of(t.slots[vector as int]))
    } else {
        None
    }
}

/// A freshly built table: every slot absent, not activated.
pub open spec fn fresh() -> IdtView {
    IdtView { slots: Seq::new(IDT_ENTRIES as nat, |i: int| missing_entry()), loaded: false }
}

/// The in-memory image of the slots: two quadwords per slot.
pub open spec fn image_of(slots: Seq<Entry>) -> Seq<u64> {
    Seq::new(2 * slots.len(), |i: int| if i % 2 == 0 { low_word_of(slots[i / 2]) } else { high_word_of(slots[i / 2]) })
}

/// Binding the same vector twice before activation leaves only the second
/// binding, and the activated table routes the vector to it.
pub proof fn lemma_last_binding_wins(
    t: IdtView,
    vector: u8,
    first_selector: u16,
    first_handler: u64,
    selector: u16,
    handler: u64,
)
    requires
        !t.loaded,
        t.slots.len() == IDT_ENTRIES,
    ensures
        installed(installed(t, vector, first_selector, first_handler), vector, selector, handler)
            == installed(t, vector, selector, handler),
        route(activated(installed(installed(t, vector, first_selector, first_handler), vector, selector, handler)), vector)
            == Some(handler),
{
    let once = installed(t, vector, first_selector, first_handler);
    assert(installed(once, vector, selector, handler).slots =~= installed(t, vector, selector, handler).slots);
    lemma_gate_entry_target(selector, handler);
}

/// A vector bound before activation is routed, once the table is active, to
/// exactly the handler it was bound to; other vectors keep their routes.
pub proof fn lemma_installed_vector_routes(t: IdtView, vector: u8, other: u8, selector: u16, handler: u64)
    requires
        !t.loaded,
        t.slots.len() == IDT_ENTRIES,
        other != vector,
    ensures
        route(activated(installed(t, vector, selector, handler)), vector) == Some(handler),
        route(activated(installed(t, vector, selector, handler)), other) == route(t, other),
{
    lemma_gate_entry_target(selector, handler);
}

/// In a freshly built table no vector has a route: a vector that fires
/// without a binding finds an absent gate, which the hardware turns into a
/// double fault.
pub proof fn lemma_unbound_vector_has_no_route(vector: u8)
    ensures
        route(fresh(), vector) is None,
{
    assert(0x0E00u16 & 0x8000 == 0) by (bit_vector);
}

/// The dispatch table.
pub struct Idt {
    entries: Vec<Entry>,
    loaded: bool,
}

impl View for Idt {
    type V = IdtView;

    closed spec fn view(&self) -> IdtView {
        IdtView { slots: self.entries@, loaded: self.loaded }
    }
}

impl Idt {
    /// Holds 256 slots.
    pub open spec fn wf(&self) -> bool {
        self@.slots.len() == IDT_ENTRIES
    }

    /// A table with every slot absent: no handler runs for any vector.
    pub fn new() -> (r: Idt)
        ensures
            r.wf(),
            r@ == fresh(),
    {
        let mut entries: Vec<Entry> = Vec::new();
        let mut i: usize = 0;
        while i < IDT_ENTRIES
            invariant
                i <= IDT_ENTRIES,
                entries@ == Seq::new(i as nat, |k: int| missing_entry()),
            decreases IDT_ENTRIES - i,
        {
            entries.push(Entry::missing());
            i = i + 1;
        }
        let r = Idt { entries, loaded: false };
        assert(r@.slots =~= fresh().slots);
        r
    }

    /// Binds `vector` to the entry trampoline at `handler`, reached through
    /// code segment `selector`. Only a table that is not yet active may be
    /// changed: once activated it is frozen, and a call on it is outside the
    /// contract.
    pub fn set_handler(&mut self, vector: u8, selector: u16, handler: u64)
        requires
            old(self).wf(),
            !old(self)@.loaded,
        ensures
            final(self).wf(),
            final(self)@ == installed(old(self)@, vector, selector, handler),
            !final(self)@.loaded,
    {
        let e = Entry::new(selector, handler);
        self.entries.set(vector as usize, e);
        assert(self@.slots =~= old(self)@.slots.update(vector as int, gate_entry(selector, handler)));
    }

    /// Activates the table, exactly once: from now on it is frozen. Returns
    /// the image the processor is to read, two quadwords per slot in vector
    /// order.
    pub fn load(&mut self) -> (image: Vec<u64>)
        requires
            old(self).wf(),
            !old(self)@.loaded,
        ensures
            final(self).wf(),
            final(self)@ == activated(old(self)@),
            image@ == image_of(old(self)@.slots),
    {
        let mut image: Vec<u64> = Vec::new();
        let mut i: usize = 0;
        while i < IDT_ENTRIES
            invariant
                i <= IDT_ENTRIES,
                self.entries@.len() == IDT_ENTRIES,
                image@ =~= image_of(self.entries@.subrange(0, i as int)),
            decreases IDT_ENTRIES - i,
        {
            let (low, high) = self.entries[i].encode();
            image.push(low);
            image.push(high);
            i = i + 1;
            assert(image@ =~= image_of(self.entries@.subrange(0, i as int)));
        }
        assert(self.entries@.subrange(0, IDT_ENTRIES as int) =~= self.entries@);
        self.loaded = true;
        image
    }

    /// Whether the table has been activated.
    pub fn is_loaded(&self) -> (r: bool)
        ensures
            r == self@.loaded,
    {
        self.loaded
    }

    /// The entry of slot `vector`.
    pub fn entry(&self, vector: u8) -> (r: Entry)
        requires
            self.wf(),
        ensures
            r == self@.slots[vector as int],
    {
        self.entries[vector as usize]
    }
}

} // verus!
