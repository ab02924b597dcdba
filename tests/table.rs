use interrupt_core::gate::{Entry, EntryOptions, HANDLER_OPTIONS, MINIMAL_OPTIONS};
use interrupt_core::idt::{Idt, IDT_ENTRIES};
use interrupt_core::interrupts::{bind_recognised, build, init, TrampolineAddresses};

fn addresses() -> TrampolineAddresses {
    TrampolineAddresses {
        divide_by_zero: 0x0010_1000,
        breakpoint: 0x0010_1040,
        invalid_opcode: 0x0010_1080,
        double_fault: 0x0010_10c0,
        page_fault: 0x0010_1100,
    }
}

#[test]
fn entry_splits_target_address() {
    let e = Entry::new(0x08, 0x1234_5678_9abc_def0);
    assert_eq!(e.pointer_low, 0xdef0);
    assert_eq!(e.pointer_middle, 0x9abc);
    assert_eq!(e.pointer_high, 0x1234_5678);
    assert_eq!(e.gdt_selector, 0x08);
    assert_eq!(e.options.bits, 0x8E00);
    assert_eq!(e.reserved, 0);
    assert_eq!(e.target(), 0x1234_5678_9abc_def0);
    assert!(e.options.is_present());
}

#[test]
fn entry_encodes_two_quadwords() {
    let e = Entry::new(0x08, 0x1234_5678_9abc_def0);
    let (low, high) = e.encode();
    assert_eq!(low, 0x9abc_8E00_0008_def0);
    assert_eq!(high, 0x0000_0000_1234_5678);
}

#[test]
fn missing_entry_is_absent() {
    let e = Entry::missing();
    assert_eq!(e.options.bits, MINIMAL_OPTIONS);
    assert!(!e.options.is_present());
    assert_eq!(e.target(), 0);
    assert_eq!(e.encode(), (0x0000_0E00_0000_0000, 0));
}

#[test]
fn options_setters_touch_their_bits_only() {
    let mut o = EntryOptions::new();
    assert_eq!(o.bits, HANDLER_OPTIONS);
    o.set_privilege_level(3);
    assert_eq!(o.bits, 0xEE00);
    o.set_stack_index(5);
    assert_eq!(o.bits, 0xEE05);
    o.disable_interrupts(false);
    assert_eq!(o.bits, 0xEF05);
    o.set_present(false);
    assert_eq!(o.bits, 0x6F05);
    o.set_privilege_level(0);
    assert_eq!(o.bits, 0x0F05);
    assert_eq!(EntryOptions::minimal().bits, 0x0E00);
}

#[test]
fn new_table_has_every_slot_absent() {
    let t = Idt::new();
    assert!(!t.is_loaded());
    for v in 0..=255u8 {
        assert_eq!(t.entry(v), Entry::missing());
    }
}

#[test]
fn second_binding_before_load_wins() {
    let mut t = Idt::new();
    t.set_handler(3, 0x08, 0xaaaa);
    t.set_handler(3, 0x08, 0xbbbb);
    assert_eq!(t.entry(3).target(), 0xbbbb);
    assert_eq!(t.entry(3), Entry::new(0x08, 0xbbbb));
    assert_eq!(t.entry(4), Entry::missing());
}

#[test]
fn load_freezes_the_table() {
    let mut t = Idt::new();
    t.set_handler(0, 0x08, 0x1000);
    assert!(!t.is_loaded());
    let image = t.load();
    assert_eq!(image.len(), 2 * IDT_ENTRIES);
    assert!(t.is_loaded());
    assert_eq!(t.entry(0).target(), 0x1000);
    assert_eq!(t.entry(1), Entry::missing());
}

#[test]
fn image_holds_each_slot_encoding() {
    let mut t = Idt::new();
    t.set_handler(14, 0x08, 0xffff_8000_0012_3456);
    let image = t.load();
    let (low, high) = Entry::new(0x08, 0xffff_8000_0012_3456).encode();
    assert_eq!(image[28], low);
    assert_eq!(image[29], high);
    assert_eq!(image[0], 0x0000_0E00_0000_0000);
    assert_eq!(image[1], 0);
}

#[test]
fn build_binds_the_recognised_vectors() {
    let a = addresses();
    let t = build(0x08, &a);
    assert!(!t.is_loaded());
    assert_eq!(t.entry(0).target(), a.divide_by_zero);
    assert_eq!(t.entry(3).target(), a.breakpoint);
    assert_eq!(t.entry(6).target(), a.invalid_opcode);
    assert_eq!(t.entry(8).target(), a.double_fault);
    assert_eq!(t.entry(14).target(), a.page_fault);
    assert_eq!(t.entry(1), Entry::missing());
}

#[test]
fn init_activates_the_bound_table() {
    let a = addresses();
    let mut t = Idt::new();
    let image = init(&mut t, 0x08, &a);
    assert!(t.is_loaded());
    assert_eq!(image.len(), 512);
    for v in [0u8, 3, 6, 8, 14] {
        assert!(t.entry(v).options.is_present());
    }
    for v in [1u8, 2, 4, 5, 7, 9, 13, 15, 255] {
        assert!(!t.entry(v).options.is_present());
    }
    assert_eq!(t.entry(0).target(), a.divide_by_zero);
}

#[test]
fn unbound_vector_has_absent_gate() {
    let mut t = Idt::new();
    init(&mut t, 0x08, &addresses());
    let e = t.entry(13);
    assert!(!e.options.is_present());
    assert_eq!(e, Entry::missing());
}

#[test]
fn init_rebinds_earlier_bindings() {
    let a = addresses();
    let mut t = Idt::new();
    t.set_handler(3, 0x10, 0xdead);
    t.set_handler(40, 0x08, 0x4000);
    init(&mut t, 0x08, &a);
    assert_eq!(t.entry(3), Entry::new(0x08, a.breakpoint));
    assert_eq!(t.entry(40).target(), 0x4000);
    assert!(t.is_loaded());
}

#[test]
fn binding_the_recognised_vectors_twice_keeps_the_last() {
    let a = addresses();
    let mut b = addresses();
    b.page_fault = 0x0020_0000;
    let mut t = Idt::new();
    bind_recognised(&mut t, 0x08, &a);
    bind_recognised(&mut t, 0x08, &b);
    assert_eq!(t.entry(14).target(), 0x0020_0000);
    assert_eq!(t.entry(0).target(), a.divide_by_zero);
}
