//! Interrupt-handling core: gate descriptors, the dispatch table and its
//! lifecycle, page-fault error-code decoding, fault reports, the exception
//! handlers' decisions, and the text console they report to.

mod bits;
pub mod gate;
pub mod idt;
pub mod fault;
pub mod report;
pub mod handlers;
pub mod vga;
pub mod console;
pub mod trampoline;
pub mod serial;
pub mod interrupts;
