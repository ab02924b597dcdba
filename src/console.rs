//! The console sink shared by normal code and exception handlers. Its lock
//! never waits: on a single processor a holder that was interrupted cannot
//! run again until the handler returns, so waiting would never end. A write
//! that finds the lock held is kept and delivered when the holder unlocks.
use crate::vga::{blank, clear_buffer, write_bytes_spec, BUFFER_CELLS, ColorCode, Writer, WriterView};
use vstd::prelude::*;
use vstd::string::StringSliceAdditionalSpecFns;

verus! {

/// What became of a write.
#[derive(Clone, Copy, Debug, PartialEq, Eq, Structural)]
pub enum Delivery {
    /// The text is on the screen.
    Written,
    /// The lock was held: the text waits for the holder to unlock.
    Deferred,
}

/// What a console is: the screen, whether the lock is held, and the bytes
/// that wait for it.
pub struct ConsoleView {
    pub screen: WriterView,
    pub held: bool,
    pub pending: Seq<u8>,
}

/// The console after a write of `text` from any context.
pub open spec fn printed(c: ConsoleView, text: Seq<u8>) -> ConsoleView {
    if c.held {
        ConsoleView { screen: c.screen, held: true, pending: c.pending + text }
    } else {
        ConsoleView { screen: write_bytes_spec(c.screen, text), held: false, pending: c.pending }
    }
}

/// The console after its holder unlocks: what waited is written, in order.
pub open spec fn unlocked(c: ConsoleView) -> ConsoleView {
    ConsoleView { screen: write_bytes_spec(c.screen, c.pending), held: false, pending: Seq::empty() }
}

/// Writing a run of bytes in two parts writes it whole.
pub proof fn lemma_write_bytes_append(w: WriterView, a: Seq<u8>, b: Seq<u8>)
    ensures
        write_bytes_spec(write_bytes_spec(w, a), b) == write_bytes_spec(w, a + b),
    decreases b.len(),
{
    if b.len() == 0 {
        assert(a + b =~= a);
    } else {
        lemma_write_bytes_append(w, a, b.drop_last());
        assert((a + b).drop_last() =~= a + b.drop_last());
    }
}

/// A write from a handler that interrupted the lock's holder neither waits
/// nor is lost: it leaves the screen alone, and once the holder unlocks the
/// screen shows what waited before it and then the handler's text.
pub proof fn lemma_interrupted_holder_write(c: ConsoleView, text: Seq<u8>)
    requires
        c.held,
    ensures
        printed(c, text).screen == c.screen,
        unlocked(printed(c, text)).screen == write_bytes_spec(c.screen, c.pending + text),
        unlocked(printed(c, text)).screen == write_bytes_spec(unlocked(c).screen, text),
{
    lemma_write_bytes_append(c.screen, c.pending, text);
}

/// The console sink.
pub struct Console {
    writer: Writer,
    held: bool,
    pending: Vec<u8>,
}

impl View for Console {
    type V = ConsoleView;

    closed spec fn view(&self) -> ConsoleView {
        ConsoleView { screen: self.writer@, held: self.held, pending: self.pending@ }
    }
}

impl Console {
    /// The screen's cursor is on the screen.
    pub closed spec fn wf(&self) -> bool {
        self.writer.wf()
    }

    /// An unlocked console over a blank screen in `color`.
    pub fn new(color: ColorCode) -> (r: Console)
        ensures
            r.wf(),
            r@.screen.cells == Seq::new(BUFFER_CELLS as nat, |i: int| blank(color)),
            r@.screen.row == 0 && r@.screen.column == 0 && r@.screen.color == color,
            !r@.held,
            r@.pending.len() == 0,
    {
        Console { writer: Writer::new(color), held: false, pending: Vec::new() }
    }

    /// Takes the lock if it is free; never waits. True when taken.
    pub fn try_lock(&mut self) -> (r: bool)
        requires
            old(self).wf(),
        ensures
            final(self).wf(),
            r == !old(self)@.held,
            final(self)@ == (ConsoleView { held: true, ..old(self)@ }),
    {
        let free = !self.held;
        self.held = true;
        free
    }

    /// Releases the lock, then writes what waited for it.
    pub fn unlock(&mut self)
        requires
            old(self).wf(),
        ensures
            final(self).wf(),
            final(self)@ == unlocked(old(self)@),
    {
        self.writer.write_bytes(self.pending.as_slice());
        self.pending = Vec::new();
        self.held = false;
        assert(self.pending@ =~= Seq::<u8>::empty());
    }

    /// Writes `s`, from normal or handler context: straight to the screen when
    /// the lock is free, kept for the holder's unlock when it is held.
    pub fn print(&mut self, s: &str) -> (r: Delivery)
        requires
            old(self).wf(),
        ensures
            final(self).wf(),
            final(self)@ == printed(old(self)@, s.spec_bytes()),
            r == (if old(self)@.held { Delivery::Deferred } else { Delivery::Written }),
    {
        if self.held {
            self.pending.extend_from_slice(s.as_bytes());
            assert(self.pending@ =~= old(self).pending@ + s.spec_bytes());
            Delivery::Deferred
        } else {
            self.writer.write_str(s);
            Delivery::Written
        }
    }

    /// Writes `s` as the lock's holder.
    pub fn print_locked(&mut self, s: &str)
        requires
            old(self).wf(),
            old(self)@.held,
        ensures
            final(self).wf(),
            final(self)@ == (ConsoleView { screen: write_bytes_spec(old(self)@.screen, s.spec_bytes()), ..old(self)@ }),
    {
        self.writer.write_str(s);
    }

    /// Blanks the screen and puts the cursor at the top left; the lock and
    /// what waits for it stay as they are.
    pub fn clear(&mut self)
        requires
            old(self).wf(),
        ensures
            final(self).wf(),
            final(self)@ == (ConsoleView {
                screen: WriterView {
                    row: 0,
                    column: 0,
                    color: old(self)@.screen.color,
                    cells: Seq::new(BUFFER_CELLS as nat, |i: int| blank(old(self)@.screen.color)),
                },
                ..old(self)@
            }),
    {
        clear_buffer(&mut self.writer);
    }

    /// The screen.
    pub fn writer(&self) -> (r: &Writer)
        requires
            self.wf(),
        ensures
            r@ == self@.screen,
            r.wf(),
    {
        &self.writer
    }

    /// Whether the lock is held.
    pub fn is_locked(&self) -> (r: bool)
        ensures
            r == self@.held,
    {
        self.held
    }
}

} // verus!
