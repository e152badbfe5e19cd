//! The interrupt vector table and the two exception handlers.
//!
//! The table is a flat dispatch table keyed by vector number. An entry names
//! its handler by a tag and may order a switch to one of the stacks of the
//! interrupt stack table. The caller turns the table into the processor's
//! format and installs the entry points; a handler here writes its report to
//! the display and says what the processor is to do next.

use crate::screen::{Screen, NEWLINE};
use crate::gdt::{provisioned_stacks, DOUBLE_FAULT_IST_INDEX, IST_SLOTS, STACK_SIZE};
use crate::vga_buffer::Writer;
use vstd::prelude::*;
use vstd::string::StringSliceAdditionalSpecFns;

verus! {

/// Vectors in the table.
pub const VECTORS: usize = 256;

/// The vector of the breakpoint exception.
pub const BREAKPOINT_VECTOR: usize = 3;

/// The vector of the double-fault exception.
pub const DOUBLE_FAULT_VECTOR: usize = 8;

/// The first line of the breakpoint report.
pub const BREAKPOINT_BANNER: &'static str = "EXCEPTION: BREAKPOINT\n";

/// The first line of the double-fault report.
pub const DOUBLE_FAULT_BANNER: &'static str = "EXCEPTION: #DF\n";

/// The routines that service an exception.
#[derive(Debug, Clone, Copy, PartialEq, Eq)]
pub enum Handler {
    Breakpoint,
    DoubleFault,
}

/// What the processor does when a handler is done.
#[derive(Debug, Clone, Copy, PartialEq, Eq)]
pub enum Disposition {
    /// Execution goes on at the interrupted instruction stream.
    Resume,
    /// The processor halts for good.
    Halt,
}

impl Handler {
    /// How the handler ends: a breakpoint is the one trap from which
    /// execution resumes.
    pub open spec fn disposition(self) -> Disposition {
        match self {
            Handler::Breakpoint => Disposition::Resume,
            Handler::DoubleFault => Disposition::Halt,
        }
    }
}

/// One entry of the vector table.
#[derive(Debug, Clone, Copy, PartialEq, Eq)]
pub struct Entry {
    /// The handler of the vector, if it has one.
    pub handler: Option<Handler>,
    /// The slot of the interrupt stack table whose stack the processor
    /// switches to before it runs the handler, if any.
    pub stack_index: Option<u16>,
}

impl Entry {
    /// An entry without a handler.
    pub open spec fn missing() -> Entry {
        Entry { handler: None, stack_index: None }
    }

    /// A stack switch needs a handler and a slot that the interrupt stack
    /// table has.
    pub open spec fn wf(self) -> bool {
        self.stack_index matches Some(index) ==> self.handler is Some && index < IST_SLOTS
    }
}

/// The entries that `init_idt` populates: the breakpoint handler without a
/// stack switch, and the double-fault handler on the double-fault stack.
pub open spec fn populated(vector: int) -> Entry {
    if vector == BREAKPOINT_VECTOR {
        Entry { handler: Some(Handler::Breakpoint), stack_index: None }
    } else if vector == DOUBLE_FAULT_VECTOR {
        Entry { handler: Some(Handler::DoubleFault), stack_index: Some(DOUBLE_FAULT_IST_INDEX) }
    } else {
        Entry::missing()
    }
}

/// The interrupt vector table: one entry for each of the 256 vectors.
pub struct InterruptTable {
    entries: [Entry; 256],
}

impl InterruptTable {
    /// The entries by vector number.
    pub closed spec fn view(&self) -> Seq<Entry> {
        self.entries@
    }

    /// A table in which no vector has a handler.
    pub fn new() -> (table: InterruptTable)
        ensures
            table@ == Seq::new(VECTORS as nat, |v: int| Entry::missing()),
    {
        let table = InterruptTable { entries: [Entry { handler: None, stack_index: None };256] };
        assert(table@ =~= Seq::new(VECTORS as nat, |v: int| Entry::missing()));
        table
    }

    /// The entry of `vector`; `None` when there is no such vector.
    pub fn entry(&self, vector: usize) -> (entry: Option<Entry>)
        ensures
            self@.len() == VECTORS,
            entry == if vector < VECTORS {
                Some(self@[vector as int])
            } else {
                None
            },
    {
        if vector < VECTORS {
            Some(self.entries[vector])
        } else {
            None
        }
    }

    /// Gives `vector` the handler `handler`, without a stack switch.
    fn set_handler(&mut self, vector: usize, handler: Handler)
        requires
            vector < VECTORS,
        ensures
            final(self)@ == old(self)@.update(
                vector as int,
                Entry { handler: Some(handler), stack_index: None },
            ),
    {
        self.entries[vector] = Entry { handler: Some(handler), stack_index: None };
    }

    /// Orders a switch to the stack in slot `index` before the handler of
    /// `vector` runs.
    fn set_stack_index(&mut self, vector: usize, index: u16)
        requires
            vector < VECTORS,
            old(self)@[vector as int].handler is Some,
            index < IST_SLOTS,
        ensures
            final(self)@ == old(self)@.update(
                vector as int,
                Entry { stack_index: Some(index), ..old(self)@[vector as int] },
            ),
    {
        let handler = self.entries[vector].handler;
        self.entries[vector] = Entry { handler, stack_index: Some(index) };
    }
}

/// Builds the vector table. Two vectors get a handler: the breakpoint, which
/// runs on the interrupted stack, and the double fault, which runs on the
/// stack in the double-fault slot of the interrupt stack table, so that it
/// can run when the interrupted stack is exhausted or corrupt.
pub fn init_idt() -> (idt: InterruptTable)
    ensures
        idt@ == Seq::new(VECTORS as nat, |v: int| populated(v)),
        forall|v: int| 0 <= v < VECTORS ==> (#[trigger] idt@[v]).wf(),
{
    let mut idt = InterruptTable::new();
    idt.set_handler(BREAKPOINT_VECTOR, Handler::Breakpoint);
    idt.set_handler(DOUBLE_FAULT_VECTOR, Handler::DoubleFault);
    idt.set_stack_index(DOUBLE_FAULT_VECTOR, DOUBLE_FAULT_IST_INDEX);
    assert(idt@ =~= Seq::new(VECTORS as nat, |v: int| populated(v)));
    idt
}

/// The slot that the double-fault entry switches to is the slot in which the
/// task state segment holds the top of the double-fault stack: the address
/// just past the stack's last byte, which is not zero, so the slot is in use.
pub proof fn double_fault_stack_is_provisioned(stack_start: u64)
    requires
        stack_start + STACK_SIZE <= u64::MAX,
    ensures
        populated(DOUBLE_FAULT_VECTOR as int).stack_index matches Some(index)
            && index < IST_SLOTS
            && provisioned_stacks(stack_start)[index as int] == stack_start + STACK_SIZE
            && provisioned_stacks(stack_start)[index as int] != 0,
        forall|v: int|
            populated(v).stack_index is Some ==> v == DOUBLE_FAULT_VECTOR,
{
}

/// What the display shows after a report: the banner, the interrupted
/// machine state as text, and a line feed.
pub open spec fn report(before: Screen, banner: Seq<u8>, stack_frame: Seq<u8>) -> Screen {
    before.write_string(banner).write_string(stack_frame).write_byte(NEWLINE)
}

/// Writes `banner`, `stack_frame` and a line feed.
fn write_report<const W: usize, const H: usize>(
    writer: &mut Writer<'_, W, H>,
    banner: &str,
    stack_frame: &str,
)
    ensures
        final(writer)@ == report(old(writer)@, banner.spec_bytes(), stack_frame.spec_bytes()),
        Writer::<W, H>::on_grid(final(writer)@),
{
    writer.write_string(banner);
    writer.write_string(stack_frame);
    writer.write_byte(NEWLINE);
}

/// The breakpoint handler: reports the interrupted machine state, given as
/// text, and lets execution resume.
pub fn breakpoint_exception<const W: usize, const H: usize>(
    writer: &mut Writer<'_, W, H>,
    stack_frame: &str,
) -> (next: Disposition)
    ensures
        final(writer)@ == report(
            old(writer)@,
            BREAKPOINT_BANNER.spec_bytes(),
            stack_frame.spec_bytes(),
        ),
        Writer::<W, H>::on_grid(final(writer)@),
        next == Handler::Breakpoint.disposition(),
        next == Disposition::Resume,
{
    write_report(writer, BREAKPOINT_BANNER, stack_frame);
    Disposition::Resume
}

/// The double-fault handler: reports the interrupted machine state, given as
/// text, and has the processor halt. A double fault is not recovered from.
pub fn double_fault_handler<const W: usize, const H: usize>(
    writer: &mut Writer<'_, W, H>,
    stack_frame: &str,
    _error_code: u64,
) -> (next: Disposition)
    ensures
        final(writer)@ == report(
            old(writer)@,
            DOUBLE_FAULT_BANNER.spec_bytes(),
            stack_frame.spec_bytes(),
        ),
        Writer::<W, H>::on_grid(final(writer)@),
        next == Handler::DoubleFault.disposition(),
        next == Disposition::Halt,
{
    write_report(writer, DOUBLE_FAULT_BANNER, stack_frame);
    Disposition::Halt
}

} // verus!
