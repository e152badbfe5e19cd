//! The segment and task-state tables: a task state segment whose interrupt
//! stack table gives the double-fault handler a stack of its own, and a
//! global descriptor table with a kernel code segment and that task state
//! segment.
//!
//! The tables are the `x86_64` crate's; this module decides what goes into
//! them. Loading them into the processor is left to the caller, who owns the
//! static storage that a loaded table needs.

use vstd::prelude::*;
use x86_64::structures::gdt::{Descriptor, GlobalDescriptorTable};
use x86_64::structures::tss::TaskStateSegment;
use x86_64::VirtAddr;

verus! {

/// The slot of the interrupt stack table that holds the double-fault stack.
pub const DOUBLE_FAULT_IST_INDEX: u16 = 0;

/// Bytes of the double-fault stack: five pages.
pub const STACK_SIZE: usize = 4096 * 5;

/// Slots in the interrupt stack table.
pub const IST_SLOTS: usize = 7;

/// Most words that a global descriptor table holds.
pub const GDT_WORDS: usize = 8;

/// The descriptor of the 64-bit kernel code segment.
pub const KERNEL_CODE_SEGMENT: u64 = 0x00af_9b00_0000_ffff;

/// The bits of a system descriptor's first word that do not hold its base
/// address: limit, type, privilege level, present bit and flags.
pub const SYSTEM_DESCRIPTOR_FIXED: u64 = 0x00ff_ff00_0000_ffff;

/// Those bits in the descriptor of a task state segment: present, type
/// "available 64-bit TSS", privilege level 0, limit 0x67.
pub const AVAILABLE_TSS: u64 = 0x0000_8900_0000_0067;

/// A canonical virtual address: bits 47 to 63 are all equal.
pub open spec fn is_canonical(addr: u64) -> bool {
    addr < 0x0000_8000_0000_0000 || addr >= 0xffff_8000_0000_0000
}

/// Whether `word` is the first word of a present task-state-segment
/// descriptor.
pub open spec fn is_tss_descriptor(word: u64) -> bool {
    word & SYSTEM_DESCRIPTOR_FIXED == AVAILABLE_TSS
}

/// The interrupt stack table of a task state segment made for a
/// double-fault stack that starts at `stack_start`: the stack's top in the
/// double-fault slot, every other slot empty.
pub open spec fn provisioned_stacks(stack_start: u64) -> Seq<u64> {
    Seq::new(IST_SLOTS as nat, |i: int| 0u64).update(
        DOUBLE_FAULT_IST_INDEX as int,
        (stack_start + STACK_SIZE) as u64,
    )
}

/// `x86_64::structures::tss::TaskStateSegment`.
#[verifier::external_type_specification]
#[verifier::external_body]
pub struct ExTaskStateSegment(TaskStateSegment);

/// `x86_64::structures::gdt::GlobalDescriptorTable`.
#[verifier::external_type_specification]
#[verifier::external_body]
pub struct ExGlobalDescriptorTable(GlobalDescriptorTable);

/// `x86_64::structures::gdt::Descriptor`.
#[verifier::external_type_specification]
#[verifier::external_body]
pub struct ExDescriptor(Descriptor);

/// The seven stack-top addresses in a task state segment's interrupt stack
/// table, slot 0 first.
pub uninterp spec fn interrupt_stacks(tss: TaskStateSegment) -> Seq<u64>;

/// The words of a global descriptor table that are in use, the null
/// descriptor first: what `as_raw_slice` gives.
pub uninterp spec fn table_words(gdt: GlobalDescriptorTable) -> Seq<u64>;

/// The words of a descriptor: one for a user segment, two for a system
/// segment, low word first.
pub uninterp spec fn descriptor_words(descriptor: Descriptor) -> Seq<u64>;

/// `TaskStateSegment::new`: every slot of the interrupt stack table is zero.
pub assume_specification[ TaskStateSegment::new ]() -> (tss: TaskStateSegment)
    ensures
        interrupt_stacks(tss) == Seq::new(IST_SLOTS as nat, |i: int| 0u64),
;

/// Assigns to `interrupt_stack_table[index]` the address `top`, made with
/// `VirtAddr::new`, which panics unless bits 47 to 63 of `top` leave the
/// address determined; for a canonical `top` it keeps the value as it is.
/// The other slots are not touched.
#[verifier::external_body]
fn set_interrupt_stack(tss: &mut TaskStateSegment, index: usize, top: u64)
    requires
        index < IST_SLOTS,
        is_canonical(top),
    ensures
        interrupt_stacks(*final(tss)) == interrupt_stacks(*old(tss)).update(index as int, top),
{
    tss.interrupt_stack_table[index] = VirtAddr::new(top);
}

/// `GlobalDescriptorTable::new`: the table holds the null descriptor alone.
pub assume_specification[ GlobalDescriptorTable::new ]() -> (gdt: GlobalDescriptorTable)
    ensures
        table_words(gdt) == seq![0u64],
;

/// `GlobalDescriptorTable::add_entry`: appends the descriptor's words to the
/// table. It panics when the table has no room for them, which `requires`
/// leaves out. The segment selector that it returns is dropped.
#[verifier::external_body]
fn add_entry(gdt: &mut GlobalDescriptorTable, entry: Descriptor)
    requires
        table_words(*old(gdt)).len() + descriptor_words(entry).len() <= GDT_WORDS,
    ensures
        table_words(*final(gdt)) == table_words(*old(gdt)) + descriptor_words(entry),
{
    gdt.add_entry(entry);
}

/// `Descriptor::kernel_code_segment`: a user segment of one word, the flags
/// of a 64-bit kernel code segment.
pub assume_specification[ Descriptor::kernel_code_segment ]() -> (descriptor: Descriptor)
    ensures
        descriptor_words(descriptor) == seq![KERNEL_CODE_SEGMENT],
;

/// `Descriptor::tss_segment`: a system segment of two words. The first has
/// the present bit, the type of an available 64-bit TSS and the limit 0x67;
/// its other bits, and the second word, hold the address of `tss`, of which
/// nothing is claimed.
pub assume_specification[ Descriptor::tss_segment ](tss: &'static TaskStateSegment) -> (descriptor:
    Descriptor)
    ensures
        descriptor_words(descriptor).len() == 2,
        is_tss_descriptor(descriptor_words(descriptor)[0]),
;

/// The task state segment for a double-fault stack of `STACK_SIZE` bytes
/// that starts at `stack_start`. The double-fault slot of its interrupt stack
/// table holds the stack's top, the address just past its last byte, since
/// the stack grows downwards. `None` when that address does not fit in 64
/// bits or is not canonical.
pub fn task_state_segment(stack_start: u64) -> (made: Option<TaskStateSegment>)
    ensures
        made is Some <==> stack_start + STACK_SIZE <= u64::MAX && is_canonical(
            (stack_start + STACK_SIZE) as u64,
        ),
        made matches Some(tss) ==> interrupt_stacks(tss) == provisioned_stacks(stack_start),
{
    if stack_start > u64::MAX - STACK_SIZE as u64 {
        return None;
    }
    let stack_end: u64 = stack_start + STACK_SIZE as u64;
    if stack_end >= 0x0000_8000_0000_0000 && stack_end < 0xffff_8000_0000_0000 {
        return None;
    }
    let mut tss = TaskStateSegment::new();
    set_interrupt_stack(&mut tss, DOUBLE_FAULT_IST_INDEX as usize, stack_end);
    Some(tss)
}

/// The global descriptor table: after the null descriptor, the kernel code
/// segment and the two words of the descriptor of `tss`.
pub fn global_descriptor_table(tss: &'static TaskStateSegment) -> (gdt: GlobalDescriptorTable)
    ensures
        table_words(gdt).len() == 4,
        table_words(gdt)[0] == 0,
        table_words(gdt)[1] == KERNEL_CODE_SEGMENT,
        is_tss_descriptor(table_words(gdt)[2]),
{
    let mut gdt: GlobalDescriptorTable = GlobalDescriptorTable::new();
    add_entry(&mut gdt, Descriptor::kernel_code_segment());
    let tss_descriptor = Descriptor::tss_segment(tss);
    add_entry(&mut gdt, tss_descriptor);
    gdt
}

} // verus!
