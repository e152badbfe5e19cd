//! The lowest layer of a small x86_64 kernel: a text-mode display driver, the
//! segment and task-state tables that give the double-fault handler a stack
//! of its own, and the interrupt vector table with its two handlers.
//!
//! Everything here is executable Rust with a contract that Verus proves.
//! Hardware is reached through a handful of trusted declarations, each
//! documented where it stands.

pub mod gdt;
pub mod interrupts;
pub mod screen;
pub mod vga_buffer;
