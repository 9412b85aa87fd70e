//! Early bring-up layer of a bare-metal kernel: a text-mode console, a
//! physical bump allocator, the multiboot header and the boot sequencer.

pub mod vga;
pub mod memory;
pub mod multiboot;
pub mod gdt;
pub mod idt;
pub mod paging;
pub mod pit;
pub mod scheduler;
pub mod keyboard;
pub mod disk;
pub mod syscall;
pub mod boot;
