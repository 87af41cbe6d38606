//! Verified core of a small x86_64 kernel: physical frame allocation, heap
//! and MMIO mapping plans, the interrupt dispatch table, interrupt-controller
//! configuration and calibration, and the boot sequence that ties them
//! together; with the console's colours, key handling and command shell.

pub mod apic;
pub mod boot;
pub mod color;
pub mod frame;
pub mod gdt;
pub mod heap;
pub mod idt;
pub mod keyboard;
pub mod paging;
pub mod power;
pub mod qemu;
pub mod shell;
