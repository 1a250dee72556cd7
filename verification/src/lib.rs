//! Core of a user/kernel boundary for a single-address-space-per-task kernel:
//! translation of user virtual pointers to physical addresses through the
//! owning task's page table, validated creation and removal of anonymous
//! virtual memory mappings, and the syscall surface built on both.
//!
//! The scheduler, the timer and physical memory are external collaborators;
//! they are modelled here as explicit context passed into each operation (an
//! address space, a task record, the current microsecond count, a physical
//! store), so that the translation and mapping logic is verified in isolation
//! against synthetic page tables.

pub mod addr;
pub mod page_table;
pub mod address_space;
pub mod mapping;
pub mod task;
pub mod time;
pub mod phys_mem;
pub mod syscall;
pub mod laws;
