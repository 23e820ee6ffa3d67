//! The kernel-handoff core of a firmware-stage boot loader.
//!
//! Given a kernel image and a target architecture, the library analyzes the
//! image's loadable segments, computes the physical placement, lays the
//! segments out in the kernel's block, builds the page tables that map the
//! kernel at its virtual base alongside an identity map and a
//! physical-memory direct map, collects the platform description handed to
//! the kernel, and sequences the whole attempt across the one-way
//! firmware-services shutdown barrier.  Every computation and every
//! ordering rule is verified; the firmware calls, the raw memory writes
//! and the final jump are left to the thin program around the library.

pub mod config;
pub mod download;
pub mod elf;
pub mod fsutil;
pub mod menu;
pub mod net;
pub mod handoff;
pub mod loader;
pub mod page_table;
pub mod placement;
pub mod sequencer;
pub mod serial;

use vstd::prelude::*;

verus! {

/// Size in bytes of one page at the finest translation granularity.
pub const PAGE_SIZE: usize = 4096;

/// Number of eight-byte entries in one page-table page.
pub const ENTRIES_PER_TABLE: usize = 512;

} // verus!
