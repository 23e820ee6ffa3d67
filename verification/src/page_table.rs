pub mod aarch64;
pub mod loongarch64;
pub mod riscv64;
pub mod x86_64;

use vstd::prelude::*;

verus! {

/// Why a page-table plan could not be made for a kernel image.
#[derive(Clone, Copy, Debug, PartialEq, Eq, Structural)]
pub enum PageTableError {
    /// The kernel occupies no bytes at all.
    EmptyImage,
    /// The kernel span does not fit the fixed table budget of this builder.
    SpanTooLarge,
    /// The kernel's lowest virtual address is not page-aligned.
    MisalignedVirtualBase,
    /// The kernel's physical base is not page-aligned.
    MisalignedPhysicalBase,
    /// The kernel's physical block ends beyond the largest mappable address.
    PhysicalBaseTooHigh,
    /// The kernel's root-table slot collides with the identity or direct map.
    ReservedRootSlot,
}

/// Index into a 512-entry translation table selected by `va` at a level
/// whose entries each span `span` bytes.
pub open spec fn slot(va: u64, span: u64) -> int
    recommends
        span > 0,
{
    ((va as int) / (span as int)) % 512
}

/// Number of pages of size `page` needed to cover `size` bytes, rounded up.
pub open spec fn pages_for(size: u64, page: u64) -> int
    recommends
        page > 0,
{
    ((size as int) + (page as int) - 1) / (page as int)
}

} // verus!
