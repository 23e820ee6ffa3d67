use vstd::prelude::*;

use vstd::arithmetic::div_mod::*;

verus! {

/// The largest mapping granularity the identity map uses: 2 MiB huge pages.
pub const HUGE_PAGE_SIZE: u64 = 0x20_0000;

/// Size in bytes of the kernel's execution stack block.
pub const KERNEL_STACK_SIZE: u64 = 0x10_0000;

/// Bytes of the physical block set aside for a kernel spanning `span`
/// virtual bytes: the span rounded up to whole huge pages, so that no huge
/// page of the identity map covers both kernel-block memory and memory
/// outside it.
pub open spec fn spec_block_bytes(span: int) -> int {
    ((span + 0x20_0000 - 1) / 0x20_0000) * 0x20_0000
}

/// Number of finest-granularity pages to request for the kernel's physical
/// block.
pub fn kernel_block_pages(span: u64) -> (r: u64)
    requires
        span <= 0x0010_0000_0000_0000,
    ensures
        r * 4096 == spec_block_bytes(span as int),
        r == (span as int + 0x20_0000 - 1) / 0x20_0000 * 512,
{
    ((span + 0x20_0000 - 1) / 0x20_0000) * 512
}

/// Number of finest-granularity pages to request for the kernel's stack.
pub fn stack_pages() -> (r: u64)
    ensures
        r * 4096 == KERNEL_STACK_SIZE,
{
    256
}

/// The rounded block covers the span, is a whole number of huge pages, and
/// adds less than one huge page of slack.
pub proof fn lemma_block_bytes_bounds(span: int)
    requires
        0 <= span,
    ensures
        spec_block_bytes(span) % 0x20_0000 == 0,
        span <= spec_block_bytes(span),
        spec_block_bytes(span) < span + 0x20_0000,
{
    let q = (span + 0x20_0000 - 1) / 0x20_0000;
    lemma_mod_multiples_basic(q, 0x20_0000);
    lemma_fundamental_div_mod(span + 0x20_0000 - 1, 0x20_0000);
    lemma_mod_pos_bound(span + 0x20_0000 - 1, 0x20_0000);
}

/// Placement non-overlap: when the kernel's physical block starts on a
/// huge-page boundary and its size is the span rounded up to whole huge
/// pages, every huge page that overlaps the block lies entirely inside it
/// — so no identity-map huge page covers both kernel-block memory and
/// memory outside the block.
pub proof fn lemma_placement_no_alias(base: int, span: int, h: int)
    requires
        0 <= base,
        0 <= span,
        base % 0x20_0000 == 0,
        h * 0x20_0000 < base + spec_block_bytes(span),
        h * 0x20_0000 + 0x20_0000 > base,
    ensures
        base <= h * 0x20_0000,
        h * 0x20_0000 + 0x20_0000 <= base + spec_block_bytes(span),
{
    let g = 0x20_0000;
    let q = base / g;
    let m = (span + g - 1) / g;
    lemma_fundamental_div_mod(base, g);
    assert(base == g * q);
    lemma_div_pos_is_pos(span + g - 1, g);
    // h*g < g*(q+m) and g*h + g > g*q force q <= h < q + m
    assert(h < q + m) by (nonlinear_arith)
        requires
            h * g < g * (q + m),
            g == 0x20_0000,
    {
    }
    assert(h >= q) by (nonlinear_arith)
        requires
            h * g + g > g * q,
            g == 0x20_0000,
    {
    }
    assert(h * g >= q * g) by (nonlinear_arith)
        requires
            h >= q,
            g == 0x20_0000,
    {
    }
    assert(h * g + g <= (q + m) * g) by (nonlinear_arith)
        requires
            h < q + m,
            g == 0x20_0000,
    {
    }
    assert((q + m) * g == base + spec_block_bytes(span)) by (nonlinear_arith)
        requires
            base == g * q,
            m == (span + g - 1) / g,
            g == 0x20_0000,
            spec_block_bytes(span) == ((span + g - 1) / g) * g,
    {
    }
}

/// The chosen virtual span of the kernel and the physical base it was
/// placed at.
#[derive(Clone, Copy, Debug, PartialEq, Eq, Structural)]
pub struct PlacementRange {
    /// Least virtual address of the kernel span.
    pub min_virtual: u64,
    /// Greatest virtual end address of the kernel span.
    pub max_virtual: u64,
    /// Physical base address of the block the kernel was copied to.
    pub physical_base: u64,
}

impl PlacementRange {
    /// Well formed: a non-empty span, and a physical base aligned to the
    /// identity map's largest granularity.
    pub open spec fn wf(self) -> bool {
        &&& self.min_virtual < self.max_virtual
        &&& self.physical_base % HUGE_PAGE_SIZE == 0
    }

    /// Record a placement.  Fails exactly when the span is empty or the
    /// base is not huge-page aligned.
    pub fn new(min_virtual: u64, max_virtual: u64, physical_base: u64) -> (r: Option<
        PlacementRange,
    >)
        ensures
            r is Some <==> min_virtual < max_virtual && physical_base % HUGE_PAGE_SIZE == 0,
            r matches Some(p) ==> p == (PlacementRange { min_virtual, max_virtual, physical_base })
                && p.wf(),
    {
        if min_virtual < max_virtual && physical_base % HUGE_PAGE_SIZE == 0 {
            Some(PlacementRange { min_virtual, max_virtual, physical_base })
        } else {
            None
        }
    }
}

/// Usable top of the stack block at `stack_base`: the block's end address
/// rounded down to the calling convention's 16-byte alignment.
pub fn stack_top(stack_base: u64) -> (r: u64)
    requires
        stack_base + KERNEL_STACK_SIZE <= u64::MAX,
    ensures
        r as int == stack_base + KERNEL_STACK_SIZE - ((stack_base + KERNEL_STACK_SIZE) as int)
            % 16,
        r % 16 == 0,
        stack_base <= r <= stack_base + KERNEL_STACK_SIZE,
{
    let end = stack_base + KERNEL_STACK_SIZE;
    let r = end - end % 16;
    proof {
        lemma_fundamental_div_mod(end as int, 16);
        lemma_mod_pos_bound(end as int, 16);
        assert(r == 16 * ((end as int) / 16));
        lemma_mod_multiples_basic((end as int) / 16, 16);
    }
    r
}

} // verus!
