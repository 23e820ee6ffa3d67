use vstd::prelude::*;

use vstd::arithmetic::div_mod::*;

use crate::page_table::PageTableError;
use crate::page_table::pages_for;
use crate::page_table::slot;

verus! {

/// Whether a descriptor is valid (bit 0 set).
pub open spec fn desc_valid(e: u64) -> bool {
    e % 2 == 1
}

/// Whether a descriptor points at a next-level table (bits 1:0 = 0b11 at
/// levels 0 to 2) or, at level 3, maps a 4 KiB page.
pub open spec fn desc_table(e: u64) -> bool {
    e % 4 == 3
}

/// Whether a level 1 or 2 descriptor maps a block (bits 1:0 = 0b01).
pub open spec fn desc_block(e: u64) -> bool {
    e % 4 == 1
}

/// Physical address field of a table or 4 KiB page descriptor.
pub open spec fn desc_table_addr(e: u64) -> int {
    (e as int / 4096) * 4096
}

/// Physical address field of a 1 GiB block descriptor.
pub open spec fn desc_block_addr(e: u64) -> int {
    (e as int / 0x4000_0000) * 0x4000_0000
}

/// Default L0 slot of the kernel mapping in the high-half table:
/// virtual base 0xFFFF_0000_0000_0000 selects slot 0.
pub const KERNEL_L0_INDEX: usize = 0;

/// L0 slot of the physical-memory direct mapping in the high-half table:
/// virtual base 0xFFFF_8000_0000_0000 selects slot 256.
pub const PHYS_MAP_L0_INDEX: usize = 256;

/// Virtual address offset where all physical memory is linearly mapped.
pub const PHYSICAL_MEMORY_OFFSET: u64 = 0xFFFF_8000_0000_0000;

/// Recommended MAIR_EL1 value: attribute 0 is normal write-back memory,
/// attribute 1 is device memory, attribute 2 is normal non-cacheable.
pub const MAIR_VALUE: u64 = 0x0000_0000_0044_00FF;

/// Recommended TCR_EL1 value: 48-bit virtual addresses in both halves,
/// 4 KiB granule, inner-shareable write-back walks, 48-bit physical.
pub const TCR_VALUE: u64 = 0x0000_0005_B510_3510;

/// Bytes spanned by one entry of each level: L0, L1, L2, L3.
pub const L0_SPAN: u64 = 0x80_0000_0000;
/// Bytes spanned by one L1 entry (1 GiB).
pub const L1_SPAN: u64 = 0x4000_0000;
/// Bytes spanned by one L2 entry (2 MiB).
pub const L2_SPAN: u64 = 0x20_0000;
/// Bytes spanned by one L3 entry (4 KiB).
pub const L3_SPAN: u64 = 0x1000;

/// Attribute bits of a normal-memory block or page: access flag,
/// inner-shareable, memory attribute index zero.
pub const NORMAL_MEM_ATTRS: u64 = 0x700;

/// Highest physical address bound kept by every plan.
pub const MAX_PHYS: u64 = 0x10_0000_0000_0000;

/// Table geometry for the two-root builder: leaf-table count and the slot
/// each level selects for the kernel's virtual base in the high-half walk.
#[derive(Clone, Copy, Debug, PartialEq, Eq, Structural)]
pub struct TablePlan {
    /// Physical base of the loaded kernel block.
    pub kernel_phys: u64,
    /// Lowest virtual address of the kernel span.
    pub kernel_virt_base: u64,
    /// Number of 4 KiB pages covering the kernel span.
    pub kernel_4k_pages: usize,
    /// Number of leaf (L3) table pages needed.
    pub l3_count: usize,
    /// L0 slot of the kernel mapping.
    pub kernel_l0_index: usize,
    /// L1 slot of the kernel mapping.
    pub kernel_l1_index: usize,
    /// First L2 slot of the kernel mapping.
    pub kernel_l2_index: usize,
    /// First L3 slot of the kernel mapping.
    pub kernel_l3_start: usize,
}

impl TablePlan {
    /// A plan is well formed when its slots are those selected by the
    /// kernel's virtual base, the span fits one L2 table's reach without
    /// touching the direct map's L0 slot, and all addresses stay below
    /// `MAX_PHYS`.
    pub open spec fn wf(self) -> bool {
        &&& self.kernel_phys % 4096 == 0
        &&& self.kernel_phys + 0x4000_0000 <= MAX_PHYS
        &&& self.kernel_virt_base % 4096 == 0
        &&& 1 <= self.kernel_4k_pages
        &&& self.kernel_l0_index as int == slot(self.kernel_virt_base, L0_SPAN)
        &&& self.kernel_l1_index as int == slot(self.kernel_virt_base, L1_SPAN)
        &&& self.kernel_l2_index as int == slot(self.kernel_virt_base, L2_SPAN)
        &&& self.kernel_l3_start as int == slot(self.kernel_virt_base, L3_SPAN)
        &&& self.kernel_l0_index != PHYS_MAP_L0_INDEX as int
        &&& self.kernel_l2_index * 512 + self.kernel_l3_start + self.kernel_4k_pages <= 512 * 512
        &&& self.l3_count as int == (self.kernel_l3_start + self.kernel_4k_pages + 511) / 512
        &&& self.kernel_4k_pages * 4096 <= 0x4000_0000
    }

    /// Total table pages the builder will fill: two L0 roots, the identity
    /// L1, the kernel L1 and L2, the direct-map L1, and the L3 tables.
    pub open spec fn spec_total_pages(self) -> int {
        6 + self.l3_count as int
    }

    /// Number of pages of table storage to reserve before firmware shutdown.
    pub fn total_pages(&self) -> (r: usize)
        requires
            self.wf(),
        ensures
            r as int == self.spec_total_pages(),
    {
        6 + self.l3_count
    }
}

/// The outcome of planning, fixed by the three inputs alone.
pub open spec fn spec_plan(kernel_phys: u64, kernel_size: u64, kernel_virt_base: u64) -> Result<
    TablePlan,
    PageTableError,
> {
    if kernel_size == 0 {
        Err(PageTableError::EmptyImage)
    } else if kernel_phys % 4096 != 0 {
        Err(PageTableError::MisalignedPhysicalBase)
    } else if kernel_virt_base % 4096 != 0 {
        Err(PageTableError::MisalignedVirtualBase)
    } else if kernel_phys + 0x4000_0000 > MAX_PHYS {
        Err(PageTableError::PhysicalBaseTooHigh)
    } else if kernel_size > 0x4000_0000 {
        Err(PageTableError::SpanTooLarge)
    } else if slot(kernel_virt_base, L0_SPAN) == PHYS_MAP_L0_INDEX as int {
        Err(PageTableError::ReservedRootSlot)
    } else if slot(kernel_virt_base, L2_SPAN) * 512 + slot(kernel_virt_base, L3_SPAN) + pages_for(
        kernel_size,
        4096,
    ) > 512 * 512 {
        Err(PageTableError::SpanTooLarge)
    } else {
        Ok(
            TablePlan {
                kernel_phys,
                kernel_virt_base,
                kernel_4k_pages: pages_for(kernel_size, 4096) as usize,
                l3_count: ((slot(kernel_virt_base, L3_SPAN) + pages_for(kernel_size, 4096) + 511)
                    / 512) as usize,
                kernel_l0_index: slot(kernel_virt_base, L0_SPAN) as usize,
                kernel_l1_index: slot(kernel_virt_base, L1_SPAN) as usize,
                kernel_l2_index: slot(kernel_virt_base, L2_SPAN) as usize,
                kernel_l3_start: slot(kernel_virt_base, L3_SPAN) as usize,
            },
        )
    }
}

/// Compute the table geometry for a kernel block of `kernel_size` bytes at
/// physical `kernel_phys`, to be mapped at `kernel_virt_base` through the
/// high-half root.
pub fn plan_page_tables(kernel_phys: u64, kernel_size: u64, kernel_virt_base: u64) -> (r: Result<
    TablePlan,
    PageTableError,
>)
    ensures
        r == spec_plan(kernel_phys, kernel_size, kernel_virt_base),
        r matches Ok(p) ==> p.wf(),
{
    if kernel_size == 0 {
        return Err(PageTableError::EmptyImage);
    }
    if kernel_phys % 4096 != 0 {
        return Err(PageTableError::MisalignedPhysicalBase);
    }
    if kernel_virt_base % 4096 != 0 {
        return Err(PageTableError::MisalignedVirtualBase);
    }
    if kernel_phys > MAX_PHYS - 0x4000_0000 {
        return Err(PageTableError::PhysicalBaseTooHigh);
    }
    if kernel_size > 0x4000_0000 {
        return Err(PageTableError::SpanTooLarge);
    }
    let l0_index: usize = ((kernel_virt_base / L0_SPAN) % 512) as usize;
    let l1_index: usize = ((kernel_virt_base / L1_SPAN) % 512) as usize;
    let l2_index: usize = ((kernel_virt_base / L2_SPAN) % 512) as usize;
    let l3_start: usize = ((kernel_virt_base / L3_SPAN) % 512) as usize;
    if l0_index == PHYS_MAP_L0_INDEX {
        return Err(PageTableError::ReservedRootSlot);
    }
    let pages: usize = ((kernel_size + 4095) / 4096) as usize;
    if l2_index * 512 + l3_start + pages > 512 * 512 {
        return Err(PageTableError::SpanTooLarge);
    }
    Ok(
        TablePlan {
            kernel_phys,
            kernel_virt_base,
            kernel_4k_pages: pages,
            l3_count: (l3_start + pages + 511) / 512,
            kernel_l0_index: l0_index,
            kernel_l1_index: l1_index,
            kernel_l2_index: l2_index,
            kernel_l3_start: l3_start,
        },
    )
}

/// Physical addresses of the allocated table pages together with the kernel
/// geometry, for filling in after firmware shutdown.
pub struct PageTableConfig {
    /// Physical address of the low-half root (TTBR0), holding the identity
    /// map.
    pub ttbr0_l0: u64,
    /// Physical address of the identity map's L1 table.
    pub l1_low: u64,
    /// Physical address of the high-half root (TTBR1), holding the kernel
    /// and direct maps.
    pub ttbr1_l0: u64,
    /// Physical address of the kernel map's L1 table.
    pub l1_kernel: u64,
    /// Physical address of the kernel map's L2 table.
    pub l2_kernel: u64,
    /// Physical address of the direct map's L1 table.
    pub l1_phys_map: u64,
    /// Physical address of the first kernel L3 table.
    pub l3_base: u64,
    /// The geometry this configuration was planned from.
    pub plan: TablePlan,
}

impl PageTableConfig {
    /// Well formed: the plan is, and the table pages sit consecutively,
    /// page-aligned, in one block below `MAX_PHYS`.
    pub open spec fn wf(self) -> bool {
        &&& self.plan.wf()
        &&& self.ttbr0_l0 % 4096 == 0
        &&& self.l1_low == self.ttbr0_l0 + 4096
        &&& self.ttbr1_l0 == self.ttbr0_l0 + 2 * 4096
        &&& self.l1_kernel == self.ttbr0_l0 + 3 * 4096
        &&& self.l2_kernel == self.ttbr0_l0 + 4 * 4096
        &&& self.l1_phys_map == self.ttbr0_l0 + 5 * 4096
        &&& self.l3_base == self.ttbr0_l0 + 6 * 4096
        &&& self.ttbr0_l0 + self.plan.spec_total_pages() * 4096 <= MAX_PHYS
    }

    /// Lay the planned tables out in the reserved block at `table_base`.
    pub fn from_plan(plan: &TablePlan, table_base: u64) -> (r: PageTableConfig)
        requires
            plan.wf(),
            table_base % 4096 == 0,
            table_base + plan.spec_total_pages() * 4096 <= MAX_PHYS,
        ensures
            r.wf(),
            r.plan == *plan,
            r.ttbr0_l0 == table_base,
    {
        PageTableConfig {
            ttbr0_l0: table_base,
            l1_low: table_base + 4096,
            ttbr1_l0: table_base + 2 * 4096,
            l1_kernel: table_base + 3 * 4096,
            l2_kernel: table_base + 4 * 4096,
            l1_phys_map: table_base + 5 * 4096,
            l3_base: table_base + 6 * 4096,
            plan: *plan,
        }
    }

    /// Physical address of the low-half root table, for TTBR0_EL1.
    pub fn ttbr0(&self) -> (r: u64)
        ensures
            r == self.ttbr0_l0,
    {
        self.ttbr0_l0
    }

    /// Physical address of the high-half root table, for TTBR1_EL1.
    pub fn ttbr1(&self) -> (r: u64)
        ensures
            r == self.ttbr1_l0,
    {
        self.ttbr1_l0
    }

    /// The value of entry `e` of table page `t` in the filled table block.
    pub open spec fn table_entry(self, t: int, e: int) -> u64
        recommends
            0 <= t < self.plan.spec_total_pages(),
            0 <= e < 512,
    {
        if t == 0 {
            if e == 0 {
                (self.l1_low + 3) as u64
            } else {
                0
            }
        } else if t == 1 {
            if e < 4 {
                (e * 0x4000_0000 + 0x701) as u64
            } else {
                0
            }
        } else if t == 2 {
            if e == self.plan.kernel_l0_index as int {
                (self.l1_kernel + 3) as u64
            } else if e == PHYS_MAP_L0_INDEX as int {
                (self.l1_phys_map + 3) as u64
            } else {
                0
            }
        } else if t == 3 {
            if e == self.plan.kernel_l1_index as int {
                (self.l2_kernel + 3) as u64
            } else {
                0
            }
        } else if t == 4 {
            if self.plan.kernel_l2_index as int <= e < self.plan.kernel_l2_index as int
                + self.plan.l3_count as int {
                (self.l3_base + (e - self.plan.kernel_l2_index as int) * 4096 + 3) as u64
            } else {
                0
            }
        } else if t == 5 {
            if e < 4 {
                (e * 0x4000_0000 + 0x701) as u64
            } else {
                0
            }
        } else {
            let p = (t - 6) * 512 + e - self.plan.kernel_l3_start as int;
            if 0 <= p < self.plan.kernel_4k_pages as int {
                (self.plan.kernel_phys + p * 4096 + 0x703) as u64
            } else {
                0
            }
        }
    }

    /// The value of the `i`th eight-byte entry of the filled table block.
    pub open spec fn entry_at(self, i: int) -> u64 {
        self.table_entry(i / 512, i % 512)
    }

    /// Compute one entry of the planned tables.
    fn entry_value(&self, t: usize, e: usize) -> (r: u64)
        requires
            self.wf(),
            t < self.plan.spec_total_pages(),
            e < 512,
        ensures
            r == self.table_entry(t as int, e as int),
    {
        if t == 0 {
            if e == 0 {
                self.l1_low + 3
            } else {
                0
            }
        } else if t == 1 || t == 5 {
            if e < 4 {
                (e as u64) * 0x4000_0000 + 0x701
            } else {
                0
            }
        } else if t == 2 {
            if e == self.plan.kernel_l0_index {
                self.l1_kernel + 3
            } else if e == PHYS_MAP_L0_INDEX {
                self.l1_phys_map + 3
            } else {
                0
            }
        } else if t == 3 {
            if e == self.plan.kernel_l1_index {
                self.l2_kernel + 3
            } else {
                0
            }
        } else if t == 4 {
            if self.plan.kernel_l2_index <= e && e < self.plan.kernel_l2_index
                + self.plan.l3_count {
                self.l3_base + ((e - self.plan.kernel_l2_index) as u64) * 4096 + 3
            } else {
                0
            }
        } else {
            let idx = (t - 6) * 512 + e;
            if idx >= self.plan.kernel_l3_start {
                let p = idx - self.plan.kernel_l3_start;
                if p < self.plan.kernel_4k_pages {
                    self.plan.kernel_phys + (p as u64) * 4096 + 0x703
                } else {
                    0
                }
            } else {
                0
            }
        }
    }

    /// Fill in every entry of the table block.  Returns the block's
    /// eight-byte entries in order, and the low-half root's physical
    /// address; `ttbr1` gives the high-half root.  Produces the identity
    /// map of the first 4 GiB in the low half and the kernel and direct
    /// maps in the high half.
    pub fn init_page_tables(&self) -> (r: (Vec<u64>, u64))
        requires
            self.wf(),
        ensures
            r.0@.len() == self.plan.spec_total_pages() * 512,
            forall|i: int| 0 <= i < r.0@.len() ==> #[trigger] r.0@[i] == self.entry_at(i),
            r.1 == self.ttbr0_l0,
    {
        let total_entries: usize = (6 + self.plan.l3_count) * 512;
        let mut arena: Vec<u64> = Vec::new();
        let mut i: usize = 0;
        while i < total_entries
            invariant
                self.wf(),
                total_entries == self.plan.spec_total_pages() * 512,
                i <= total_entries,
                arena@.len() == i,
                forall|j: int| 0 <= j < i ==> #[trigger] arena@[j] == self.entry_at(j),
            decreases total_entries - i,
        {
            let t = i / 512;
            let e = i % 512;
            let v = self.entry_value(t, e);
            arena.push(v);
            i = i + 1;
        }
        (arena, self.ttbr0_l0)
    }

    /// The filled table block: `arena` holds exactly the planned entries.
    pub open spec fn matches(self, arena: Seq<u64>) -> bool {
        &&& arena.len() == self.plan.spec_total_pages() * 512
        &&& forall|i: int| 0 <= i < arena.len() ==> #[trigger] arena[i] == self.entry_at(i)
    }

    /// The entry of the table page at physical address `table` selected by
    /// index `idx`, read out of the block's entries.
    pub open spec fn read_entry(self, arena: Seq<u64>, table: int, idx: int) -> u64 {
        arena[(table - self.ttbr0_l0) / 4096 * 512 + idx]
    }

    /// The MMU walk from the given root table over the filled block.
    pub open spec fn spec_walk(self, arena: Seq<u64>, root: int, va: u64) -> Option<(u64, u64)> {
        let e0 = self.read_entry(arena, root, slot(va, L0_SPAN));
        if !desc_table(e0) {
            None
        } else {
            let e1 = self.read_entry(arena, desc_table_addr(e0), slot(va, L1_SPAN));
            if desc_block(e1) {
                Some(((desc_block_addr(e1) + va as int % 0x4000_0000) as u64, e1))
            } else if !desc_table(e1) {
                None
            } else {
                let e2 = self.read_entry(arena, desc_table_addr(e1), slot(va, L2_SPAN));
                if desc_block(e2) {
                    Some((((e2 as int / 0x20_0000 * 0x20_0000) + va as int % 0x20_0000) as u64, e2))
                } else if !desc_table(e2) {
                    None
                } else {
                    let e3 = self.read_entry(arena, desc_table_addr(e2), slot(va, L3_SPAN));
                    if !desc_table(e3) {
                        None
                    } else {
                        Some(((desc_table_addr(e3) + va as int % 4096) as u64, e3))
                    }
                }
            }
        }
    }

    /// The low-half (TTBR0) walk: the identity map.
    pub open spec fn spec_translate_low(self, arena: Seq<u64>, va: u64) -> Option<(u64, u64)> {
        self.spec_walk(arena, self.ttbr0_l0 as int, va)
    }

    /// The high-half (TTBR1) walk: the kernel and direct maps.
    pub open spec fn spec_translate_high(self, arena: Seq<u64>, va: u64) -> Option<(u64, u64)> {
        self.spec_walk(arena, self.ttbr1_l0 as int, va)
    }
}

/// Flag and address facts about a next-level table or 4 KiB page
/// descriptor, built as a page-aligned address plus its low descriptor bits.
proof fn lemma_table_desc(a: int, f: int)
    requires
        0 <= a <= 0x10_0000_0000_0000,
        a % 4096 == 0,
        f == 3 || f == 0x703,
    ensures
        desc_valid((a + f) as u64),
        desc_table((a + f) as u64),
        !desc_block((a + f) as u64),
        desc_table_addr((a + f) as u64) == a,
{
    let e = a + f;
    lemma_fundamental_div_mod(a, 4096);
    let q = a / 4096;
    lemma_fundamental_div_mod_converse(e, 4096, q, f);
    if f == 3 {
        lemma_fundamental_div_mod_converse(e, 4, 1024 * q, 3);
        lemma_fundamental_div_mod_converse(e, 2, 2048 * q + 1, 1);
    } else {
        lemma_fundamental_div_mod_converse(e, 4, 1024 * q + 448, 3);
        lemma_fundamental_div_mod_converse(e, 2, 2048 * q + 897, 1);
    }
}

/// Flag and address facts about a 1 GiB block descriptor.
proof fn lemma_block_desc(a: int)
    requires
        0 <= a < 0x1_0000_0000,
        a % 0x4000_0000 == 0,
    ensures
        desc_valid((a + 0x701) as u64),
        desc_block((a + 0x701) as u64),
        !desc_table((a + 0x701) as u64),
        desc_block_addr((a + 0x701) as u64) == a,
{
    let e = a + 0x701;
    lemma_fundamental_div_mod(a, 0x4000_0000);
    let q = a / 0x4000_0000;
    lemma_fundamental_div_mod_converse(e, 0x4000_0000, q, 0x701);
    lemma_fundamental_div_mod_converse(e, 4, 0x1000_0000 * q + 448, 1);
    lemma_fundamental_div_mod_converse(e, 2, 0x2000_0000 * q + 896, 1);
}

impl PageTableConfig {
    /// An arena index splits into its table page and entry numbers.
    proof fn lemma_entry_split(self, t: int, e: int)
        requires
            0 <= t,
            0 <= e < 512,
        ensures
            self.entry_at(t * 512 + e) == self.table_entry(t, e),
    {
        lemma_fundamental_div_mod_converse(t * 512 + e, 512, t, e);
    }

    /// The slot each level selects for the `p`th page of the kernel span.
    proof fn lemma_kernel_va_slots(self, p: int, va: u64)
        requires
            self.plan.wf(),
            0 <= p < self.plan.kernel_4k_pages,
            va as int == self.plan.kernel_virt_base + p * 4096,
        ensures
            va as int % 4096 == 0,
            slot(va, L0_SPAN) == self.plan.kernel_l0_index,
            slot(va, L1_SPAN) == self.plan.kernel_l1_index,
            slot(va, L2_SPAN) == self.plan.kernel_l2_index + (self.plan.kernel_l3_start + p)
                / 512,
            slot(va, L3_SPAN) == (self.plan.kernel_l3_start + p) % 512,
            0 <= (self.plan.kernel_l3_start + p) / 512 < self.plan.l3_count,
            self.plan.kernel_l2_index + (self.plan.kernel_l3_start + p) / 512 < 512,
    {
        let b = self.plan.kernel_virt_base as int;
        let vai = va as int;
        let l3s = self.plan.kernel_l3_start as int;
        let l2i = self.plan.kernel_l2_index as int;
        let pages = self.plan.kernel_4k_pages as int;
        let v0 = b / 4096;
        lemma_fundamental_div_mod(b, 4096);
        let w = v0 + p;
        lemma_fundamental_div_mod_converse(vai, 4096, w, 0);
        lemma_div_denominator(b, 4096, 512);
        let u = v0 / 512;
        lemma_div_denominator(b, 0x20_0000, 512);
        lemma_div_denominator(b, 0x4000_0000, 512);
        assert(v0 % 512 == l3s);
        assert(u % 512 == l2i);
        let t = (l3s + p) / 512;
        let r = (l3s + p) % 512;
        lemma_fundamental_div_mod(l3s + p, 512);
        lemma_mod_pos_bound(l3s + p, 512);
        assert(t < self.plan.l3_count as int) by {
            lemma_div_is_ordered(l3s + p, l3s + pages - 1, 512);
            lemma_div_plus_one(l3s + pages - 1, 512);
            assert(1 + (l3s + pages - 1) / 512 == (l3s + pages + 511) / 512);
        }
        assert(l2i + self.plan.l3_count as int <= 512) by {
            lemma_div_is_ordered(l3s + pages + 511, 512 * (512 - l2i) + 511, 512);
            lemma_fundamental_div_mod_converse(512 * (512 - l2i) + 511, 512, 512 - l2i, 511);
        }
        lemma_fundamental_div_mod(v0, 512);
        lemma_fundamental_div_mod_converse(w, 512, u + t, r);
        lemma_fundamental_div_mod(u, 512);
        lemma_fundamental_div_mod_converse(u + t, 512, u / 512, l2i + t);
        lemma_div_denominator(vai, 4096, 512);
        lemma_div_denominator(vai, 0x20_0000, 512);
        lemma_div_denominator(vai, 0x4000_0000, 512);
    }

    /// Every page of the kernel span resolves through the high-half walk to
    /// its place in the kernel's physical block, as a valid page descriptor.
    #[verifier::spinoff_prover]
    #[verifier::rlimit(100)]
    pub proof fn lemma_kernel_mapping(self, arena: Seq<u64>, p: int, va: u64)
        requires
            self.wf(),
            self.matches(arena),
            0 <= p < self.plan.kernel_4k_pages,
            va as int == self.plan.kernel_virt_base + p * 4096,
        ensures
            self.spec_translate_high(arena, va) == Some(
                (
                    (self.plan.kernel_phys + p * 4096) as u64,
                    (self.plan.kernel_phys + p * 4096 + 0x703) as u64,
                ),
            ),
            desc_valid((self.plan.kernel_phys + p * 4096 + 0x703) as u64),
    {
        let plan = self.plan;
        let l3s = plan.kernel_l3_start as int;
        let t = (l3s + p) / 512;
        let r = (l3s + p) % 512;
        self.lemma_kernel_va_slots(p, va);
        assert(plan.l3_count >= 1);
        // L0: the kernel slot of the high-half root points at the kernel L1
        let i0 = slot(va, L0_SPAN);
        assert((self.ttbr1_l0 - self.ttbr0_l0) / 4096 == 2) by {
            lemma_fundamental_div_mod_converse(2int * 4096, 4096, 2, 0);
        }
        assert(arena[2 * 512 + i0] == self.entry_at(2 * 512 + i0));
        self.lemma_entry_split(2, i0);
        assert(arena[2 * 512 + i0] == (self.l1_kernel + 3) as u64);
        lemma_table_desc(self.l1_kernel as int, 3);
        assert((self.l1_kernel - self.ttbr0_l0) / 4096 == 3) by {
            lemma_fundamental_div_mod_converse(3int * 4096, 4096, 3, 0);
        }
        // L1: points at the kernel L2
        let i1 = slot(va, L1_SPAN);
        assert(arena[3 * 512 + i1] == self.entry_at(3 * 512 + i1));
        self.lemma_entry_split(3, i1);
        assert(arena[3 * 512 + i1] == (self.l2_kernel + 3) as u64);
        lemma_table_desc(self.l2_kernel as int, 3);
        assert((self.l2_kernel - self.ttbr0_l0) / 4096 == 4) by {
            lemma_fundamental_div_mod_converse(4int * 4096, 4096, 4, 0);
        }
        // L2: points at leaf table `t`
        let i2 = slot(va, L2_SPAN);
        assert(arena[4 * 512 + i2] == self.entry_at(4 * 512 + i2));
        self.lemma_entry_split(4, i2);
        assert(arena[4 * 512 + i2] == (self.l3_base + t * 4096 + 3) as u64);
        lemma_table_desc(self.l3_base as int + t * 4096, 3);
        assert((self.l3_base + t * 4096 - self.ttbr0_l0) / 4096 == 6 + t) by {
            lemma_fundamental_div_mod_converse((6 + t) * 4096, 4096, 6 + t, 0);
        }
        // L3: the page descriptor holds the page's physical address
        let i3 = slot(va, L3_SPAN);
        assert((6 + t) * 512 + i3 < arena.len());
        assert(arena[(6 + t) * 512 + i3] == self.entry_at((6 + t) * 512 + i3));
        self.lemma_entry_split(6 + t, i3);
        assert(t * 512 + i3 - l3s == p);
        assert(arena[(6 + t) * 512 + i3] == (plan.kernel_phys + p * 4096 + 0x703) as u64);
        lemma_table_desc(plan.kernel_phys as int + p * 4096, 0x703);
    }

    /// Every physical address below 4 GiB is identity-mapped by the
    /// low-half walk through a 1 GiB block.
    #[verifier::spinoff_prover]
    #[verifier::rlimit(100)]
pub proof fn lemma_identity_mapping(self, arena: Seq<u64>, pa: u64)
        requires
            self.wf(),
            self.matches(arena),
            pa < 0x1_0000_0000,
        ensures
            self.spec_translate_low(arena, pa) == Some(
                (pa, (pa as int / 0x4000_0000 * 0x4000_0000 + 0x701) as u64),
            ),
    {
        let pai = pa as int;
        let g = pai / 0x4000_0000;
        lemma_fundamental_div_mod(pai, 0x4000_0000);
        lemma_fundamental_div_mod_converse(pai, 0x80_0000_0000, 0, pai);
        assert(arena[0] == self.entry_at(0));
        self.lemma_entry_split(0, 0);
        lemma_table_desc(self.l1_low as int, 3);
        assert((self.l1_low - self.ttbr0_l0) / 4096 == 1);
        lemma_fundamental_div_mod_converse(g, 512, 0, g);
        assert(arena[512 + g] == self.entry_at(512 + g));
        self.lemma_entry_split(1, g);
        assert(arena[512 + g] == (g * 0x4000_0000 + 0x701) as u64);
        lemma_mod_multiples_basic(g, 0x4000_0000);
        lemma_block_desc(g * 0x4000_0000);
    }

    /// Every physical address below 4 GiB is reachable at the fixed
    /// direct-map offset through the high-half walk's 1 GiB blocks.
    #[verifier::spinoff_prover]
    #[verifier::rlimit(100)]
    pub proof fn lemma_direct_mapping(self, arena: Seq<u64>, pa: u64, va: u64)
        requires
            self.wf(),
            self.matches(arena),
            pa < 0x1_0000_0000,
            va as int == PHYSICAL_MEMORY_OFFSET + pa,
        ensures
            self.spec_translate_high(arena, va) == Some(
                (pa, (pa as int / 0x4000_0000 * 0x4000_0000 + 0x701) as u64),
            ),
    {
        let vai = va as int;
        let pai = pa as int;
        let g = pai / 0x4000_0000;
        let s = pai % 0x4000_0000;
        lemma_fundamental_div_mod(pai, 0x4000_0000);
        // the L0 slot is the direct map's
        lemma_fundamental_div_mod_converse(vai, 0x80_0000_0000, 0x1FF_FF00, pai);
        lemma_fundamental_div_mod_converse(0x1FF_FF00, 512, 65535, 256);
        assert((self.ttbr1_l0 - self.ttbr0_l0) / 4096 == 2) by {
            lemma_fundamental_div_mod_converse(2int * 4096, 4096, 2, 0);
        }
        assert(arena[2int * 512 + 256] == self.entry_at(2int * 512 + 256));
        self.lemma_entry_split(2, 256int);
        assert(arena[2int * 512 + 256] == (self.l1_phys_map + 3) as u64);
        lemma_table_desc(self.l1_phys_map as int, 3);
        assert((self.l1_phys_map - self.ttbr0_l0) / 4096 == 5) by {
            lemma_fundamental_div_mod_converse(5int * 4096, 4096, 5, 0);
        }
        // the L1 slot selects block g
        lemma_fundamental_div_mod_converse(vai, 0x4000_0000, 0x3_FFFE_0000 + g, s);
        lemma_fundamental_div_mod_converse(0x3_FFFE_0000 + g, 512, 0x1FF_FF00, g);
        assert(arena[5 * 512 + g] == self.entry_at(5 * 512 + g));
        self.lemma_entry_split(5, g);
        assert(arena[5 * 512 + g] == (g * 0x4000_0000 + 0x701) as u64);
        lemma_mod_multiples_basic(g, 0x4000_0000);
        lemma_block_desc(g * 0x4000_0000);
    }

    /// Walk the identity map from the low-half root for `va`, exactly as
    /// the MMU would with TTBR0 active.
    #[verifier::spinoff_prover]
    #[verifier::rlimit(100)]
    pub fn translate_low(&self, arena: &Vec<u64>, va: u64) -> (r: Option<(u64, u64)>)
        requires
            self.wf(),
            self.matches(arena@),
        ensures
            r == self.spec_translate_low(arena@, va),
    {
        // L0
        let i0: usize = ((va / L0_SPAN) % 512) as usize;
        proof {
            self.lemma_entry_split(0, i0 as int);
            if i0 == 0 {
                lemma_table_desc(self.l1_low as int, 3);
            }
        }
        let e0 = arena[i0];
        if e0 % 4 != 3 {
            return None;
        }
        let tab1 = e0 / 4096 * 4096;
        let t1: usize = ((tab1 - self.ttbr0_l0) / 4096) as usize;
        assert(t1 == 1);
        // L1: every valid entry here is a 1 GiB block
        let i1: usize = ((va / L1_SPAN) % 512) as usize;
        proof {
            self.lemma_entry_split(1, i1 as int);
            if i1 < 4 {
                lemma_mod_multiples_basic(i1 as int, 0x4000_0000);
                lemma_block_desc(i1 as int * 0x4000_0000);
            }
        }
        let e1 = arena[512 + i1];
        if e1 % 4 == 1 {
            let phys = e1 / 0x4000_0000 * 0x4000_0000 + va % 0x4000_0000;
            return Some((phys, e1));
        }
        assert(e1 % 4 != 3);
        None
    }

    /// Walk the kernel and direct maps from the high-half root for `va`,
    /// exactly as the MMU would with TTBR1 active.
    #[verifier::spinoff_prover]
    #[verifier::rlimit(100)]
    pub fn translate_high(&self, arena: &Vec<u64>, va: u64) -> (r: Option<(u64, u64)>)
        requires
            self.wf(),
            self.matches(arena@),
        ensures
            r == self.spec_translate_high(arena@, va),
    {
        let ghost plan = self.plan;
        proof {
            lemma_fundamental_div_mod_converse(2int * 4096, 4096, 2, 0);
        }
        // L0
        let i0: usize = ((va / L0_SPAN) % 512) as usize;
        proof {
            self.lemma_entry_split(2, i0 as int);
            if i0 as int == plan.kernel_l0_index {
                lemma_table_desc(self.l1_kernel as int, 3);
                lemma_fundamental_div_mod_converse(3int * 4096, 4096, 3, 0);
            } else if i0 == PHYS_MAP_L0_INDEX {
                lemma_table_desc(self.l1_phys_map as int, 3);
                lemma_fundamental_div_mod_converse(5int * 4096, 4096, 5, 0);
            }
        }
        let e0 = arena[2 * 512 + i0];
        if e0 % 4 != 3 {
            return None;
        }
        let tab1 = e0 / 4096 * 4096;
        let t1: usize = ((tab1 - self.ttbr0_l0) / 4096) as usize;
        assert(t1 == 3 || t1 == 5);
        // L1: a block in the direct map, or the pointer to the kernel L2
        let i1: usize = ((va / L1_SPAN) % 512) as usize;
        proof {
            self.lemma_entry_split(t1 as int, i1 as int);
            if t1 == 5 && i1 < 4 {
                lemma_mod_multiples_basic(i1 as int, 0x4000_0000);
                lemma_block_desc(i1 as int * 0x4000_0000);
            } else if t1 == 3 && i1 as int == plan.kernel_l1_index {
                lemma_table_desc(self.l2_kernel as int, 3);
                lemma_fundamental_div_mod_converse(4int * 4096, 4096, 4, 0);
            }
        }
        let e1 = arena[t1 * 512 + i1];
        if e1 % 4 == 1 {
            let phys = e1 / 0x4000_0000 * 0x4000_0000 + va % 0x4000_0000;
            return Some((phys, e1));
        }
        if e1 % 4 != 3 {
            return None;
        }
        let tab2 = e1 / 4096 * 4096;
        let t2: usize = ((tab2 - self.ttbr0_l0) / 4096) as usize;
        assert(t2 == 4);
        // L2: pointers to the kernel leaf tables
        let i2: usize = ((va / L2_SPAN) % 512) as usize;
        proof {
            self.lemma_entry_split(4, i2 as int);
            let tk = i2 as int - plan.kernel_l2_index;
            if plan.kernel_l2_index as int <= i2 as int && (i2 as int) < plan.kernel_l2_index
                as int + plan.l3_count as int {
                lemma_table_desc(self.l3_base as int + tk * 4096, 3);
                lemma_fundamental_div_mod_converse((6 + tk) * 4096, 4096, 6 + tk, 0);
            }
        }
        let e2 = arena[t2 * 512 + i2];
        if e2 % 4 == 1 {
            let phys = e2 / 0x20_0000 * 0x20_0000 + va % 0x20_0000;
            return Some((phys, e2));
        }
        if e2 % 4 != 3 {
            return None;
        }
        let tab3 = e2 / 4096 * 4096;
        let t3: usize = ((tab3 - self.ttbr0_l0) / 4096) as usize;
        assert(6 <= t3 < plan.spec_total_pages());
        // L3
        let i3: usize = ((va / L3_SPAN) % 512) as usize;
        proof {
            self.lemma_entry_split(t3 as int, i3 as int);
            assert(t3 as int * 512 + i3 < arena@.len());
            let pk = (t3 as int - 6) * 512 + i3 as int - plan.kernel_l3_start;
            if 0 <= pk < plan.kernel_4k_pages as int {
                lemma_table_desc(plan.kernel_phys as int + pk * 4096, 0x703);
            }
        }
        let e3 = arena[t3 * 512 + i3];
        if e3 % 4 != 3 {
            return None;
        }
        let phys = e3 / 4096 * 4096 + va % 4096;
        Some((phys, e3))
    }
}

} // verus!
