use vstd::prelude::*;

use vstd::arithmetic::div_mod::*;

use crate::page_table::PageTableError;
use crate::page_table::pages_for;
use crate::page_table::slot;

verus! {

/// Whether a table entry has its present bit set.
pub open spec fn entry_present(e: u64) -> bool {
    e % 2 == 1
}

/// Whether a table entry has its writable bit set.
pub open spec fn entry_writable(e: u64) -> bool {
    (e / 2) % 2 == 1
}

/// Whether a PD entry maps a 2 MiB huge page rather than pointing to a PT.
pub open spec fn entry_huge(e: u64) -> bool {
    (e / 128) % 2 == 1
}

/// Physical address field of a pointer or 4 KiB leaf entry.
pub open spec fn entry_table_addr(e: u64) -> int {
    (e as int / 4096) * 4096
}

/// Physical address field of a 2 MiB huge-page entry.
pub open spec fn entry_huge_addr(e: u64) -> int {
    (e as int / 0x20_0000) * 0x20_0000
}

/// Default PML4 slot for the kernel mapping when no image dictates one.
pub const DEFAULT_KERNEL_PML4_INDEX: usize = 510;

/// PML4 slot of the physical-memory direct mapping:
/// slot 256 selects virtual base 0xFFFF_8000_0000_0000.
pub const PHYS_MAP_PML4_INDEX: usize = 256;

/// Virtual address offset where all physical memory is linearly mapped.
pub const PHYSICAL_MEMORY_OFFSET: u64 = 0xFFFF_8000_0000_0000;

/// Bytes spanned by one entry of each level: PML4, PDPT, PD, PT.
pub const PML4_SPAN: u64 = 0x80_0000_0000;
/// Bytes spanned by one PDPT entry (1 GiB).
pub const PDPT_SPAN: u64 = 0x4000_0000;
/// Bytes spanned by one PD entry (2 MiB).
pub const PD_SPAN: u64 = 0x20_0000;
/// Bytes spanned by one PT entry (4 KiB).
pub const PT_SPAN: u64 = 0x1000;

/// Present flag of an entry.
pub const PAGE_PRESENT: u64 = 1;
/// Writable flag of an entry.
pub const PAGE_WRITABLE: u64 = 2;
/// Huge-page flag of a PD entry.
pub const PAGE_HUGE: u64 = 128;

/// Highest physical address bound kept by every plan, so that entry
/// arithmetic never overflows and fits the hardware's address field.
pub const MAX_PHYS: u64 = 0x10_0000_0000_0000;

/// Geometry of the kernel mapping, computed before any memory is set aside:
/// how many table pages the builder needs and which slot of each level the
/// kernel's virtual base selects.
#[derive(Clone, Copy, Debug, PartialEq, Eq, Structural)]
pub struct TablePlan {
    /// Physical base of the loaded kernel block.
    pub kernel_phys: u64,
    /// Lowest virtual address of the kernel span.
    pub kernel_virt_base: u64,
    /// Number of 4 KiB pages covering the kernel span.
    pub kernel_4k_pages: usize,
    /// Number of leaf (PT) table pages needed.
    pub pt_count: usize,
    /// PML4 slot of the kernel mapping.
    pub kernel_pml4_index: usize,
    /// PDPT slot of the kernel mapping.
    pub kernel_pdpt_index: usize,
    /// First PD slot of the kernel mapping.
    pub kernel_pd_index: usize,
    /// First PT slot of the kernel mapping.
    pub kernel_pt_start: usize,
}

impl TablePlan {
    /// A plan is well formed when its slots are those selected by the
    /// kernel's virtual base, the span fits one PD's reach without touching
    /// the identity-map or direct-map PML4 slots, and all addresses stay
    /// below `MAX_PHYS`.
    pub open spec fn wf(self) -> bool {
        &&& self.kernel_phys % 4096 == 0
        &&& self.kernel_phys + 0x4000_0000 <= MAX_PHYS
        &&& self.kernel_virt_base % 4096 == 0
        &&& 1 <= self.kernel_4k_pages
        &&& self.kernel_pml4_index as int == slot(self.kernel_virt_base, PML4_SPAN)
        &&& self.kernel_pdpt_index as int == slot(self.kernel_virt_base, PDPT_SPAN)
        &&& self.kernel_pd_index as int == slot(self.kernel_virt_base, PD_SPAN)
        &&& self.kernel_pt_start as int == slot(self.kernel_virt_base, PT_SPAN)
        &&& self.kernel_pml4_index != 0
        &&& self.kernel_pml4_index != PHYS_MAP_PML4_INDEX as int
        &&& self.kernel_pd_index * 512 + self.kernel_pt_start + self.kernel_4k_pages <= 512 * 512
        &&& self.pt_count as int == (self.kernel_pt_start + self.kernel_4k_pages + 511) / 512
        &&& self.kernel_4k_pages * 4096 <= 0x4000_0000
    }

    /// Total table pages the builder will fill: one PML4, three PDPTs,
    /// four identity PDs, one kernel PD, four direct-map PDs, and the PTs.
    pub open spec fn spec_total_pages(self) -> int {
        13 + self.pt_count as int
    }

    /// Number of pages of table storage to reserve before firmware shutdown.
    pub fn total_pages(&self) -> (r: usize)
        requires
            self.wf(),
        ensures
            r as int == self.spec_total_pages(),
    {
        13 + self.pt_count
    }
}

/// The outcome of planning, fixed by the three inputs alone.
pub open spec fn spec_plan(kernel_phys: u64, kernel_size: u64, kernel_virt_base: u64) -> Result<
    TablePlan,
    PageTableError,
> {
    if kernel_size == 0 {
        Err(PageTableError::EmptyImage)
    } else if kernel_phys % 4096 != 0 {
        Err(PageTableError::MisalignedPhysicalBase)
    } else if kernel_virt_base % 4096 != 0 {
        Err(PageTableError::MisalignedVirtualBase)
    } else if kernel_phys + 0x4000_0000 > MAX_PHYS {
        Err(PageTableError::PhysicalBaseTooHigh)
    } else if kernel_size > 0x4000_0000 {
        Err(PageTableError::SpanTooLarge)
    } else if slot(kernel_virt_base, PML4_SPAN) == 0 || slot(kernel_virt_base, PML4_SPAN)
        == PHYS_MAP_PML4_INDEX as int {
        Err(PageTableError::ReservedRootSlot)
    } else if slot(kernel_virt_base, PD_SPAN) * 512 + slot(kernel_virt_base, PT_SPAN) + pages_for(
        kernel_size,
        4096,
    ) > 512 * 512 {
        Err(PageTableError::SpanTooLarge)
    } else {
        Ok(
            TablePlan {
                kernel_phys,
                kernel_virt_base,
                kernel_4k_pages: pages_for(kernel_size, 4096) as usize,
                pt_count: ((slot(kernel_virt_base, PT_SPAN) + pages_for(kernel_size, 4096) + 511)
                    / 512) as usize,
                kernel_pml4_index: slot(kernel_virt_base, PML4_SPAN) as usize,
                kernel_pdpt_index: slot(kernel_virt_base, PDPT_SPAN) as usize,
                kernel_pd_index: slot(kernel_virt_base, PD_SPAN) as usize,
                kernel_pt_start: slot(kernel_virt_base, PT_SPAN) as usize,
            },
        )
    }
}

/// Compute the table geometry for a kernel block of `kernel_size` bytes at
/// physical `kernel_phys`, to be mapped at `kernel_virt_base`.  Succeeds
/// exactly on the inputs a four-level map with this builder's fixed shape
/// can express; the resulting plan is well formed.
pub fn plan_page_tables(kernel_phys: u64, kernel_size: u64, kernel_virt_base: u64) -> (r: Result<
    TablePlan,
    PageTableError,
>)
    ensures
        r == spec_plan(kernel_phys, kernel_size, kernel_virt_base),
        r matches Ok(p) ==> p.wf(),
{
    if kernel_size == 0 {
        return Err(PageTableError::EmptyImage);
    }
    if kernel_phys % 4096 != 0 {
        return Err(PageTableError::MisalignedPhysicalBase);
    }
    if kernel_virt_base % 4096 != 0 {
        return Err(PageTableError::MisalignedVirtualBase);
    }
    if kernel_phys > MAX_PHYS - 0x4000_0000 {
        return Err(PageTableError::PhysicalBaseTooHigh);
    }
    if kernel_size > 0x4000_0000 {
        return Err(PageTableError::SpanTooLarge);
    }
    let pml4_index: usize = ((kernel_virt_base / PML4_SPAN) % 512) as usize;
    let pdpt_index: usize = ((kernel_virt_base / PDPT_SPAN) % 512) as usize;
    let pd_index: usize = ((kernel_virt_base / PD_SPAN) % 512) as usize;
    let pt_start: usize = ((kernel_virt_base / PT_SPAN) % 512) as usize;
    if pml4_index == 0 || pml4_index == PHYS_MAP_PML4_INDEX {
        return Err(PageTableError::ReservedRootSlot);
    }
    let pages: usize = ((kernel_size + 4095) / 4096) as usize;
    if pd_index * 512 + pt_start + pages > 512 * 512 {
        return Err(PageTableError::SpanTooLarge);
    }
    Ok(
        TablePlan {
            kernel_phys,
            kernel_virt_base,
            kernel_4k_pages: pages,
            pt_count: (pt_start + pages + 511) / 512,
            kernel_pml4_index: pml4_index,
            kernel_pdpt_index: pdpt_index,
            kernel_pd_index: pd_index,
            kernel_pt_start: pt_start,
        },
    )
}

/// Physical addresses of every allocated table page together with the
/// kernel geometry, so that the entries can be filled in after firmware
/// shutdown without further allocation.
pub struct PageTableConfig {
    /// Physical address of the PML4 (the root table).
    pub pml4: u64,
    /// Physical address of the identity-map PDPT.
    pub pdpt_low: u64,
    /// Physical address of the kernel-map PDPT.
    pub pdpt_kernel: u64,
    /// Physical address of the direct-map PDPT.
    pub pdpt_phys_map: u64,
    /// Physical address of the first of four identity-map PDs.
    pub pd_low_base: u64,
    /// Physical address of the kernel-map PD.
    pub pd_kernel: u64,
    /// Physical address of the first of four direct-map PDs.
    pub pd_phys_map_base: u64,
    /// Physical address of the first leaf PT page.
    pub pt_base: u64,
    /// The geometry this configuration was planned from.
    pub plan: TablePlan,
}

impl PageTableConfig {
    /// Well formed: the plan is, and the table pages sit consecutively,
    /// page-aligned, in one block below `MAX_PHYS`.
    pub open spec fn wf(self) -> bool {
        &&& self.plan.wf()
        &&& self.pml4 % 4096 == 0
        &&& self.pdpt_low == self.pml4 + 4096
        &&& self.pdpt_kernel == self.pml4 + 2 * 4096
        &&& self.pdpt_phys_map == self.pml4 + 3 * 4096
        &&& self.pd_low_base == self.pml4 + 4 * 4096
        &&& self.pd_kernel == self.pml4 + 8 * 4096
        &&& self.pd_phys_map_base == self.pml4 + 9 * 4096
        &&& self.pt_base == self.pml4 + 13 * 4096
        &&& self.pml4 + self.plan.spec_total_pages() * 4096 <= MAX_PHYS
    }

    /// Lay the planned tables out in the reserved block at `table_base`.
    pub fn from_plan(plan: &TablePlan, table_base: u64) -> (r: PageTableConfig)
        requires
            plan.wf(),
            table_base % 4096 == 0,
            table_base + plan.spec_total_pages() * 4096 <= MAX_PHYS,
        ensures
            r.wf(),
            r.plan == *plan,
            r.pml4 == table_base,
    {
        PageTableConfig {
            pml4: table_base,
            pdpt_low: table_base + 4096,
            pdpt_kernel: table_base + 2 * 4096,
            pdpt_phys_map: table_base + 3 * 4096,
            pd_low_base: table_base + 4 * 4096,
            pd_kernel: table_base + 8 * 4096,
            pd_phys_map_base: table_base + 9 * 4096,
            pt_base: table_base + 13 * 4096,
            plan: *plan,
        }
    }

    /// Physical address to load into the root translation register (CR3).
    pub fn root(&self) -> (r: u64)
        ensures
            r == self.pml4,
    {
        self.pml4
    }

    /// The value of entry `e` of table page `t` in the filled table block.
    pub open spec fn table_entry(self, t: int, e: int) -> u64
        recommends
            0 <= t < self.plan.spec_total_pages(),
            0 <= e < 512,
    {
        if t == 0 {
            if e == 0 {
                (self.pdpt_low + 3) as u64
            } else if e == self.plan.kernel_pml4_index as int {
                (self.pdpt_kernel + 3) as u64
            } else if e == PHYS_MAP_PML4_INDEX as int {
                (self.pdpt_phys_map + 3) as u64
            } else {
                0
            }
        } else if t == 1 {
            if e < 4 {
                (self.pd_low_base + e * 4096 + 3) as u64
            } else {
                0
            }
        } else if t == 2 {
            if e == self.plan.kernel_pdpt_index as int {
                (self.pd_kernel + 3) as u64
            } else {
                0
            }
        } else if t == 3 {
            if e < 4 {
                (self.pd_phys_map_base + e * 4096 + 3) as u64
            } else {
                0
            }
        } else if t < 8 {
            ((((t - 4) * 512 + e) * 0x20_0000) + 0x83) as u64
        } else if t == 8 {
            if self.plan.kernel_pd_index as int <= e < self.plan.kernel_pd_index as int
                + self.plan.pt_count as int {
                (self.pt_base + (e - self.plan.kernel_pd_index as int) * 4096 + 3) as u64
            } else {
                0
            }
        } else if t < 13 {
            ((((t - 9) * 512 + e) * 0x20_0000) + 0x83) as u64
        } else {
            let p = (t - 13) * 512 + e - self.plan.kernel_pt_start as int;
            if 0 <= p < self.plan.kernel_4k_pages as int {
                (self.plan.kernel_phys + p * 4096 + 3) as u64
            } else {
                0
            }
        }
    }

    /// The value of the `i`th eight-byte entry of the filled table block.
    pub open spec fn entry_at(self, i: int) -> u64 {
        self.table_entry(i / 512, i % 512)
    }

    /// Compute one entry of the planned tables.
    fn entry_value(&self, t: usize, e: usize) -> (r: u64)
        requires
            self.wf(),
            t < self.plan.spec_total_pages(),
            e < 512,
        ensures
            r == self.table_entry(t as int, e as int),
    {
        if t == 0 {
            if e == 0 {
                self.pdpt_low + 3
            } else if e == self.plan.kernel_pml4_index {
                self.pdpt_kernel + 3
            } else if e == PHYS_MAP_PML4_INDEX {
                self.pdpt_phys_map + 3
            } else {
                0
            }
        } else if t == 1 {
            if e < 4 {
                self.pd_low_base + (e as u64) * 4096 + 3
            } else {
                0
            }
        } else if t == 2 {
            if e == self.plan.kernel_pdpt_index {
                self.pd_kernel + 3
            } else {
                0
            }
        } else if t == 3 {
            if e < 4 {
                self.pd_phys_map_base + (e as u64) * 4096 + 3
            } else {
                0
            }
        } else if t < 8 {
            (((t - 4) * 512 + e) as u64) * 0x20_0000 + 0x83
        } else if t == 8 {
            if self.plan.kernel_pd_index <= e && e < self.plan.kernel_pd_index
                + self.plan.pt_count {
                self.pt_base + ((e - self.plan.kernel_pd_index) as u64) * 4096 + 3
            } else {
                0
            }
        } else if t < 13 {
            (((t - 9) * 512 + e) as u64) * 0x20_0000 + 0x83
        } else {
            let idx = (t - 13) * 512 + e;
            if idx >= self.plan.kernel_pt_start {
                let p = idx - self.plan.kernel_pt_start;
                if p < self.plan.kernel_4k_pages {
                    self.plan.kernel_phys + (p as u64) * 4096 + 3
                } else {
                    0
                }
            } else {
                0
            }
        }
    }

    /// Fill in every entry of the table block.  Returns the block's eight-byte
    /// entries in order, and the physical root address to load into CR3.
    /// Produces the identity map of the first 4 GiB in 2 MiB pages, the
    /// kernel map at its virtual base in 4 KiB pages, and the direct map of
    /// the first 4 GiB at `PHYSICAL_MEMORY_OFFSET`.
    pub fn init_page_tables(&self) -> (r: (Vec<u64>, u64))
        requires
            self.wf(),
        ensures
            r.0@.len() == self.plan.spec_total_pages() * 512,
            forall|i: int| 0 <= i < r.0@.len() ==> #[trigger] r.0@[i] == self.entry_at(i),
            r.1 == self.pml4,
    {
        let total_entries: usize = (13 + self.plan.pt_count) * 512;
        let mut arena: Vec<u64> = Vec::new();
        let mut i: usize = 0;
        while i < total_entries
            invariant
                self.wf(),
                total_entries == self.plan.spec_total_pages() * 512,
                i <= total_entries,
                arena@.len() == i,
                forall|j: int| 0 <= j < i ==> #[trigger] arena@[j] == self.entry_at(j),
            decreases total_entries - i,
        {
            let t = i / 512;
            let e = i % 512;
            let v = self.entry_value(t, e);
            arena.push(v);
            i = i + 1;
        }
        (arena, self.pml4)
    }

    /// The filled table block: `arena` holds exactly the planned entries.
    pub open spec fn matches(self, arena: Seq<u64>) -> bool {
        &&& arena.len() == self.plan.spec_total_pages() * 512
        &&& forall|i: int| 0 <= i < arena.len() ==> #[trigger] arena[i] == self.entry_at(i)
    }

    /// The entry of the table page at physical address `table` selected by
    /// index `idx`, read out of the block's entries.
    pub open spec fn read_entry(self, arena: Seq<u64>, table: int, idx: int) -> u64 {
        arena[(table - self.pml4) / 4096 * 512 + idx]
    }

    /// The MMU walk over the filled block: resolve `va` to its physical
    /// address and the leaf entry that mapped it, or `None` where some level
    /// is not present.
    pub open spec fn spec_translate(self, arena: Seq<u64>, va: u64) -> Option<(u64, u64)> {
        let e4 = self.read_entry(arena, self.pml4 as int, slot(va, PML4_SPAN));
        if !entry_present(e4) {
            None
        } else {
            let e3 = self.read_entry(arena, entry_table_addr(e4), slot(va, PDPT_SPAN));
            if !entry_present(e3) {
                None
            } else {
                let e2 = self.read_entry(arena, entry_table_addr(e3), slot(va, PD_SPAN));
                if !entry_present(e2) {
                    None
                } else if entry_huge(e2) {
                    Some(((entry_huge_addr(e2) + va as int % 0x20_0000) as u64, e2))
                } else {
                    let e1 = self.read_entry(arena, entry_table_addr(e2), slot(va, PT_SPAN));
                    if !entry_present(e1) {
                        None
                    } else {
                        Some(((entry_table_addr(e1) + va as int % 4096) as u64, e1))
                    }
                }
            }
        }
    }
}

/// Rounding a page-aligned address plus an in-page offset back down to the
/// page boundary recovers the address.
proof fn lemma_align_down(a: int, f: int)
    requires
        0 <= a,
        a % 4096 == 0,
        0 <= f < 4096,
    ensures
        (a + f) / 4096 * 4096 == a,
{
    lemma_fundamental_div_mod_converse(a + f, 4096, a / 4096, f);
    assert(a / 4096 * 4096 == a) by {
        lemma_fundamental_div_mod(a, 4096);
    }
}

/// Flag and address facts about a next-level pointer or 4 KiB leaf entry,
/// built as a page-aligned address plus the present and writable bits.
proof fn lemma_ptr_entry(a: int)
    requires
        0 <= a <= 0x10_0000_0000_0000,
        a % 4096 == 0,
    ensures
        entry_present((a + 3) as u64),
        entry_writable((a + 3) as u64),
        !entry_huge((a + 3) as u64),
        entry_table_addr((a + 3) as u64) == a,
{
    let e = a + 3;
    lemma_fundamental_div_mod(a, 4096);
    let q = a / 4096;
    lemma_fundamental_div_mod_converse(e, 4096, q, 3);
    lemma_fundamental_div_mod_converse(e, 2, 2048 * q + 1, 1);
    lemma_fundamental_div_mod_converse(2048 * q + 1, 2, 1024 * q, 1);
    lemma_fundamental_div_mod_converse(e, 128, 32 * q, 3);
    lemma_fundamental_div_mod_converse(32 * q, 2, 16 * q, 0);
}

/// Flag and address facts about a 2 MiB huge-page entry, built as a
/// 2 MiB-aligned address plus the present, writable and huge bits.
proof fn lemma_huge_entry(a: int)
    requires
        0 <= a < 0x1_0000_0000,
        a % 0x20_0000 == 0,
    ensures
        entry_present((a + 0x83) as u64),
        entry_writable((a + 0x83) as u64),
        entry_huge((a + 0x83) as u64),
        entry_huge_addr((a + 0x83) as u64) == a,
{
    let e = a + 0x83;
    lemma_fundamental_div_mod(a, 0x20_0000);
    let q = a / 0x20_0000;
    lemma_fundamental_div_mod_converse(e, 0x20_0000, q, 0x83);
    lemma_fundamental_div_mod_converse(e, 2, 0x10_0000 * q + 65, 1);
    lemma_fundamental_div_mod_converse(0x10_0000 * q + 65, 2, 0x8_0000 * q + 32, 1);
    lemma_fundamental_div_mod_converse(e, 128, 16384 * q + 1, 3);
    lemma_fundamental_div_mod_converse(16384 * q + 1, 2, 8192 * q, 1);
}

impl PageTableConfig {
    /// An arena index splits into its table page and entry numbers.
    proof fn lemma_entry_split(self, t: int, e: int)
        requires
            0 <= t,
            0 <= e < 512,
        ensures
            self.entry_at(t * 512 + e) == self.table_entry(t, e),
    {
        lemma_fundamental_div_mod_converse(t * 512 + e, 512, t, e);
    }

    /// The slot each level selects for the `p`th page of the kernel span,
    /// derived from the plan's slots of the kernel's virtual base.
    proof fn lemma_kernel_va_slots(self, p: int, va: u64)
        requires
            self.plan.wf(),
            0 <= p < self.plan.kernel_4k_pages,
            va as int == self.plan.kernel_virt_base + p * 4096,
        ensures
            va as int % 4096 == 0,
            slot(va, PML4_SPAN) == self.plan.kernel_pml4_index,
            slot(va, PDPT_SPAN) == self.plan.kernel_pdpt_index,
            slot(va, PD_SPAN) == self.plan.kernel_pd_index + (self.plan.kernel_pt_start + p)
                / 512,
            slot(va, PT_SPAN) == (self.plan.kernel_pt_start + p) % 512,
            0 <= (self.plan.kernel_pt_start + p) / 512 < self.plan.pt_count,
            self.plan.kernel_pd_index + (self.plan.kernel_pt_start + p) / 512 < 512,
    {
        let b = self.plan.kernel_virt_base as int;
        let vai = va as int;
        let pts = self.plan.kernel_pt_start as int;
        let pdi = self.plan.kernel_pd_index as int;
        let pages = self.plan.kernel_4k_pages as int;
        let v0 = b / 4096;
        lemma_fundamental_div_mod(b, 4096);
        assert(b == 4096 * v0);
        // page number of va
        let w = v0 + p;
        lemma_fundamental_div_mod_converse(vai, 4096, w, 0);
        assert(vai / 4096 == w && vai % 4096 == 0);
        // the plan's slots, restated over v0
        lemma_div_denominator(b, 4096, 512);
        assert(b / 0x20_0000 == v0 / 512);
        let u = v0 / 512;
        lemma_div_denominator(b, 0x20_0000, 512);
        assert(b / 0x4000_0000 == u / 512);
        lemma_div_denominator(b, 0x4000_0000, 512);
        assert(b / 0x80_0000_0000 == (u / 512) / 512);
        assert(v0 % 512 == pts);
        assert(u % 512 == pdi);
        // split pts + p at the table boundary
        let t = (pts + p) / 512;
        let r = (pts + p) % 512;
        lemma_fundamental_div_mod(pts + p, 512);
        lemma_mod_pos_bound(pts + p, 512);
        // t stays below the planned leaf-table count
        assert(t < self.plan.pt_count as int) by {
            lemma_div_is_ordered(pts + p, pts + pages - 1, 512);
            lemma_div_plus_one(pts + pages - 1, 512);
            assert(1 + (pts + pages - 1) / 512 == (pts + pages + 511) / 512);
        }
        // the kernel PD slots stay inside one PD
        assert(pdi + self.plan.pt_count as int <= 512) by {
            lemma_div_is_ordered(pts + pages + 511, 512 * (512 - pdi) + 511, 512);
            lemma_fundamental_div_mod_converse(512 * (512 - pdi) + 511, 512, 512 - pdi, 511);
        }
        // walk va's page number down the levels
        lemma_fundamental_div_mod(v0, 512);
        assert(v0 == 512 * u + pts);
        lemma_fundamental_div_mod_converse(w, 512, u + t, r);
        assert(w / 512 == u + t && w % 512 == r);
        lemma_fundamental_div_mod(u, 512);
        lemma_fundamental_div_mod_converse(u + t, 512, u / 512, pdi + t);
        assert((u + t) / 512 == u / 512 && (u + t) % 512 == pdi + t);
        lemma_div_denominator(vai, 4096, 512);
        assert(vai / 0x20_0000 == u + t);
        lemma_div_denominator(vai, 0x20_0000, 512);
        assert(vai / 0x4000_0000 == u / 512);
        lemma_div_denominator(vai, 0x4000_0000, 512);
        assert(vai / 0x80_0000_0000 == (u / 512) / 512);
    }

    /// Every page of the kernel span resolves through the filled tables to
    /// its place in the kernel's physical block, present and writable.
    #[verifier::spinoff_prover]
    #[verifier::rlimit(100)]
    pub proof fn lemma_kernel_mapping(self, arena: Seq<u64>, p: int, va: u64)
        requires
            self.wf(),
            self.matches(arena),
            0 <= p < self.plan.kernel_4k_pages,
            va as int == self.plan.kernel_virt_base + p * 4096,
        ensures
            self.spec_translate(arena, va) == Some(
                (
                    (self.plan.kernel_phys + p * 4096) as u64,
                    (self.plan.kernel_phys + p * 4096 + 3) as u64,
                ),
            ),
            entry_present((self.plan.kernel_phys + p * 4096 + 3) as u64),
            entry_writable((self.plan.kernel_phys + p * 4096 + 3) as u64),
    {
        let plan = self.plan;
        let pts = plan.kernel_pt_start as int;
        let pdi = plan.kernel_pd_index as int;
        let t = (pts + p) / 512;
        let r = (pts + p) % 512;
        self.lemma_kernel_va_slots(p, va);
        assert(plan.pt_count >= 1);
        // level 4: the PML4 slot points at the kernel PDPT
        let i4 = slot(va, PML4_SPAN);
        assert(arena[i4] == self.entry_at(i4));
        self.lemma_entry_split(0, i4);
        assert(arena[i4] == (self.pdpt_kernel + 3) as u64);
        lemma_ptr_entry(self.pdpt_kernel as int);
        // level 3: the PDPT slot points at the kernel PD
        let i3 = slot(va, PDPT_SPAN);
        assert((self.pdpt_kernel - self.pml4) / 4096 == 2) by {
            lemma_fundamental_div_mod_converse(2int * 4096, 4096, 2, 0);
        }
        assert(arena[2 * 512 + i3] == self.entry_at(2 * 512 + i3));
        self.lemma_entry_split(2, i3);
        assert(arena[2 * 512 + i3] == (self.pd_kernel + 3) as u64);
        lemma_ptr_entry(self.pd_kernel as int);
        // level 2: the PD slot points at leaf table `t`
        let i2 = slot(va, PD_SPAN);
        assert((self.pd_kernel - self.pml4) / 4096 == 8) by {
            lemma_fundamental_div_mod_converse(8int * 4096, 4096, 8, 0);
        }
        assert(arena[8 * 512 + i2] == self.entry_at(8 * 512 + i2));
        self.lemma_entry_split(8, i2);
        assert(i2 == pdi + t);
        assert(arena[8 * 512 + i2] == (self.pt_base + t * 4096 + 3) as u64);
        lemma_ptr_entry(self.pt_base as int + t * 4096);
        // level 1: the PT slot holds the page's physical address
        let i1 = slot(va, PT_SPAN);
        assert((self.pt_base + t * 4096 - self.pml4) / 4096 == 13 + t) by {
            lemma_fundamental_div_mod_converse((13 + t) * 4096, 4096, 13 + t, 0);
        }
        assert((13 + t) * 512 + i1 < arena.len());
        assert(arena[(13 + t) * 512 + i1] == self.entry_at((13 + t) * 512 + i1));
        self.lemma_entry_split(13 + t, i1);
        assert(t * 512 + i1 - pts == p);
        assert(arena[(13 + t) * 512 + i1] == (plan.kernel_phys + p * 4096 + 3) as u64);
        lemma_ptr_entry(plan.kernel_phys as int + p * 4096);
    }

    /// Every physical address below 4 GiB is identity-mapped by the filled
    /// tables through a writable 2 MiB huge page.
    #[verifier::spinoff_prover]
    #[verifier::rlimit(100)]
pub proof fn lemma_identity_mapping(self, arena: Seq<u64>, pa: u64)
        requires
            self.wf(),
            self.matches(arena),
            pa < 0x1_0000_0000,
        ensures
            self.spec_translate(arena, pa) == Some(
                (pa, ((pa as int / 0x20_0000 * 0x20_0000) + 0x83) as u64),
            ),
            entry_writable(((pa as int / 0x20_0000 * 0x20_0000) + 0x83) as u64),
    {
        let pai = pa as int;
        let g = pai / 0x4000_0000;
        let d = pai / 0x20_0000;
        let m = d % 512;
        // level 4 selects slot 0
        lemma_fundamental_div_mod_converse(pai, 0x80_0000_0000, 0, pai);
        assert(arena[0] == self.entry_at(0));
        self.lemma_entry_split(0, 0);
        lemma_ptr_entry(self.pdpt_low as int);
        // level 3 selects slot g of the identity PDPT
        lemma_fundamental_div_mod_converse(g, 512, 0, g);
        assert(arena[512 + g] == self.entry_at(512 + g));
        self.lemma_entry_split(1, g);
        lemma_ptr_entry(self.pd_low_base as int + g * 4096);
        assert((self.pd_low_base + g * 4096 - self.pml4) / 4096 == 4 + g) by {
            lemma_fundamental_div_mod_converse((4 + g) * 4096, 4096, 4 + g, 0);
        }
        // level 2 selects slot m of identity PD g, a huge page
        lemma_div_denominator(pai, 0x20_0000, 512);
        lemma_fundamental_div_mod(d, 512);
        assert(d == 512 * g + m);
        assert((4 + g) * 512 + m < arena.len());
        assert(arena[(4 + g) * 512 + m] == self.entry_at((4 + g) * 512 + m));
        self.lemma_entry_split(4 + g, m);
        assert(arena[(4 + g) * 512 + m] == ((g * 512 + m) * 0x20_0000 + 0x83) as u64);
        lemma_mod_multiples_basic(g * 512 + m, 0x20_0000);
        lemma_huge_entry((g * 512 + m) * 0x20_0000);
        // the huge page's base plus the in-page offset is the address itself
        lemma_fundamental_div_mod(pai, 0x20_0000);
    }

    /// Every physical address below 4 GiB is reachable at the fixed direct-map
    /// offset through a writable 2 MiB huge page of the filled tables.
    #[verifier::spinoff_prover]
    #[verifier::rlimit(100)]
    pub proof fn lemma_direct_mapping(self, arena: Seq<u64>, pa: u64, va: u64)
        requires
            self.wf(),
            self.matches(arena),
            pa < 0x1_0000_0000,
            va as int == PHYSICAL_MEMORY_OFFSET + pa,
        ensures
            self.spec_translate(arena, va) == Some(
                (pa, ((pa as int / 0x20_0000 * 0x20_0000) + 0x83) as u64),
            ),
            entry_writable(((pa as int / 0x20_0000 * 0x20_0000) + 0x83) as u64),
    {
        let vai = va as int;
        let pai = pa as int;
        let g = pai / 0x4000_0000;
        let s = pai % 0x4000_0000;
        let d = pai / 0x20_0000;
        let m = d % 512;
        let s2 = pai % 0x20_0000;
        lemma_fundamental_div_mod(pai, 0x4000_0000);
        lemma_fundamental_div_mod(pai, 0x20_0000);
        lemma_div_denominator(pai, 0x20_0000, 512);
        lemma_fundamental_div_mod(d, 512);
        // level 4 selects slot 256
        lemma_fundamental_div_mod_converse(vai, 0x80_0000_0000, 0x1FF_FF00, pai);
        lemma_fundamental_div_mod_converse(0x1FF_FF00, 512, 65535, 256);
        assert(arena[256] == self.entry_at(256));
        self.lemma_entry_split(0, 256);
        assert(arena[256] == (self.pdpt_phys_map + 3) as u64);
        lemma_ptr_entry(self.pdpt_phys_map as int);
        // level 3 selects slot g of the direct-map PDPT
        lemma_fundamental_div_mod_converse(vai, 0x4000_0000, 0x3_FFFE_0000 + g, s);
        lemma_fundamental_div_mod_converse(0x3_FFFE_0000 + g, 512, 0x1FF_FF00, g);
        assert(arena[3 * 512 + g] == self.entry_at(3 * 512 + g));
        self.lemma_entry_split(3, g);
        lemma_ptr_entry(self.pd_phys_map_base as int + g * 4096);
        assert((self.pd_phys_map_base + g * 4096 - self.pml4) / 4096 == 9 + g) by {
            lemma_fundamental_div_mod_converse((9 + g) * 4096, 4096, 9 + g, 0);
        }
        // level 2 selects slot m of direct-map PD g, a huge page
        lemma_fundamental_div_mod_converse(vai, 0x20_0000, 0x7FF_FC00_0000 + d, s2);
        lemma_fundamental_div_mod_converse(0x7FF_FC00_0000 + d, 512, 0x3_FFFE_0000 + g, m);
        assert((9 + g) * 512 + m < arena.len());
        assert(arena[(9 + g) * 512 + m] == self.entry_at((9 + g) * 512 + m));
        self.lemma_entry_split(9 + g, m);
        assert(arena[(9 + g) * 512 + m] == ((g * 512 + m) * 0x20_0000 + 0x83) as u64);
        lemma_mod_multiples_basic(g * 512 + m, 0x20_0000);
        lemma_huge_entry((g * 512 + m) * 0x20_0000);
    }

    /// Walk the filled tables for `va` exactly as the MMU would, returning
    /// the physical address and the leaf entry that maps it.
    #[verifier::spinoff_prover]
    #[verifier::rlimit(100)]
    pub fn translate(&self, arena: &Vec<u64>, va: u64) -> (r: Option<(u64, u64)>)
        requires
            self.wf(),
            self.matches(arena@),
        ensures
            r == self.spec_translate(arena@, va),
    {
        let ghost plan = self.plan;
        // level 4
        let i4: usize = ((va / PML4_SPAN) % 512) as usize;
        proof {
            self.lemma_entry_split(0, i4 as int);
        }
        let e4 = arena[i4];
        if e4 % 2 == 0 {
            return None;
        }
        proof {
            if i4 as int == 0 {
                lemma_ptr_entry(self.pdpt_low as int);
            } else if i4 as int == plan.kernel_pml4_index {
                lemma_ptr_entry(self.pdpt_kernel as int);
            } else if i4 as int == PHYS_MAP_PML4_INDEX as int {
                lemma_ptr_entry(self.pdpt_phys_map as int);
            }
        }
        let tab3 = e4 / 4096 * 4096;
        let t3: usize = ((tab3 - self.pml4) / 4096) as usize;
        assert(1 <= t3 <= 3);
        // level 3
        let i3: usize = ((va / PDPT_SPAN) % 512) as usize;
        proof {
            self.lemma_entry_split(t3 as int, i3 as int);
        }
        let e3 = arena[t3 * 512 + i3];
        if e3 % 2 == 0 {
            return None;
        }
        proof {
            if t3 as int == 1 {
                lemma_ptr_entry(self.pd_low_base as int + i3 * 4096);
                lemma_fundamental_div_mod_converse((4 + i3 as int) * 4096, 4096, 4 + i3 as int, 0);
            } else if t3 as int == 2 {
                lemma_ptr_entry(self.pd_kernel as int);
                lemma_fundamental_div_mod_converse(8int * 4096, 4096, 8, 0);
            } else {
                lemma_ptr_entry(self.pd_phys_map_base as int + i3 * 4096);
                lemma_fundamental_div_mod_converse((9 + i3 as int) * 4096, 4096, 9 + i3 as int, 0);
            }
        }
        let tab2 = e3 / 4096 * 4096;
        let t2: usize = ((tab2 - self.pml4) / 4096) as usize;
        assert(4 <= t2 <= 12);
        // level 2
        let i2: usize = ((va / PD_SPAN) % 512) as usize;
        proof {
            self.lemma_entry_split(t2 as int, i2 as int);
        }
        let e2 = arena[t2 * 512 + i2];
        if e2 % 2 == 0 {
            return None;
        }
        proof {
            if t2 as int != 8 {
                let g = if (t2 as int) < 8 {
                    t2 as int - 4
                } else {
                    t2 as int - 9
                };
                lemma_mod_multiples_basic(g * 512 + i2 as int, 0x20_0000);
                lemma_huge_entry((g * 512 + i2 as int) * 0x20_0000);
            } else {
                let tk = i2 as int - plan.kernel_pd_index;
                if plan.kernel_pd_index as int <= i2 as int && (i2 as int) < plan.kernel_pd_index
                    as int + plan.pt_count as int {
                    lemma_ptr_entry(self.pt_base as int + tk * 4096);
                    lemma_fundamental_div_mod_converse((13 + tk) * 4096, 4096, 13 + tk, 0);
                }
            }
        }
        if (e2 / 128) % 2 == 1 {
            let phys = e2 / 0x20_0000 * 0x20_0000 + va % 0x20_0000;
            return Some((phys, e2));
        }
        let tab1 = e2 / 4096 * 4096;
        let t1: usize = ((tab1 - self.pml4) / 4096) as usize;
        assert(13 <= t1 < plan.spec_total_pages());
        // level 1
        let i1: usize = ((va / PT_SPAN) % 512) as usize;
        proof {
            self.lemma_entry_split(t1 as int, i1 as int);
            assert(t1 as int * 512 + i1 < arena@.len());
        }
        let e1 = arena[t1 * 512 + i1];
        if e1 % 2 == 0 {
            return None;
        }
        proof {
            let pk = (t1 as int - 13) * 512 + i1 as int - plan.kernel_pt_start;
            if 0 <= pk < plan.kernel_4k_pages as int {
                lemma_ptr_entry(plan.kernel_phys as int + pk * 4096);
            }
        }
        let phys = e1 / 4096 * 4096 + va % 4096;
        Some((phys, e1))
    }
}

} // verus!
