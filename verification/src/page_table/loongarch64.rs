use vstd::prelude::*;

use vstd::arithmetic::div_mod::*;

use crate::page_table::PageTableError;
use crate::page_table::pages_for;
use crate::page_table::slot;

verus! {

/// Whether a leaf PTE has its valid bit set.
pub open spec fn pte_valid(e: u64) -> bool {
    e % 2 == 1
}

/// Whether a leaf PTE has its dirty bit set, which permits writes.
pub open spec fn pte_dirty(e: u64) -> bool {
    (e / 2) % 2 == 1
}

/// Physical address field of a leaf PTE.
pub open spec fn pte_addr(e: u64) -> int {
    (e as int / 4096) * 4096
}

/// DMW0 register value: uncached identity window, virtual segment 0x8,
/// kernel privilege level enabled.
pub const DMW0_VALUE: u64 = 0x8000_0000_0000_0001;

/// DMW1 register value: coherent-cached identity window, virtual segment
/// 0x9, kernel privilege level enabled.
pub const DMW1_VALUE: u64 = 0x9000_0000_0000_0011;

/// Virtual address where physical memory is linearly mapped (via DMW1).
pub const PHYSICAL_MEMORY_OFFSET: u64 = 0x9000_0000_0000_0000;

/// CSR.PWCL value for the lower page-walk levels: PT base 12 width 9,
/// Dir1 base 21 width 9.
pub const PWCL_VALUE: u64 = 12 + 9 * 32 + 21 * 1024 + 9 * 32768;

/// CSR.PWCH value for the upper page-walk levels: Dir2 base 30 width 9,
/// Dir3 base 39 width 9.
pub const PWCH_VALUE: u64 = 30 + 9 * 32 + 39 * 1024 + 9 * 32768;

/// Bytes spanned by one entry of each level: PGD, PUD, PMD, PTE.
pub const PGD_SPAN: u64 = 0x80_0000_0000;
/// Bytes spanned by one PUD entry (1 GiB).
pub const PUD_SPAN: u64 = 0x4000_0000;
/// Bytes spanned by one PMD entry (2 MiB).
pub const PMD_SPAN: u64 = 0x20_0000;
/// Bytes spanned by one PTE (4 KiB).
pub const PTE_SPAN: u64 = 0x1000;

/// Combined leaf-PTE flags for kernel read-write cached memory:
/// valid, dirty, coherent-cached, global.
pub const LEAF_ATTRS: u64 = 0x53;

/// Highest physical address bound kept by every plan.
pub const MAX_PHYS: u64 = 0x10_0000_0000_0000;

/// Table geometry for the four-level builder: leaf-table count and the slot
/// each level selects for the kernel's virtual base.  Identity and direct
/// mappings need no tables here; the direct-map windows handle them.
#[derive(Clone, Copy, Debug, PartialEq, Eq, Structural)]
pub struct TablePlan {
    /// Physical base of the loaded kernel block.
    pub kernel_phys: u64,
    /// Lowest virtual address of the kernel span.
    pub kernel_virt_base: u64,
    /// Number of 4 KiB pages covering the kernel span.
    pub kernel_4k_pages: usize,
    /// Number of leaf (PTE) table pages needed.
    pub pte_count: usize,
    /// PGD slot of the kernel mapping.
    pub kernel_pgd_index: usize,
    /// PUD slot of the kernel mapping.
    pub kernel_pud_index: usize,
    /// First PMD slot of the kernel mapping.
    pub kernel_pmd_index: usize,
    /// First PTE slot of the kernel mapping.
    pub kernel_pte_start: usize,
}

impl TablePlan {
    /// A plan is well formed when its slots are those selected by the
    /// kernel's virtual base, the span fits one PMD's reach, and all
    /// addresses stay below `MAX_PHYS`.
    pub open spec fn wf(self) -> bool {
        &&& self.kernel_phys % 4096 == 0
        &&& self.kernel_phys + 0x4000_0000 <= MAX_PHYS
        &&& self.kernel_virt_base % 4096 == 0
        &&& 1 <= self.kernel_4k_pages
        &&& self.kernel_pgd_index as int == slot(self.kernel_virt_base, PGD_SPAN)
        &&& self.kernel_pud_index as int == slot(self.kernel_virt_base, PUD_SPAN)
        &&& self.kernel_pmd_index as int == slot(self.kernel_virt_base, PMD_SPAN)
        &&& self.kernel_pte_start as int == slot(self.kernel_virt_base, PTE_SPAN)
        &&& self.kernel_pmd_index * 512 + self.kernel_pte_start + self.kernel_4k_pages <= 512
            * 512
        &&& self.pte_count as int == (self.kernel_pte_start + self.kernel_4k_pages + 511) / 512
        &&& self.kernel_4k_pages * 4096 <= 0x4000_0000
    }

    /// Total table pages the builder will fill: the PGD, one PUD, one PMD,
    /// and the leaf tables.
    pub open spec fn spec_total_pages(self) -> int {
        3 + self.pte_count as int
    }

    /// Number of pages of table storage to reserve before firmware shutdown.
    pub fn total_pages(&self) -> (r: usize)
        requires
            self.wf(),
        ensures
            r as int == self.spec_total_pages(),
    {
        3 + self.pte_count
    }
}

/// The outcome of planning, fixed by the three inputs alone.
pub open spec fn spec_plan(kernel_phys: u64, kernel_size: u64, kernel_virt_base: u64) -> Result<
    TablePlan,
    PageTableError,
> {
    if kernel_size == 0 {
        Err(PageTableError::EmptyImage)
    } else if kernel_phys % 4096 != 0 {
        Err(PageTableError::MisalignedPhysicalBase)
    } else if kernel_virt_base % 4096 != 0 {
        Err(PageTableError::MisalignedVirtualBase)
    } else if kernel_phys + 0x4000_0000 > MAX_PHYS {
        Err(PageTableError::PhysicalBaseTooHigh)
    } else if kernel_size > 0x4000_0000 {
        Err(PageTableError::SpanTooLarge)
    } else if slot(kernel_virt_base, PMD_SPAN) * 512 + slot(kernel_virt_base, PTE_SPAN)
        + pages_for(kernel_size, 4096) > 512 * 512 {
        Err(PageTableError::SpanTooLarge)
    } else {
        Ok(
            TablePlan {
                kernel_phys,
                kernel_virt_base,
                kernel_4k_pages: pages_for(kernel_size, 4096) as usize,
                pte_count: ((slot(kernel_virt_base, PTE_SPAN) + pages_for(kernel_size, 4096)
                    + 511) / 512) as usize,
                kernel_pgd_index: slot(kernel_virt_base, PGD_SPAN) as usize,
                kernel_pud_index: slot(kernel_virt_base, PUD_SPAN) as usize,
                kernel_pmd_index: slot(kernel_virt_base, PMD_SPAN) as usize,
                kernel_pte_start: slot(kernel_virt_base, PTE_SPAN) as usize,
            },
        )
    }
}

/// Compute the four-level table geometry for a kernel block of
/// `kernel_size` bytes at physical `kernel_phys`, mapped at
/// `kernel_virt_base`.
pub fn plan_page_tables(kernel_phys: u64, kernel_size: u64, kernel_virt_base: u64) -> (r: Result<
    TablePlan,
    PageTableError,
>)
    ensures
        r == spec_plan(kernel_phys, kernel_size, kernel_virt_base),
        r matches Ok(p) ==> p.wf(),
{
    if kernel_size == 0 {
        return Err(PageTableError::EmptyImage);
    }
    if kernel_phys % 4096 != 0 {
        return Err(PageTableError::MisalignedPhysicalBase);
    }
    if kernel_virt_base % 4096 != 0 {
        return Err(PageTableError::MisalignedVirtualBase);
    }
    if kernel_phys > MAX_PHYS - 0x4000_0000 {
        return Err(PageTableError::PhysicalBaseTooHigh);
    }
    if kernel_size > 0x4000_0000 {
        return Err(PageTableError::SpanTooLarge);
    }
    let pgd_index: usize = ((kernel_virt_base / PGD_SPAN) % 512) as usize;
    let pud_index: usize = ((kernel_virt_base / PUD_SPAN) % 512) as usize;
    let pmd_index: usize = ((kernel_virt_base / PMD_SPAN) % 512) as usize;
    let pte_start: usize = ((kernel_virt_base / PTE_SPAN) % 512) as usize;
    let pages: usize = ((kernel_size + 4095) / 4096) as usize;
    if pmd_index * 512 + pte_start + pages > 512 * 512 {
        return Err(PageTableError::SpanTooLarge);
    }
    Ok(
        TablePlan {
            kernel_phys,
            kernel_virt_base,
            kernel_4k_pages: pages,
            pte_count: (pte_start + pages + 511) / 512,
            kernel_pgd_index: pgd_index,
            kernel_pud_index: pud_index,
            kernel_pmd_index: pmd_index,
            kernel_pte_start: pte_start,
        },
    )
}

/// Physical addresses of the allocated table pages and the direct-map
/// window configuration, for filling in after firmware shutdown.
pub struct PageTableConfig {
    /// Physical address of the Page Global Directory.
    pub pgd: u64,
    /// Physical address of the kernel's PUD table.
    pub pud_kernel: u64,
    /// Physical address of the kernel's PMD table.
    pub pmd_kernel: u64,
    /// Physical address of the first leaf table.
    pub pte_base: u64,
    /// The geometry this configuration was planned from.
    pub plan: TablePlan,
}

impl PageTableConfig {
    /// Well formed: the plan is, and the table pages sit consecutively,
    /// page-aligned, in one block below `MAX_PHYS`.
    pub open spec fn wf(self) -> bool {
        &&& self.plan.wf()
        &&& self.pgd % 4096 == 0
        &&& self.pgd >= 4096
        &&& self.pud_kernel == self.pgd + 4096
        &&& self.pmd_kernel == self.pgd + 2 * 4096
        &&& self.pte_base == self.pgd + 3 * 4096
        &&& self.pgd + self.plan.spec_total_pages() * 4096 <= MAX_PHYS
    }

    /// Lay the planned tables out in the reserved block at `table_base`.
    /// The block must not start at physical zero: a directory entry here is
    /// the bare address of the next table, and zero means absent.
    pub fn from_plan(plan: &TablePlan, table_base: u64) -> (r: PageTableConfig)
        requires
            plan.wf(),
            table_base % 4096 == 0,
            table_base >= 4096,
            table_base + plan.spec_total_pages() * 4096 <= MAX_PHYS,
        ensures
            r.wf(),
            r.plan == *plan,
            r.pgd == table_base,
    {
        PageTableConfig {
            pgd: table_base,
            pud_kernel: table_base + 4096,
            pmd_kernel: table_base + 2 * 4096,
            pte_base: table_base + 3 * 4096,
            plan: *plan,
        }
    }

    /// Physical address of the Page Global Directory, for CSR.PGDL.
    pub fn pgd(&self) -> (r: u64)
        ensures
            r == self.pgd,
    {
        self.pgd
    }

    /// DMW0 register value (uncached mapping, virtual segment 0x8).
    pub fn dmw0(&self) -> (r: u64)
        ensures
            r == DMW0_VALUE,
    {
        DMW0_VALUE
    }

    /// DMW1 register value (cached mapping, virtual segment 0x9).
    pub fn dmw1(&self) -> (r: u64)
        ensures
            r == DMW1_VALUE,
    {
        DMW1_VALUE
    }

    /// The value of entry `e` of table page `t` in the filled table block.
    /// Directory entries are the bare physical address of the next table;
    /// only leaf entries carry flag bits.
    pub open spec fn table_entry(self, t: int, e: int) -> u64
        recommends
            0 <= t < self.plan.spec_total_pages(),
            0 <= e < 512,
    {
        if t == 0 {
            if e == self.plan.kernel_pgd_index as int {
                self.pud_kernel
            } else {
                0
            }
        } else if t == 1 {
            if e == self.plan.kernel_pud_index as int {
                self.pmd_kernel
            } else {
                0
            }
        } else if t == 2 {
            if self.plan.kernel_pmd_index as int <= e < self.plan.kernel_pmd_index as int
                + self.plan.pte_count as int {
                (self.pte_base + (e - self.plan.kernel_pmd_index as int) * 4096) as u64
            } else {
                0
            }
        } else {
            let p = (t - 3) * 512 + e - self.plan.kernel_pte_start as int;
            if 0 <= p < self.plan.kernel_4k_pages as int {
                (self.plan.kernel_phys + p * 4096 + 0x53) as u64
            } else {
                0
            }
        }
    }

    /// The value of the `i`th eight-byte entry of the filled table block.
    pub open spec fn entry_at(self, i: int) -> u64 {
        self.table_entry(i / 512, i % 512)
    }

    /// Compute one entry of the planned tables.
    fn entry_value(&self, t: usize, e: usize) -> (r: u64)
        requires
            self.wf(),
            t < self.plan.spec_total_pages(),
            e < 512,
        ensures
            r == self.table_entry(t as int, e as int),
    {
        if t == 0 {
            if e == self.plan.kernel_pgd_index {
                self.pud_kernel
            } else {
                0
            }
        } else if t == 1 {
            if e == self.plan.kernel_pud_index {
                self.pmd_kernel
            } else {
                0
            }
        } else if t == 2 {
            if self.plan.kernel_pmd_index <= e && e < self.plan.kernel_pmd_index
                + self.plan.pte_count {
                self.pte_base + ((e - self.plan.kernel_pmd_index) as u64) * 4096
            } else {
                0
            }
        } else {
            let idx = (t - 3) * 512 + e;
            if idx >= self.plan.kernel_pte_start {
                let p = idx - self.plan.kernel_pte_start;
                if p < self.plan.kernel_4k_pages {
                    self.plan.kernel_phys + (p as u64) * 4096 + 0x53
                } else {
                    0
                }
            } else {
                0
            }
        }
    }

    /// Fill in every entry of the table block.  Returns the block's
    /// eight-byte entries in order, and the PGD's physical address for
    /// CSR.PGDL.  Only the kernel mapping needs table entries; identity and
    /// direct mappings go through the direct-map windows.
    pub fn init_page_tables(&self) -> (r: (Vec<u64>, u64))
        requires
            self.wf(),
        ensures
            r.0@.len() == self.plan.spec_total_pages() * 512,
            forall|i: int| 0 <= i < r.0@.len() ==> #[trigger] r.0@[i] == self.entry_at(i),
            r.1 == self.pgd,
    {
        let total_entries: usize = (3 + self.plan.pte_count) * 512;
        let mut arena: Vec<u64> = Vec::new();
        let mut i: usize = 0;
        while i < total_entries
            invariant
                self.wf(),
                total_entries == self.plan.spec_total_pages() * 512,
                i <= total_entries,
                arena@.len() == i,
                forall|j: int| 0 <= j < i ==> #[trigger] arena@[j] == self.entry_at(j),
            decreases total_entries - i,
        {
            let t = i / 512;
            let e = i % 512;
            let v = self.entry_value(t, e);
            arena.push(v);
            i = i + 1;
        }
        (arena, self.pgd)
    }

    /// The filled table block: `arena` holds exactly the planned entries.
    pub open spec fn matches(self, arena: Seq<u64>) -> bool {
        &&& arena.len() == self.plan.spec_total_pages() * 512
        &&& forall|i: int| 0 <= i < arena.len() ==> #[trigger] arena[i] == self.entry_at(i)
    }

    /// The entry of the table page at physical address `table` selected by
    /// index `idx`, read out of the block's entries.
    pub open spec fn read_entry(self, arena: Seq<u64>, table: int, idx: int) -> u64 {
        arena[(table - self.pgd) / 4096 * 512 + idx]
    }

    /// The MMU walk over the filled block: a directory entry is absent when
    /// zero, and the leaf PTE's valid bit decides the final step.
    pub open spec fn spec_translate(self, arena: Seq<u64>, va: u64) -> Option<(u64, u64)> {
        let e3 = self.read_entry(arena, self.pgd as int, slot(va, PGD_SPAN));
        if e3 == 0 {
            None
        } else {
            let e2 = self.read_entry(arena, e3 as int, slot(va, PUD_SPAN));
            if e2 == 0 {
                None
            } else {
                let e1 = self.read_entry(arena, e2 as int, slot(va, PMD_SPAN));
                if e1 == 0 {
                    None
                } else {
                    let e0 = self.read_entry(arena, e1 as int, slot(va, PTE_SPAN));
                    if !pte_valid(e0) {
                        None
                    } else {
                        Some(((pte_addr(e0) + va as int % 4096) as u64, e0))
                    }
                }
            }
        }
    }
}

/// Flag and address facts about a leaf PTE built from a page-aligned
/// physical address plus `LEAF_ATTRS`.
proof fn lemma_leaf_pte(a: int)
    requires
        0 <= a <= 0x10_0000_0000_0000,
        a % 4096 == 0,
    ensures
        pte_valid((a + 0x53) as u64),
        pte_dirty((a + 0x53) as u64),
        pte_addr((a + 0x53) as u64) == a,
{
    let e = a + 0x53;
    lemma_fundamental_div_mod(a, 4096);
    let q = a / 4096;
    lemma_fundamental_div_mod_converse(e, 4096, q, 0x53);
    lemma_fundamental_div_mod_converse(e, 2, 2048 * q + 41, 1);
    lemma_fundamental_div_mod_converse(2048 * q + 41, 2, 1024 * q + 20, 1);
}

impl PageTableConfig {
    /// An arena index splits into its table page and entry numbers.
    proof fn lemma_entry_split(self, t: int, e: int)
        requires
            0 <= t,
            0 <= e < 512,
        ensures
            self.entry_at(t * 512 + e) == self.table_entry(t, e),
    {
        lemma_fundamental_div_mod_converse(t * 512 + e, 512, t, e);
    }

    /// The slot each level selects for the `p`th page of the kernel span.
    proof fn lemma_kernel_va_slots(self, p: int, va: u64)
        requires
            self.plan.wf(),
            0 <= p < self.plan.kernel_4k_pages,
            va as int == self.plan.kernel_virt_base + p * 4096,
        ensures
            va as int % 4096 == 0,
            slot(va, PGD_SPAN) == self.plan.kernel_pgd_index,
            slot(va, PUD_SPAN) == self.plan.kernel_pud_index,
            slot(va, PMD_SPAN) == self.plan.kernel_pmd_index + (self.plan.kernel_pte_start + p)
                / 512,
            slot(va, PTE_SPAN) == (self.plan.kernel_pte_start + p) % 512,
            0 <= (self.plan.kernel_pte_start + p) / 512 < self.plan.pte_count,
            self.plan.kernel_pmd_index + (self.plan.kernel_pte_start + p) / 512 < 512,
    {
        let b = self.plan.kernel_virt_base as int;
        let vai = va as int;
        let pts = self.plan.kernel_pte_start as int;
        let pmdi = self.plan.kernel_pmd_index as int;
        let pages = self.plan.kernel_4k_pages as int;
        let v0 = b / 4096;
        lemma_fundamental_div_mod(b, 4096);
        let w = v0 + p;
        lemma_fundamental_div_mod_converse(vai, 4096, w, 0);
        lemma_div_denominator(b, 4096, 512);
        let u = v0 / 512;
        lemma_div_denominator(b, 0x20_0000, 512);
        lemma_div_denominator(b, 0x4000_0000, 512);
        assert(v0 % 512 == pts);
        assert(u % 512 == pmdi);
        let t = (pts + p) / 512;
        let r = (pts + p) % 512;
        lemma_fundamental_div_mod(pts + p, 512);
        lemma_mod_pos_bound(pts + p, 512);
        assert(t < self.plan.pte_count as int) by {
            lemma_div_is_ordered(pts + p, pts + pages - 1, 512);
            lemma_div_plus_one(pts + pages - 1, 512);
            assert(1 + (pts + pages - 1) / 512 == (pts + pages + 511) / 512);
        }
        assert(pmdi + self.plan.pte_count as int <= 512) by {
            lemma_div_is_ordered(pts + pages + 511, 512 * (512 - pmdi) + 511, 512);
            lemma_fundamental_div_mod_converse(512 * (512 - pmdi) + 511, 512, 512 - pmdi, 511);
        }
        lemma_fundamental_div_mod(v0, 512);
        lemma_fundamental_div_mod_converse(w, 512, u + t, r);
        lemma_fundamental_div_mod(u, 512);
        lemma_fundamental_div_mod_converse(u + t, 512, u / 512, pmdi + t);
        lemma_div_denominator(vai, 4096, 512);
        lemma_div_denominator(vai, 0x20_0000, 512);
        lemma_div_denominator(vai, 0x4000_0000, 512);
    }

    /// Every page of the kernel span resolves through the filled tables to
    /// its place in the kernel's physical block, valid and dirty.
    #[verifier::spinoff_prover]
    #[verifier::rlimit(100)]
    pub proof fn lemma_kernel_mapping(self, arena: Seq<u64>, p: int, va: u64)
        requires
            self.wf(),
            self.matches(arena),
            0 <= p < self.plan.kernel_4k_pages,
            va as int == self.plan.kernel_virt_base + p * 4096,
        ensures
            self.spec_translate(arena, va) == Some(
                (
                    (self.plan.kernel_phys + p * 4096) as u64,
                    (self.plan.kernel_phys + p * 4096 + 0x53) as u64,
                ),
            ),
            pte_valid((self.plan.kernel_phys + p * 4096 + 0x53) as u64),
            pte_dirty((self.plan.kernel_phys + p * 4096 + 0x53) as u64),
    {
        let plan = self.plan;
        let pts = plan.kernel_pte_start as int;
        let t = (pts + p) / 512;
        let r = (pts + p) % 512;
        self.lemma_kernel_va_slots(p, va);
        assert(plan.pte_count >= 1);
        // PGD slot points at the PUD
        let i3 = slot(va, PGD_SPAN);
        assert(arena[i3] == self.entry_at(i3));
        self.lemma_entry_split(0, i3);
        assert(arena[i3] == self.pud_kernel);
        // PUD slot points at the PMD
        let i2 = slot(va, PUD_SPAN);
        assert((self.pud_kernel - self.pgd) / 4096 == 1);
        assert(arena[512 + i2] == self.entry_at(512 + i2));
        self.lemma_entry_split(1, i2);
        assert(arena[512 + i2] == self.pmd_kernel);
        // PMD slot points at leaf table `t`
        let i1 = slot(va, PMD_SPAN);
        assert((self.pmd_kernel - self.pgd) / 4096 == 2);
        assert(arena[2 * 512 + i1] == self.entry_at(2 * 512 + i1));
        self.lemma_entry_split(2, i1);
        assert(arena[2 * 512 + i1] == (self.pte_base + t * 4096) as u64);
        // PTE slot holds the page's physical address
        let i0 = slot(va, PTE_SPAN);
        assert((self.pte_base + t * 4096 - self.pgd) / 4096 == 3 + t) by {
            lemma_fundamental_div_mod_converse((3 + t) * 4096, 4096, 3 + t, 0);
        }
        assert((3 + t) * 512 + i0 < arena.len());
        assert(arena[(3 + t) * 512 + i0] == self.entry_at((3 + t) * 512 + i0));
        self.lemma_entry_split(3 + t, i0);
        assert(t * 512 + i0 - pts == p);
        assert(arena[(3 + t) * 512 + i0] == (plan.kernel_phys + p * 4096 + 0x53) as u64);
        lemma_leaf_pte(plan.kernel_phys as int + p * 4096);
    }

    /// The cached direct-map window translates the fixed virtual offset plus
    /// any physical address below the window's reach back to that address,
    /// with no table entry involved.
    pub proof fn lemma_direct_window(pa: u64, va: u64)
        requires
            pa < 0x1000_0000_0000_0000,
            va as int == PHYSICAL_MEMORY_OFFSET + pa,
        ensures
            va as int % 0x1000_0000_0000_0000 == pa,
            va as int / 0x1000_0000_0000_0000 == 9,
    {
        lemma_fundamental_div_mod_converse(va as int, 0x1000_0000_0000_0000, 9, pa as int);
    }

    /// Walk the filled tables for `va` exactly as the MMU would, returning
    /// the physical address and the leaf PTE that maps it.
    #[verifier::spinoff_prover]
    #[verifier::rlimit(100)]
    pub fn translate(&self, arena: &Vec<u64>, va: u64) -> (r: Option<(u64, u64)>)
        requires
            self.wf(),
            self.matches(arena@),
        ensures
            r == self.spec_translate(arena@, va),
    {
        let ghost plan = self.plan;
        // PGD level
        let i3: usize = ((va / PGD_SPAN) % 512) as usize;
        proof {
            self.lemma_entry_split(0, i3 as int);
        }
        let e3 = arena[i3];
        if e3 == 0 {
            return None;
        }
        let t2: usize = ((e3 - self.pgd) / 4096) as usize;
        assert(t2 == 1);
        // PUD level
        let i2: usize = ((va / PUD_SPAN) % 512) as usize;
        proof {
            self.lemma_entry_split(1, i2 as int);
        }
        let e2 = arena[t2 * 512 + i2];
        if e2 == 0 {
            return None;
        }
        let t1: usize = ((e2 - self.pgd) / 4096) as usize;
        assert(t1 == 2);
        // PMD level
        let i1: usize = ((va / PMD_SPAN) % 512) as usize;
        proof {
            self.lemma_entry_split(2, i1 as int);
            let tk = i1 as int - plan.kernel_pmd_index;
            if plan.kernel_pmd_index as int <= i1 as int && (i1 as int) < plan.kernel_pmd_index
                as int + plan.pte_count as int {
                lemma_fundamental_div_mod_converse((3 + tk) * 4096, 4096, 3 + tk, 0);
            }
        }
        let e1 = arena[t1 * 512 + i1];
        if e1 == 0 {
            return None;
        }
        let t0: usize = ((e1 - self.pgd) / 4096) as usize;
        assert(3 <= t0 < plan.spec_total_pages());
        // PTE level
        let i0: usize = ((va / PTE_SPAN) % 512) as usize;
        proof {
            self.lemma_entry_split(t0 as int, i0 as int);
            assert(t0 as int * 512 + i0 < arena@.len());
            let pk = (t0 as int - 3) * 512 + i0 as int - plan.kernel_pte_start;
            if 0 <= pk < plan.kernel_4k_pages as int {
                lemma_leaf_pte(plan.kernel_phys as int + pk * 4096);
            }
        }
        let e0 = arena[t0 * 512 + i0];
        if e0 % 2 == 0 {
            return None;
        }
        let phys = e0 / 4096 * 4096 + va % 4096;
        Some((phys, e0))
    }
}

} // verus!
