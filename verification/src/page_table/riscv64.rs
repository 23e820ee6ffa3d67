use vstd::prelude::*;

use vstd::arithmetic::div_mod::*;

use crate::page_table::PageTableError;
use crate::page_table::pages_for;
use crate::page_table::slot;

verus! {

/// Whether a PTE has its valid bit set.
pub open spec fn pte_valid(e: u64) -> bool {
    e % 2 == 1
}

/// Whether a PTE is a leaf: at least one of the read, write and execute
/// bits is set.
pub open spec fn pte_leaf(e: u64) -> bool {
    (e / 2) % 8 != 0
}

/// Whether a leaf PTE permits writes.
pub open spec fn pte_writable(e: u64) -> bool {
    (e / 4) % 2 == 1
}

/// Physical address encoded in a PTE's PPN field.
pub open spec fn pte_addr(e: u64) -> int {
    (e as int / 1024) * 4096
}

/// Root-table slot of the physical-memory direct mapping:
/// slot 384 selects the sign-extended virtual base 0xFFFF_FFE0_0000_0000.
pub const PHYS_MAP_ROOT_INDEX: usize = 384;

/// Virtual address offset where all physical memory is linearly mapped.
pub const PHYSICAL_MEMORY_OFFSET: u64 = 0xFFFF_FFE0_0000_0000;

/// SATP mode field value selecting the three-level Sv39 scheme.
pub const SATP_MODE_SV39: u64 = 8;

/// Bytes spanned by one entry of the root table (1 GiB).
pub const ROOT_SPAN: u64 = 0x4000_0000;
/// Bytes spanned by one mid-level entry (2 MiB).
pub const L1_SPAN: u64 = 0x20_0000;
/// Bytes spanned by one leaf entry (4 KiB).
pub const L0_SPAN: u64 = 0x1000;

/// Valid bit of a PTE.
pub const PTE_V: u64 = 1;
/// Combined flags of a kernel read-write-execute leaf with accessed and
/// dirty set: V, R, W, X, A, D.
pub const LEAF_RWX: u64 = 0xCF;

/// Highest physical address bound kept by every plan.
pub const MAX_PHYS: u64 = 0x10_0000_0000_0000;

/// Table geometry for the Sv39 builder: leaf-table count and the slot each
/// level selects for the kernel's virtual base.
#[derive(Clone, Copy, Debug, PartialEq, Eq, Structural)]
pub struct TablePlan {
    /// Physical base of the loaded kernel block.
    pub kernel_phys: u64,
    /// Lowest virtual address of the kernel span.
    pub kernel_virt_base: u64,
    /// Number of 4 KiB pages covering the kernel span.
    pub kernel_4k_pages: usize,
    /// Number of leaf (L0) table pages needed.
    pub l0_count: usize,
    /// Root-table slot of the kernel mapping.
    pub kernel_root_index: usize,
    /// Mid-level (L1) slot of the first kernel leaf table.
    pub kernel_l1_index: usize,
    /// First leaf-table slot of the kernel mapping.
    pub kernel_l0_start: usize,
}

impl TablePlan {
    /// A plan is well formed when its slots are those selected by the
    /// kernel's virtual base, the span fits one mid-level table's reach
    /// without touching the identity-map or direct-map root slots, and all
    /// addresses stay below `MAX_PHYS`.
    pub open spec fn wf(self) -> bool {
        &&& self.kernel_phys % 4096 == 0
        &&& self.kernel_phys + 0x4000_0000 <= MAX_PHYS
        &&& self.kernel_virt_base % 4096 == 0
        &&& 1 <= self.kernel_4k_pages
        &&& self.kernel_root_index as int == slot(self.kernel_virt_base, ROOT_SPAN)
        &&& self.kernel_l1_index as int == slot(self.kernel_virt_base, L1_SPAN)
        &&& self.kernel_l0_start as int == slot(self.kernel_virt_base, L0_SPAN)
        &&& self.kernel_root_index >= 4
        &&& !(PHYS_MAP_ROOT_INDEX <= self.kernel_root_index < PHYS_MAP_ROOT_INDEX + 4)
        &&& self.kernel_l1_index * 512 + self.kernel_l0_start + self.kernel_4k_pages <= 512 * 512
        &&& self.l0_count as int == (self.kernel_l0_start + self.kernel_4k_pages + 511) / 512
        &&& self.kernel_4k_pages * 4096 <= 0x4000_0000
    }

    /// Total table pages the builder will fill: the root, one mid-level
    /// kernel table, and the leaf tables.
    pub open spec fn spec_total_pages(self) -> int {
        2 + self.l0_count as int
    }

    /// Number of pages of table storage to reserve before firmware shutdown.
    pub fn total_pages(&self) -> (r: usize)
        requires
            self.wf(),
        ensures
            r as int == self.spec_total_pages(),
    {
        2 + self.l0_count
    }
}

/// The outcome of planning, fixed by the three inputs alone.
pub open spec fn spec_plan(kernel_phys: u64, kernel_size: u64, kernel_virt_base: u64) -> Result<
    TablePlan,
    PageTableError,
> {
    if kernel_size == 0 {
        Err(PageTableError::EmptyImage)
    } else if kernel_phys % 4096 != 0 {
        Err(PageTableError::MisalignedPhysicalBase)
    } else if kernel_virt_base % 4096 != 0 {
        Err(PageTableError::MisalignedVirtualBase)
    } else if kernel_phys + 0x4000_0000 > MAX_PHYS {
        Err(PageTableError::PhysicalBaseTooHigh)
    } else if kernel_size > 0x4000_0000 {
        Err(PageTableError::SpanTooLarge)
    } else if slot(kernel_virt_base, ROOT_SPAN) < 4 || (PHYS_MAP_ROOT_INDEX as int <= slot(
        kernel_virt_base,
        ROOT_SPAN,
    ) < PHYS_MAP_ROOT_INDEX as int + 4) {
        Err(PageTableError::ReservedRootSlot)
    } else if slot(kernel_virt_base, L1_SPAN) * 512 + slot(kernel_virt_base, L0_SPAN) + pages_for(
        kernel_size,
        4096,
    ) > 512 * 512 {
        Err(PageTableError::SpanTooLarge)
    } else {
        Ok(
            TablePlan {
                kernel_phys,
                kernel_virt_base,
                kernel_4k_pages: pages_for(kernel_size, 4096) as usize,
                l0_count: ((slot(kernel_virt_base, L0_SPAN) + pages_for(kernel_size, 4096) + 511)
                    / 512) as usize,
                kernel_root_index: slot(kernel_virt_base, ROOT_SPAN) as usize,
                kernel_l1_index: slot(kernel_virt_base, L1_SPAN) as usize,
                kernel_l0_start: slot(kernel_virt_base, L0_SPAN) as usize,
            },
        )
    }
}

/// Compute the Sv39 table geometry for a kernel block of `kernel_size`
/// bytes at physical `kernel_phys`, to be mapped at `kernel_virt_base`.
pub fn plan_page_tables(kernel_phys: u64, kernel_size: u64, kernel_virt_base: u64) -> (r: Result<
    TablePlan,
    PageTableError,
>)
    ensures
        r == spec_plan(kernel_phys, kernel_size, kernel_virt_base),
        r matches Ok(p) ==> p.wf(),
{
    if kernel_size == 0 {
        return Err(PageTableError::EmptyImage);
    }
    if kernel_phys % 4096 != 0 {
        return Err(PageTableError::MisalignedPhysicalBase);
    }
    if kernel_virt_base % 4096 != 0 {
        return Err(PageTableError::MisalignedVirtualBase);
    }
    if kernel_phys > MAX_PHYS - 0x4000_0000 {
        return Err(PageTableError::PhysicalBaseTooHigh);
    }
    if kernel_size > 0x4000_0000 {
        return Err(PageTableError::SpanTooLarge);
    }
    let root_index: usize = ((kernel_virt_base / ROOT_SPAN) % 512) as usize;
    let l1_index: usize = ((kernel_virt_base / L1_SPAN) % 512) as usize;
    let l0_start: usize = ((kernel_virt_base / L0_SPAN) % 512) as usize;
    if root_index < 4 || (PHYS_MAP_ROOT_INDEX <= root_index && root_index < PHYS_MAP_ROOT_INDEX
        + 4) {
        return Err(PageTableError::ReservedRootSlot);
    }
    let pages: usize = ((kernel_size + 4095) / 4096) as usize;
    if l1_index * 512 + l0_start + pages > 512 * 512 {
        return Err(PageTableError::SpanTooLarge);
    }
    Ok(
        TablePlan {
            kernel_phys,
            kernel_virt_base,
            kernel_4k_pages: pages,
            l0_count: (l0_start + pages + 511) / 512,
            kernel_root_index: root_index,
            kernel_l1_index: l1_index,
            kernel_l0_start: l0_start,
        },
    )
}

/// Physical addresses of the allocated table pages together with the kernel
/// geometry, for filling in after firmware shutdown.
pub struct PageTableConfig {
    /// Physical address of the root table.
    pub root: u64,
    /// Physical address of the kernel's mid-level table.
    pub l1_kernel: u64,
    /// Physical address of the first kernel leaf table.
    pub l0_base: u64,
    /// The geometry this configuration was planned from.
    pub plan: TablePlan,
}

impl PageTableConfig {
    /// Well formed: the plan is, and the table pages sit consecutively,
    /// page-aligned, in one block below `MAX_PHYS`.
    pub open spec fn wf(self) -> bool {
        &&& self.plan.wf()
        &&& self.root % 4096 == 0
        &&& self.l1_kernel == self.root + 4096
        &&& self.l0_base == self.root + 2 * 4096
        &&& self.root + self.plan.spec_total_pages() * 4096 <= MAX_PHYS
    }

    /// Lay the planned tables out in the reserved block at `table_base`.
    pub fn from_plan(plan: &TablePlan, table_base: u64) -> (r: PageTableConfig)
        requires
            plan.wf(),
            table_base % 4096 == 0,
            table_base + plan.spec_total_pages() * 4096 <= MAX_PHYS,
        ensures
            r.wf(),
            r.plan == *plan,
            r.root == table_base,
    {
        PageTableConfig {
            root: table_base,
            l1_kernel: table_base + 4096,
            l0_base: table_base + 2 * 4096,
            plan: *plan,
        }
    }

    /// Physical address of the root page table.
    pub fn root(&self) -> (r: u64)
        ensures
            r == self.root,
    {
        self.root
    }

    /// The full SATP register value: Sv39 mode, ASID zero, and the root
    /// table's physical page number.
    pub fn satp_value(&self) -> (r: u64)
        requires
            self.wf(),
        ensures
            r == 0x8000_0000_0000_0000u64 + self.root / 4096,
    {
        let ppn = self.root / 4096;
        0x8000_0000_0000_0000u64 + ppn
    }

    /// A pointer PTE: the next table's physical page number with only the
    /// valid bit set.
    pub open spec fn spec_table_pte(table_phys: int) -> u64 {
        (table_phys / 4096 * 1024 + 1) as u64
    }

    /// A leaf PTE: the page's physical page number with the read, write,
    /// execute, accessed and dirty bits set.
    pub open spec fn spec_leaf_pte(phys: int) -> u64 {
        (phys / 4096 * 1024 + 0xCF) as u64
    }

    /// The value of entry `e` of table page `t` in the filled table block.
    pub open spec fn table_entry(self, t: int, e: int) -> u64
        recommends
            0 <= t < self.plan.spec_total_pages(),
            0 <= e < 512,
    {
        if t == 0 {
            if e < 4 {
                Self::spec_leaf_pte(e * 0x4000_0000)
            } else if PHYS_MAP_ROOT_INDEX as int <= e < PHYS_MAP_ROOT_INDEX as int + 4 {
                Self::spec_leaf_pte((e - PHYS_MAP_ROOT_INDEX as int) * 0x4000_0000)
            } else if e == self.plan.kernel_root_index as int {
                Self::spec_table_pte(self.l1_kernel as int)
            } else {
                0
            }
        } else if t == 1 {
            if self.plan.kernel_l1_index as int <= e < self.plan.kernel_l1_index as int
                + self.plan.l0_count as int {
                Self::spec_table_pte(
                    self.l0_base as int + (e - self.plan.kernel_l1_index as int) * 4096,
                )
            } else {
                0
            }
        } else {
            let p = (t - 2) * 512 + e - self.plan.kernel_l0_start as int;
            if 0 <= p < self.plan.kernel_4k_pages as int {
                Self::spec_leaf_pte(self.plan.kernel_phys as int + p * 4096)
            } else {
                0
            }
        }
    }

    /// The value of the `i`th eight-byte entry of the filled table block.
    pub open spec fn entry_at(self, i: int) -> u64 {
        self.table_entry(i / 512, i % 512)
    }

    /// Compute one entry of the planned tables.
    fn entry_value(&self, t: usize, e: usize) -> (r: u64)
        requires
            self.wf(),
            t < self.plan.spec_total_pages(),
            e < 512,
        ensures
            r == self.table_entry(t as int, e as int),
    {
        if t == 0 {
            if e < 4 {
                proof {
                    assert(e == 0 || e == 1 || e == 2 || e == 3);
                }
                (e as u64) * 0x4000_0000 / 4096 * 1024 + 0xCF
            } else if PHYS_MAP_ROOT_INDEX <= e && e < PHYS_MAP_ROOT_INDEX + 4 {
                let g = (e - PHYS_MAP_ROOT_INDEX) as u64;
                proof {
                    assert(g == 0 || g == 1 || g == 2 || g == 3);
                }
                g * 0x4000_0000 / 4096 * 1024 + 0xCF
            } else if e == self.plan.kernel_root_index {
                self.l1_kernel / 4096 * 1024 + 1
            } else {
                0
            }
        } else if t == 1 {
            if self.plan.kernel_l1_index <= e && e < self.plan.kernel_l1_index
                + self.plan.l0_count {
                let a = self.l0_base + ((e - self.plan.kernel_l1_index) as u64) * 4096;
                a / 4096 * 1024 + 1
            } else {
                0
            }
        } else {
            let idx = (t - 2) * 512 + e;
            if idx >= self.plan.kernel_l0_start {
                let p = idx - self.plan.kernel_l0_start;
                if p < self.plan.kernel_4k_pages {
                    let a = self.plan.kernel_phys + (p as u64) * 4096;
                    a / 4096 * 1024 + 0xCF
                } else {
                    0
                }
            } else {
                0
            }
        }
    }

    /// Fill in every entry of the table block.  Returns the block's
    /// eight-byte entries in order, and the physical root address whose page
    /// number goes into SATP.  Produces the identity map of the first 4 GiB
    /// and the direct map of the first 4 GiB at `PHYSICAL_MEMORY_OFFSET`,
    /// both as 1 GiB gigapages in the root table, and the kernel map at its
    /// virtual base in 4 KiB pages.
    pub fn init_page_tables(&self) -> (r: (Vec<u64>, u64))
        requires
            self.wf(),
        ensures
            r.0@.len() == self.plan.spec_total_pages() * 512,
            forall|i: int| 0 <= i < r.0@.len() ==> #[trigger] r.0@[i] == self.entry_at(i),
            r.1 == self.root,
    {
        let total_entries: usize = (2 + self.plan.l0_count) * 512;
        let mut arena: Vec<u64> = Vec::new();
        let mut i: usize = 0;
        while i < total_entries
            invariant
                self.wf(),
                total_entries == self.plan.spec_total_pages() * 512,
                i <= total_entries,
                arena@.len() == i,
                forall|j: int| 0 <= j < i ==> #[trigger] arena@[j] == self.entry_at(j),
            decreases total_entries - i,
        {
            let t = i / 512;
            let e = i % 512;
            let v = self.entry_value(t, e);
            arena.push(v);
            i = i + 1;
        }
        (arena, self.root)
    }

    /// The filled table block: `arena` holds exactly the planned entries.
    pub open spec fn matches(self, arena: Seq<u64>) -> bool {
        &&& arena.len() == self.plan.spec_total_pages() * 512
        &&& forall|i: int| 0 <= i < arena.len() ==> #[trigger] arena[i] == self.entry_at(i)
    }

    /// The entry of the table page at physical address `table` selected by
    /// index `idx`, read out of the block's entries.
    pub open spec fn read_entry(self, arena: Seq<u64>, table: int, idx: int) -> u64 {
        arena[(table - self.root) / 4096 * 512 + idx]
    }

    /// The Sv39 MMU walk over the filled block: resolve `va` to its physical
    /// address and the leaf PTE that mapped it, or `None` where some level
    /// is invalid.
    pub open spec fn spec_translate(self, arena: Seq<u64>, va: u64) -> Option<(u64, u64)> {
        let e2 = self.read_entry(arena, self.root as int, slot(va, ROOT_SPAN));
        if !pte_valid(e2) {
            None
        } else if pte_leaf(e2) {
            Some(((pte_addr(e2) + va as int % 0x4000_0000) as u64, e2))
        } else {
            let e1 = self.read_entry(arena, pte_addr(e2), slot(va, L1_SPAN));
            if !pte_valid(e1) {
                None
            } else if pte_leaf(e1) {
                Some(((pte_addr(e1) + va as int % 0x20_0000) as u64, e1))
            } else {
                let e0 = self.read_entry(arena, pte_addr(e1), slot(va, L0_SPAN));
                if !pte_valid(e0) || !pte_leaf(e0) {
                    None
                } else {
                    Some(((pte_addr(e0) + va as int % 4096) as u64, e0))
                }
            }
        }
    }
}

/// Flag and address facts about a leaf PTE built from a page-aligned
/// physical address.
proof fn lemma_leaf_pte(a: int)
    requires
        0 <= a <= 0x10_0000_0000_0000,
        a % 4096 == 0,
    ensures
        pte_valid(PageTableConfig::spec_leaf_pte(a)),
        pte_leaf(PageTableConfig::spec_leaf_pte(a)),
        pte_writable(PageTableConfig::spec_leaf_pte(a)),
        pte_addr(PageTableConfig::spec_leaf_pte(a)) == a,
{
    lemma_fundamental_div_mod(a, 4096);
    let q = a / 4096;
    let e = 1024 * q + 0xCF;
    assert(PageTableConfig::spec_leaf_pte(a) == e);
    lemma_fundamental_div_mod_converse(e, 2, 512 * q + 103, 1);
    lemma_fundamental_div_mod_converse(512 * q + 103, 8, 64 * q + 12, 7);
    lemma_fundamental_div_mod_converse(e, 4, 256 * q + 51, 3);
    lemma_fundamental_div_mod_converse(256 * q + 51, 2, 128 * q + 25, 1);
    lemma_fundamental_div_mod_converse(e, 1024, q, 0xCF);
}

/// Flag and address facts about a pointer PTE built from a page-aligned
/// table address.
proof fn lemma_table_pte(a: int)
    requires
        0 <= a <= 0x10_0000_0000_0000,
        a % 4096 == 0,
    ensures
        pte_valid(PageTableConfig::spec_table_pte(a)),
        !pte_leaf(PageTableConfig::spec_table_pte(a)),
        pte_addr(PageTableConfig::spec_table_pte(a)) == a,
{
    lemma_fundamental_div_mod(a, 4096);
    let q = a / 4096;
    let e = 1024 * q + 1;
    assert(PageTableConfig::spec_table_pte(a) == e);
    lemma_fundamental_div_mod_converse(e, 2, 512 * q, 1);
    lemma_fundamental_div_mod_converse(512 * q, 8, 64 * q, 0);
    lemma_fundamental_div_mod_converse(e, 1024, q, 1);
}

impl PageTableConfig {
    /// An arena index splits into its table page and entry numbers.
    proof fn lemma_entry_split(self, t: int, e: int)
        requires
            0 <= t,
            0 <= e < 512,
        ensures
            self.entry_at(t * 512 + e) == self.table_entry(t, e),
    {
        lemma_fundamental_div_mod_converse(t * 512 + e, 512, t, e);
    }

    /// The slot each level selects for the `p`th page of the kernel span.
    proof fn lemma_kernel_va_slots(self, p: int, va: u64)
        requires
            self.plan.wf(),
            0 <= p < self.plan.kernel_4k_pages,
            va as int == self.plan.kernel_virt_base + p * 4096,
        ensures
            va as int % 4096 == 0,
            slot(va, ROOT_SPAN) == self.plan.kernel_root_index,
            slot(va, L1_SPAN) == self.plan.kernel_l1_index + (self.plan.kernel_l0_start + p)
                / 512,
            slot(va, L0_SPAN) == (self.plan.kernel_l0_start + p) % 512,
            0 <= (self.plan.kernel_l0_start + p) / 512 < self.plan.l0_count,
            self.plan.kernel_l1_index + (self.plan.kernel_l0_start + p) / 512 < 512,
    {
        let b = self.plan.kernel_virt_base as int;
        let vai = va as int;
        let l0s = self.plan.kernel_l0_start as int;
        let l1i = self.plan.kernel_l1_index as int;
        let pages = self.plan.kernel_4k_pages as int;
        let v0 = b / 4096;
        lemma_fundamental_div_mod(b, 4096);
        let w = v0 + p;
        lemma_fundamental_div_mod_converse(vai, 4096, w, 0);
        lemma_div_denominator(b, 4096, 512);
        let u = v0 / 512;
        lemma_div_denominator(b, 0x20_0000, 512);
        assert(v0 % 512 == l0s);
        assert(u % 512 == l1i);
        let t = (l0s + p) / 512;
        let r = (l0s + p) % 512;
        lemma_fundamental_div_mod(l0s + p, 512);
        lemma_mod_pos_bound(l0s + p, 512);
        assert(t < self.plan.l0_count as int) by {
            lemma_div_is_ordered(l0s + p, l0s + pages - 1, 512);
            lemma_div_plus_one(l0s + pages - 1, 512);
            assert(1 + (l0s + pages - 1) / 512 == (l0s + pages + 511) / 512);
        }
        assert(l1i + self.plan.l0_count as int <= 512) by {
            lemma_div_is_ordered(l0s + pages + 511, 512 * (512 - l1i) + 511, 512);
            lemma_fundamental_div_mod_converse(512 * (512 - l1i) + 511, 512, 512 - l1i, 511);
        }
        lemma_fundamental_div_mod(v0, 512);
        lemma_fundamental_div_mod_converse(w, 512, u + t, r);
        lemma_fundamental_div_mod(u, 512);
        lemma_fundamental_div_mod_converse(u + t, 512, u / 512, l1i + t);
        lemma_div_denominator(vai, 4096, 512);
        lemma_div_denominator(vai, 0x20_0000, 512);
    }

    /// Every page of the kernel span resolves through the filled tables to
    /// its place in the kernel's physical block, valid and writable.
    #[verifier::spinoff_prover]
    #[verifier::rlimit(100)]
    pub proof fn lemma_kernel_mapping(self, arena: Seq<u64>, p: int, va: u64)
        requires
            self.wf(),
            self.matches(arena),
            0 <= p < self.plan.kernel_4k_pages,
            va as int == self.plan.kernel_virt_base + p * 4096,
        ensures
            self.spec_translate(arena, va) == Some(
                (
                    (self.plan.kernel_phys + p * 4096) as u64,
                    Self::spec_leaf_pte(self.plan.kernel_phys as int + p * 4096),
                ),
            ),
            pte_writable(Self::spec_leaf_pte(self.plan.kernel_phys as int + p * 4096)),
    {
        let plan = self.plan;
        let l0s = plan.kernel_l0_start as int;
        let t = (l0s + p) / 512;
        let r = (l0s + p) % 512;
        self.lemma_kernel_va_slots(p, va);
        assert(plan.l0_count >= 1);
        // root level: the kernel slot points at the mid-level table
        let i2 = slot(va, ROOT_SPAN);
        assert(arena[i2] == self.entry_at(i2));
        self.lemma_entry_split(0, i2);
        assert(arena[i2] == Self::spec_table_pte(self.l1_kernel as int));
        lemma_table_pte(self.l1_kernel as int);
        // mid level: the slot points at leaf table `t`
        let i1 = slot(va, L1_SPAN);
        assert((self.l1_kernel - self.root) / 4096 == 1);
        assert(arena[512 + i1] == self.entry_at(512 + i1));
        self.lemma_entry_split(1, i1);
        assert(arena[512 + i1] == Self::spec_table_pte(self.l0_base as int + t * 4096));
        lemma_table_pte(self.l0_base as int + t * 4096);
        // leaf level: the slot holds the page's physical address
        let i0 = slot(va, L0_SPAN);
        assert((self.l0_base + t * 4096 - self.root) / 4096 == 2 + t) by {
            lemma_fundamental_div_mod_converse((2 + t) * 4096, 4096, 2 + t, 0);
        }
        assert((2 + t) * 512 + i0 < arena.len());
        assert(arena[(2 + t) * 512 + i0] == self.entry_at((2 + t) * 512 + i0));
        self.lemma_entry_split(2 + t, i0);
        assert(t * 512 + i0 - l0s == p);
        assert(arena[(2 + t) * 512 + i0] == Self::spec_leaf_pte(
            plan.kernel_phys as int + p * 4096,
        ));
        lemma_leaf_pte(plan.kernel_phys as int + p * 4096);
    }

    /// Every physical address below 4 GiB is identity-mapped by the filled
    /// tables through a writable 1 GiB gigapage in the root table.
    #[verifier::spinoff_prover]
    #[verifier::rlimit(100)]
pub proof fn lemma_identity_mapping(self, arena: Seq<u64>, pa: u64)
        requires
            self.wf(),
            self.matches(arena),
            pa < 0x1_0000_0000,
        ensures
            self.spec_translate(arena, pa) == Some(
                (pa, Self::spec_leaf_pte(pa as int / 0x4000_0000 * 0x4000_0000)),
            ),
            pte_writable(Self::spec_leaf_pte(pa as int / 0x4000_0000 * 0x4000_0000)),
    {
        let pai = pa as int;
        let g = pai / 0x4000_0000;
        lemma_fundamental_div_mod(pai, 0x4000_0000);
        lemma_fundamental_div_mod_converse(g, 512, 0, g);
        assert(slot(pa, ROOT_SPAN) == g) by {
            lemma_div_denominator(pai, 0x20_0000, 512);
            lemma_div_denominator(pai, 4096, 512);
        }
        assert(arena[g] == self.entry_at(g));
        self.lemma_entry_split(0, g);
        assert(arena[g] == Self::spec_leaf_pte(g * 0x4000_0000));
        lemma_mod_multiples_basic(g * 0x4_0000, 4096);
        assert(g * 0x4000_0000 == (g * 0x4_0000) * 4096) by (nonlinear_arith);
        lemma_leaf_pte(g * 0x4000_0000);
    }

    /// Every physical address below 4 GiB is reachable at the fixed
    /// direct-map offset through a writable 1 GiB gigapage in the root table.
    #[verifier::spinoff_prover]
    #[verifier::rlimit(100)]
    pub proof fn lemma_direct_mapping(self, arena: Seq<u64>, pa: u64, va: u64)
        requires
            self.wf(),
            self.matches(arena),
            pa < 0x1_0000_0000,
            va as int == PHYSICAL_MEMORY_OFFSET + pa,
        ensures
            self.spec_translate(arena, va) == Some(
                (pa, Self::spec_leaf_pte(pa as int / 0x4000_0000 * 0x4000_0000)),
            ),
            pte_writable(Self::spec_leaf_pte(pa as int / 0x4000_0000 * 0x4000_0000)),
    {
        let vai = va as int;
        let pai = pa as int;
        let g = pai / 0x4000_0000;
        let s = pai % 0x4000_0000;
        lemma_fundamental_div_mod(pai, 0x4000_0000);
        lemma_fundamental_div_mod_converse(vai, 0x4000_0000, 0x3_FFFF_FF80 + g, s);
        lemma_fundamental_div_mod_converse(0x3_FFFF_FF80 + g, 512, 33554431, 384 + g);
        assert(arena[384 + g] == self.entry_at(384 + g));
        self.lemma_entry_split(0, 384 + g);
        assert(arena[384 + g] == Self::spec_leaf_pte(g * 0x4000_0000));
        lemma_mod_multiples_basic(g * 0x4_0000, 4096);
        assert(g * 0x4000_0000 == (g * 0x4_0000) * 4096) by (nonlinear_arith);
        lemma_leaf_pte(g * 0x4000_0000);
    }

    /// Walk the filled tables for `va` exactly as the Sv39 MMU would,
    /// returning the physical address and the leaf PTE that maps it.
    #[verifier::spinoff_prover]
    #[verifier::rlimit(100)]
    pub fn translate(&self, arena: &Vec<u64>, va: u64) -> (r: Option<(u64, u64)>)
        requires
            self.wf(),
            self.matches(arena@),
        ensures
            r == self.spec_translate(arena@, va),
    {
        let ghost plan = self.plan;
        // root level
        let i2: usize = ((va / ROOT_SPAN) % 512) as usize;
        proof {
            self.lemma_entry_split(0, i2 as int);
            if i2 < 4 {
                lemma_mod_multiples_basic(i2 as int * 0x4_0000, 4096);
                assert(i2 as int * 0x4000_0000 == (i2 as int * 0x4_0000) * 4096)
                    by (nonlinear_arith);
                lemma_leaf_pte(i2 as int * 0x4000_0000);
            } else if PHYS_MAP_ROOT_INDEX <= i2 && i2 < PHYS_MAP_ROOT_INDEX + 4 {
                let g = i2 as int - PHYS_MAP_ROOT_INDEX as int;
                lemma_mod_multiples_basic(g * 0x4_0000, 4096);
                assert(g * 0x4000_0000 == (g * 0x4_0000) * 4096) by (nonlinear_arith);
                lemma_leaf_pte(g * 0x4000_0000);
            } else if i2 as int == plan.kernel_root_index {
                lemma_table_pte(self.l1_kernel as int);
            }
        }
        let e2 = arena[i2];
        if e2 % 2 == 0 {
            return None;
        }
        if (e2 / 2) % 8 != 0 {
            let phys = e2 / 1024 * 4096 + va % 0x4000_0000;
            return Some((phys, e2));
        }
        // mid level
        let i1: usize = ((va / L1_SPAN) % 512) as usize;
        proof {
            self.lemma_entry_split(1, i1 as int);
            let tk = i1 as int - plan.kernel_l1_index;
            if plan.kernel_l1_index as int <= i1 as int && (i1 as int) < plan.kernel_l1_index
                as int + plan.l0_count as int {
                lemma_table_pte(self.l0_base as int + tk * 4096);
                lemma_fundamental_div_mod_converse((2 + tk) * 4096, 4096, 2 + tk, 0);
            }
        }
        let e1 = arena[512 + i1];
        if e1 % 2 == 0 {
            return None;
        }
        if (e1 / 2) % 8 != 0 {
            let phys = e1 / 1024 * 4096 + va % 0x20_0000;
            return Some((phys, e1));
        }
        let tab0 = e1 / 1024 * 4096;
        let t0: usize = ((tab0 - self.root) / 4096) as usize;
        assert(2 <= t0 < plan.spec_total_pages());
        // leaf level
        let i0: usize = ((va / L0_SPAN) % 512) as usize;
        proof {
            self.lemma_entry_split(t0 as int, i0 as int);
            assert(t0 as int * 512 + i0 < arena@.len());
            let pk = (t0 as int - 2) * 512 + i0 as int - plan.kernel_l0_start;
            if 0 <= pk < plan.kernel_4k_pages as int {
                lemma_leaf_pte(plan.kernel_phys as int + pk * 4096);
            }
        }
        let e0 = arena[t0 * 512 + i0];
        if e0 % 2 == 0 {
            return None;
        }
        if (e0 / 2) % 8 == 0 {
            return None;
        }
        let phys = e0 / 1024 * 4096 + va % 4096;
        Some((phys, e0))
    }
}

} // verus!
