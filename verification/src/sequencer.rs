use vstd::prelude::*;

use crate::elf::ImageError;
use crate::elf::ImageLayout;
use crate::elf::seg_max_end;
use crate::elf::seg_min_va;
use crate::elf::spec_load_segments;
use crate::elf::spec_parse_error;
use crate::elf::u16_le;
use crate::elf::u64_le;
use crate::elf::analyze_image;
use crate::handoff::AcpiEntry;
use crate::handoff::BootInfo;
use crate::handoff::FrameBuffer;
use crate::handoff::MemoryDescriptor;
use crate::handoff::build_memory_regions;
use crate::handoff::spec_convert_region;
use crate::handoff::spec_select_acpi;
use crate::handoff::select_acpi_pointer;
use crate::loader::check_destinations_disjoint;
use crate::loader::destinations_disjoint;
use crate::loader::load_segments;
use crate::loader::loaded_byte;
use crate::page_table::PageTableError;
use crate::page_table::x86_64::MAX_PHYS;
use crate::page_table::x86_64::PHYSICAL_MEMORY_OFFSET;
use crate::page_table::x86_64::PageTableConfig;
use crate::page_table::x86_64::TablePlan;
use crate::page_table::x86_64::plan_page_tables;
use crate::page_table::x86_64::spec_plan;
use crate::placement::HUGE_PAGE_SIZE;
use crate::placement::KERNEL_STACK_SIZE;
use crate::placement::kernel_block_pages;
use crate::placement::stack_pages;
use crate::placement::stack_top;

verus! {

/// Where a boot attempt stands.  The order is strict: firmware services
/// may be used up to and including `Collecting`; `ServicesShutdown` is the
/// one-way barrier after which no firmware call is permitted.
#[derive(Clone, Copy, Debug, PartialEq, Eq, Structural)]
pub enum Stage {
    /// Parsing the kernel image.
    Analyzing,
    /// Asking the firmware for the kernel and stack blocks.
    Allocating,
    /// Copying segments into the kernel's physical block.
    Loading,
    /// Page-table storage is reserved; entries are still unwritten.
    PageTablesReserved,
    /// Gathering framebuffer and platform pointers from the firmware.
    Collecting,
    /// Firmware services are gone; only raw memory and the debug channel
    /// remain.
    ServicesShutdown,
    /// Every page-table entry is written.
    PageTablesPopulated,
    /// Control has left the loader; unreachable in process.
    Transferred,
}

/// Position of a stage in the boot order.
pub open spec fn spec_rank(s: Stage) -> int {
    match s {
        Stage::Analyzing => 0,
        Stage::Allocating => 1,
        Stage::Loading => 2,
        Stage::PageTablesReserved => 3,
        Stage::Collecting => 4,
        Stage::ServicesShutdown => 5,
        Stage::PageTablesPopulated => 6,
        Stage::Transferred => 7,
    }
}

/// Whether firmware services may still be called at this stage.
pub open spec fn firmware_available(s: Stage) -> bool {
    spec_rank(s) <= 4
}

/// The stage that follows `s`, if any.
pub open spec fn spec_next(s: Stage) -> Option<Stage> {
    match s {
        Stage::Analyzing => Some(Stage::Allocating),
        Stage::Allocating => Some(Stage::Loading),
        Stage::Loading => Some(Stage::PageTablesReserved),
        Stage::PageTablesReserved => Some(Stage::Collecting),
        Stage::Collecting => Some(Stage::ServicesShutdown),
        Stage::ServicesShutdown => Some(Stage::PageTablesPopulated),
        Stage::PageTablesPopulated => Some(Stage::Transferred),
        Stage::Transferred => None,
    }
}

/// Firmware-services shutdown is one way: once a stage has the services
/// gone, every later stage has them gone too.
pub proof fn lemma_shutdown_is_permanent(s: Stage, t: Stage)
    requires
        !firmware_available(s),
        spec_next(s) == Some(t),
    ensures
        !firmware_available(t),
{
}

/// Why a boot attempt was abandoned before the barrier.
#[derive(Clone, Copy, Debug, PartialEq, Eq, Structural)]
pub enum BootError {
    /// The kernel image could not be parsed.
    MalformedImage(ImageError),
    /// Two loadable segments claim overlapping destination ranges.
    OverlappingSegments,
    /// The loadable segments cover no bytes at all.
    EmptySpan,
    /// The virtual span exceeds what one kernel mapping can cover.
    SpanTooLarge,
    /// The firmware's kernel block is not aligned to the identity map's
    /// largest granularity.
    MisalignedAllocation,
    /// The firmware's kernel block ends beyond the largest mappable
    /// address.
    AllocationTooHigh,
    /// The page-table planner rejected the geometry.
    PageTable(PageTableError),
}

/// The three values the final control transfer loads, besides the address
/// of the handoff record: the stack pointer, the root translation
/// register, and the jump target.
#[derive(Clone, Copy, Debug, PartialEq, Eq, Structural)]
pub struct TransferArgs {
    /// Precomputed top of the kernel stack.
    pub stack_top: u64,
    /// Physical address of the root translation table.
    pub page_table_root: u64,
    /// Virtual address of the kernel's entry point.
    pub entry_point: u64,
}

/// The orchestrator of one boot attempt: it holds the stage and the values
/// settled so far, and each step's contract admits it only at its stage,
/// so the allocate-before-shutdown ordering and the one-way barrier are
/// enforced by construction.
pub struct Sequencer {
    /// Where the attempt stands.
    pub stage: Stage,
    /// Entry point of the analyzed image.
    pub entry_point: u64,
    /// Least virtual address of the kernel span.
    pub min_virtual: u64,
    /// Greatest virtual end address of the kernel span.
    pub max_virtual: u64,
    /// Whether the segments have been copied into the kernel block.
    pub loaded: bool,
    /// Physical base of the kernel block.
    pub kernel_phys: u64,
    /// Precomputed top of the kernel stack.
    pub stack_top: u64,
    /// The reserved page tables, once planned and placed.
    pub table_config: Option<PageTableConfig>,
    /// The platform framebuffer, once collected.
    pub framebuffer: Option<FrameBuffer>,
    /// The ACPI root pointer, once collected.
    pub rsdp_addr: Option<u64>,
}

impl Sequencer {
    /// What every reachable sequencer state satisfies: each stage carries
    /// the facts the later steps rely on.
    pub open spec fn wf(self) -> bool {
        &&& spec_rank(self.stage) >= 1 ==> {
            &&& self.min_virtual < self.max_virtual
            &&& self.max_virtual - self.min_virtual <= 0x4000_0000
        }
        &&& spec_rank(self.stage) >= 2 ==> {
            &&& self.kernel_phys % HUGE_PAGE_SIZE == 0
            &&& self.kernel_phys + 0x4000_0000 <= MAX_PHYS
            &&& self.stack_top % 16 == 0
        }
        &&& spec_rank(self.stage) >= 3 ==> {
            &&& self.loaded
            &&& self.table_config matches Some(c) && c.wf() && c.plan.kernel_phys
                == self.kernel_phys && c.plan.kernel_virt_base == self.min_virtual
        }
    }

    /// A fresh attempt, about to analyze its image.
    pub fn new() -> (r: Sequencer)
        ensures
            r.stage == Stage::Analyzing,
            r.wf(),
    {
        Sequencer {
            stage: Stage::Analyzing,
            entry_point: 0,
            min_virtual: 0,
            max_virtual: 0,
            loaded: false,
            kernel_phys: 0,
            stack_top: 0,
            table_config: None,
            framebuffer: None,
            rsdp_addr: None,
        }
    }

    /// Analyze the kernel image: parse it, reject overlapping destination
    /// ranges and spans the kernel mapping cannot cover, and record the
    /// entry point and virtual span.  Succeeds exactly when the image
    /// parses, its segments' destinations are disjoint, and the span is
    /// neither empty nor over the mapping's reach.
    pub fn analyze(&mut self, kernel: &Vec<u8>) -> (r: Result<ImageLayout, BootError>)
        requires
            old(self).stage == Stage::Analyzing,
            old(self).wf(),
        ensures
            final(self).wf(),
            r is Ok ==> final(self).stage == Stage::Allocating,
            r is Err ==> *final(self) == *old(self),
            ({
                let segs = spec_load_segments(kernel@, u64_le(kernel@, 32), u16_le(kernel@, 56));
                let span = seg_max_end(segs, segs.len() as int) - seg_min_va(
                    segs,
                    segs.len() as int,
                );
                &&& (r is Ok <==> spec_parse_error(kernel@) is None && destinations_disjoint(segs)
                    && 0 < span <= 0x4000_0000)
                &&& r matches Err(BootError::EmptySpan) ==> span == 0
                &&& r matches Err(BootError::SpanTooLarge) ==> span > 0x4000_0000
            }),
            r matches Err(BootError::MalformedImage(e)) ==> spec_parse_error(kernel@) == Some(e),
            r matches Err(BootError::OverlappingSegments) ==> !destinations_disjoint(
                spec_load_segments(kernel@, u64_le(kernel@, 32), u16_le(kernel@, 56)),
            ),
            r matches Ok(l) ==> {
                &&& spec_parse_error(kernel@) is None
                &&& l.wf(kernel@.len() as int)
                &&& l.segments@ == spec_load_segments(kernel@, u64_le(kernel@, 32), u16_le(kernel@, 56))
                &&& destinations_disjoint(l.segments@)
                &&& l.entry_point as int == u64_le(kernel@, 24)
                &&& final(self).entry_point == l.entry_point
                &&& final(self).min_virtual == l.min_virtual
                &&& final(self).max_virtual == l.max_virtual
                &&& 0 < l.max_virtual - l.min_virtual <= 0x4000_0000
            },
    {
        let layout = match analyze_image(kernel) {
            Ok(l) => l,
            Err(e) => {
                return Err(BootError::MalformedImage(e));
            },
        };
        if !check_destinations_disjoint(&layout) {
            return Err(BootError::OverlappingSegments);
        }
        if layout.min_virtual == layout.max_virtual {
            return Err(BootError::EmptySpan);
        }
        if layout.max_virtual - layout.min_virtual > 0x4000_0000 {
            return Err(BootError::SpanTooLarge);
        }
        self.stage = Stage::Allocating;
        self.entry_point = layout.entry_point;
        self.min_virtual = layout.min_virtual;
        self.max_virtual = layout.max_virtual;
        Ok(layout)
    }

    /// How many finest-granularity pages to ask the firmware for: the
    /// kernel block (the span rounded up to whole huge pages) and the
    /// stack block.
    pub fn allocation_request(&self) -> (r: (u64, u64))
        requires
            self.stage == Stage::Allocating,
            self.wf(),
        ensures
            r.0 * 4096 == crate::placement::spec_block_bytes(
                self.max_virtual - self.min_virtual,
            ),
            r.1 * 4096 == KERNEL_STACK_SIZE,
    {
        let span = self.max_virtual - self.min_virtual;
        (kernel_block_pages(span), stack_pages())
    }

    /// Record where the firmware placed the kernel and stack blocks, and
    /// fix the stack top.  Succeeds exactly when the kernel block is
    /// aligned to the identity map's largest granularity and low enough to
    /// map.
    pub fn record_allocation(&mut self, kernel_phys: u64, stack_base: u64) -> (r: Result<
        (),
        BootError,
    >)
        requires
            old(self).stage == Stage::Allocating,
            old(self).wf(),
            stack_base + KERNEL_STACK_SIZE <= u64::MAX,
        ensures
            final(self).wf(),
            r is Ok <==> kernel_phys % HUGE_PAGE_SIZE == 0 && kernel_phys + 0x4000_0000
                <= MAX_PHYS,
            r matches Err(BootError::MisalignedAllocation) ==> kernel_phys % HUGE_PAGE_SIZE != 0,
            r matches Err(BootError::AllocationTooHigh) ==> kernel_phys + 0x4000_0000 > MAX_PHYS,
            r is Err ==> *final(self) == *old(self),
            r is Ok ==> {
                &&& final(self).stage == Stage::Loading
                &&& final(self).kernel_phys == kernel_phys
                &&& final(self).stack_top as int == stack_base + KERNEL_STACK_SIZE - ((
                stack_base + KERNEL_STACK_SIZE) as int) % 16
                &&& final(self).entry_point == old(self).entry_point
                &&& final(self).min_virtual == old(self).min_virtual
                &&& final(self).max_virtual == old(self).max_virtual
            },
    {
        if kernel_phys % HUGE_PAGE_SIZE != 0 {
            return Err(BootError::MisalignedAllocation);
        }
        if kernel_phys > MAX_PHYS - 0x4000_0000 {
            return Err(BootError::AllocationTooHigh);
        }
        self.stack_top = stack_top(stack_base);
        self.kernel_phys = kernel_phys;
        self.stage = Stage::Loading;
        Ok(())
    }

    /// Copy the segments into an image of the kernel's physical block and
    /// plan the page tables over it.  The caller writes the returned block
    /// to `kernel_phys` and reserves `plan.total_pages()` pages of table
    /// storage — the last firmware allocations of the attempt.
    pub fn load_and_plan(&mut self, image: &Vec<u8>, layout: &ImageLayout) -> (r: Result<
        (Vec<u8>, TablePlan),
        BootError,
    >)
        requires
            old(self).stage == Stage::Loading,
            old(self).wf(),
            layout.wf(image@.len() as int),
            layout.min_virtual == old(self).min_virtual,
            layout.max_virtual == old(self).max_virtual,
        ensures
            final(self).wf(),
            final(self).stage == old(self).stage,
            r is Ok <==> spec_plan(
                old(self).kernel_phys,
                (old(self).max_virtual - old(self).min_virtual) as u64,
                old(self).min_virtual,
            ) is Ok,
            r matches Err(BootError::PageTable(e)) ==> spec_plan(
                old(self).kernel_phys,
                (old(self).max_virtual - old(self).min_virtual) as u64,
                old(self).min_virtual,
            ) == Err::<TablePlan, PageTableError>(e),
            r is Err ==> *final(self) == *old(self),
            r matches Ok(p) ==> {
                &&& p.0@.len() == layout.spec_span()
                &&& forall|k: int|
                    0 <= k < p.0@.len() ==> #[trigger] p.0@[k] == loaded_byte(
                        layout.segments@,
                        image@,
                        layout.min_virtual as int,
                        layout.segments@.len() as int,
                        k,
                    )
                &&& p.1.wf()
                &&& spec_plan(
                    old(self).kernel_phys,
                    (old(self).max_virtual - old(self).min_virtual) as u64,
                    old(self).min_virtual,
                ) == Ok::<TablePlan, PageTableError>(p.1)
                &&& final(self).loaded
                &&& *final(self) == (Sequencer { loaded: true, ..*old(self) })
            },
    {
        let span = self.max_virtual - self.min_virtual;
        let plan = match plan_page_tables(self.kernel_phys, span, self.min_virtual) {
            Ok(p) => p,
            Err(e) => {
                return Err(BootError::PageTable(e));
            },
        };
        let block = load_segments(image, layout);
        self.loaded = true;
        Ok((block, plan))
    }

    /// Record where the firmware placed the table block.  From here the
    /// attempt holds everything the post-shutdown fill needs.
    pub fn record_table_block(&mut self, plan: &TablePlan, table_base: u64) -> (r: Result<
        (),
        BootError,
    >)
        requires
            old(self).stage == Stage::Loading,
            old(self).wf(),
            old(self).loaded,
            plan.wf(),
            plan.kernel_phys == old(self).kernel_phys,
            plan.kernel_virt_base == old(self).min_virtual,
        ensures
            final(self).wf(),
            r is Ok <==> table_base % 4096 == 0 && table_base + plan.spec_total_pages() * 4096
                <= MAX_PHYS,
            r is Err ==> *final(self) == *old(self),
            r matches Err(BootError::MisalignedAllocation) ==> table_base % 4096 != 0,
            r matches Err(BootError::AllocationTooHigh) ==> table_base + plan.spec_total_pages()
                * 4096 > MAX_PHYS,
            r is Ok ==> {
                &&& final(self).stage == Stage::PageTablesReserved
                &&& final(self).table_config matches Some(c) && c.plan == *plan && c.pml4
                    == table_base
                &&& final(self).entry_point == old(self).entry_point
                &&& final(self).stack_top == old(self).stack_top
                &&& final(self).kernel_phys == old(self).kernel_phys
            },
    {
        if table_base % 4096 != 0 {
            return Err(BootError::MisalignedAllocation);
        }
        let total = plan.total_pages();
        if table_base > MAX_PHYS - (total as u64) * 4096 {
            return Err(BootError::AllocationTooHigh);
        }
        let config = PageTableConfig::from_plan(plan, table_base);
        self.table_config = Some(config);
        self.stage = Stage::PageTablesReserved;
        Ok(())
    }

    /// Record what the firmware reports about the platform: the current
    /// graphics mode, if any, and the ACPI root pointer picked from the
    /// configuration table, preferring the newer revision.  The last step
    /// that may touch firmware services besides the shutdown call itself.
    pub fn collect(&mut self, framebuffer: Option<FrameBuffer>, acpi: &Vec<AcpiEntry>)
        requires
            old(self).stage == Stage::PageTablesReserved,
            old(self).wf(),
        ensures
            final(self).wf(),
            final(self).stage == Stage::Collecting,
            final(self).framebuffer == framebuffer,
            final(self).rsdp_addr == spec_select_acpi(acpi@),
            final(self).table_config == old(self).table_config,
            final(self).entry_point == old(self).entry_point,
            final(self).stack_top == old(self).stack_top,
            final(self).kernel_phys == old(self).kernel_phys,
            final(self).min_virtual == old(self).min_virtual,
            final(self).max_virtual == old(self).max_virtual,
    {
        self.framebuffer = framebuffer;
        self.rsdp_addr = select_acpi_pointer(acpi);
        self.stage = Stage::Collecting;
    }

    /// Cross the barrier: the caller has just made the single shutdown
    /// call and owns its memory-map snapshot; convert it into the
    /// normalized region list and assemble the handoff record.  No method
    /// of this type touches firmware services from here on.
    pub fn shutdown(&mut self, descs: &Vec<MemoryDescriptor>) -> (r: BootInfo)
        requires
            old(self).stage == Stage::Collecting,
            old(self).wf(),
            forall|i: int|
                0 <= i < descs@.len() ==> (#[trigger] descs@[i]).phys_start + descs@[i].page_count
                    * 4096 <= u64::MAX,
        ensures
            final(self).wf(),
            final(self).stage == Stage::ServicesShutdown,
            !firmware_available(final(self).stage),
            r.memory_regions@.len() == descs@.len(),
            forall|i: int|
                0 <= i < descs@.len() ==> #[trigger] r.memory_regions@[i] == spec_convert_region(
                    descs@[i],
                ),
            r.framebuffer == old(self).framebuffer,
            r.physical_memory_offset == Some(PHYSICAL_MEMORY_OFFSET),
            r.rsdp_addr == old(self).rsdp_addr,
            final(self).table_config == old(self).table_config,
            final(self).entry_point == old(self).entry_point,
            final(self).stack_top == old(self).stack_top,
    {
        let memory_regions = build_memory_regions(descs);
        self.stage = Stage::ServicesShutdown;
        BootInfo {
            memory_regions,
            framebuffer: self.framebuffer,
            physical_memory_offset: Some(PHYSICAL_MEMORY_OFFSET),
            rsdp_addr: self.rsdp_addr,
        }
    }

    /// Fill in every page-table entry, with no allocation and no firmware
    /// call.  Returns the block's entries, which the caller writes to the
    /// reserved table storage, and the physical root address for CR3.
    pub fn populate(&mut self) -> (r: (Vec<u64>, u64))
        requires
            old(self).stage == Stage::ServicesShutdown,
            old(self).wf(),
        ensures
            final(self).wf(),
            final(self).stage == Stage::PageTablesPopulated,
            final(self).table_config == old(self).table_config,
            final(self).entry_point == old(self).entry_point,
            final(self).stack_top == old(self).stack_top,
            old(self).table_config matches Some(c) ==> {
                &&& c.matches(r.0@)
                &&& r.1 == c.pml4
            },
    {
        let config = self.table_config.as_ref().unwrap();
        let (arena, root) = config.init_page_tables();
        self.stage = Stage::PageTablesPopulated;
        (arena, root)
    }

    /// Hand out the values of the final, indivisible transfer: stack top,
    /// root table, entry point.  The caller loads them and jumps with the
    /// handoff record's address in the first argument register; nothing
    /// runs in the loader afterwards.
    pub fn transfer(&mut self) -> (r: TransferArgs)
        requires
            old(self).stage == Stage::PageTablesPopulated,
            old(self).wf(),
        ensures
            final(self).stage == Stage::Transferred,
            r.stack_top == old(self).stack_top,
            r.entry_point == old(self).entry_point,
            old(self).table_config matches Some(c) ==> r.page_table_root == c.pml4,
    {
        let config = self.table_config.as_ref().unwrap();
        let root = config.root();
        self.stage = Stage::Transferred;
        TransferArgs { stack_top: self.stack_top, page_table_root: root, entry_point: self.entry_point }
    }
}

} // verus!
