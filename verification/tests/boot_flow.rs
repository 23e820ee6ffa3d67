use alpheratz::handoff::AcpiEntry;
use alpheratz::handoff::AcpiTableKind;
use alpheratz::handoff::BootInfo;
use alpheratz::handoff::FrameBuffer;
use alpheratz::handoff::FrameBufferInfo;
use alpheratz::handoff::MemoryDescriptor;
use alpheratz::handoff::MemoryRegionKind;
use alpheratz::handoff::PixelFormat;
use alpheratz::handoff::build_memory_regions;
use alpheratz::handoff::convert_memory_type;
use alpheratz::handoff::convert_pixel_format;
use alpheratz::handoff::select_acpi_pointer;
use alpheratz::page_table::x86_64;
use alpheratz::placement::PlacementRange;
use alpheratz::placement::kernel_block_pages;
use alpheratz::placement::stack_pages;
use alpheratz::placement::stack_top;
use alpheratz::page_table::PageTableError;
use alpheratz::sequencer::BootError;
use alpheratz::sequencer::Sequencer;
use alpheratz::sequencer::Stage;

fn make_elf(entry: u64, segs: &[(u64, u64, u64, u64, u8)]) -> Vec<u8> {
    let phnum = segs.len() as u16;
    let mut total = 64 + 56 * segs.len();
    for s in segs {
        let end = (s.1 + s.2) as usize;
        if end > total {
            total = end;
        }
    }
    let mut out = vec![0u8; total];
    out[0] = 0x7f;
    out[1] = 0x45;
    out[2] = 0x4c;
    out[3] = 0x46;
    out[4] = 2;
    out[5] = 1;
    out[24..32].copy_from_slice(&entry.to_le_bytes());
    out[32..40].copy_from_slice(&64u64.to_le_bytes());
    out[54..56].copy_from_slice(&56u16.to_le_bytes());
    out[56..58].copy_from_slice(&phnum.to_le_bytes());
    for (i, s) in segs.iter().enumerate() {
        let base = 64 + 56 * i;
        out[base..base + 4].copy_from_slice(&1u32.to_le_bytes());
        out[base + 8..base + 16].copy_from_slice(&s.1.to_le_bytes());
        out[base + 16..base + 24].copy_from_slice(&s.0.to_le_bytes());
        out[base + 32..base + 40].copy_from_slice(&s.2.to_le_bytes());
        out[base + 40..base + 48].copy_from_slice(&s.3.to_le_bytes());
        for b in 0..s.2 as usize {
            out[s.1 as usize + b] = s.4;
        }
    }
    out
}

#[test]
fn region_kind_conversion() {
    // conventional memory converts to usable
    assert_eq!(convert_memory_type(7), MemoryRegionKind::Usable);
    // loader and boot-services memory converts to bootloader
    assert_eq!(convert_memory_type(1), MemoryRegionKind::Bootloader);
    assert_eq!(convert_memory_type(2), MemoryRegionKind::Bootloader);
    assert_eq!(convert_memory_type(3), MemoryRegionKind::Bootloader);
    assert_eq!(convert_memory_type(4), MemoryRegionKind::Bootloader);
    // every other tag keeps its original code
    for code in [0u32, 5, 6, 8, 9, 10, 11, 12, 13, 14, 0xdead] {
        assert_eq!(convert_memory_type(code), MemoryRegionKind::UnknownUefi(code));
    }
}

#[test]
fn memory_regions_cover_the_map_in_order() {
    let descs = vec![
        MemoryDescriptor { phys_start: 0, page_count: 0xA0, ty: 7 },
        MemoryDescriptor { phys_start: 0x100000, page_count: 0x100, ty: 2 },
        MemoryDescriptor { phys_start: 0x200000, page_count: 0x10, ty: 11 },
    ];
    let regions = build_memory_regions(&descs);
    assert_eq!(regions.len(), 3);
    assert_eq!(regions[0].start, 0);
    assert_eq!(regions[0].end, 0xA0000);
    assert_eq!(regions[0].kind, MemoryRegionKind::Usable);
    assert_eq!(regions[1].start, 0x100000);
    assert_eq!(regions[1].end, 0x200000);
    assert_eq!(regions[1].kind, MemoryRegionKind::Bootloader);
    assert_eq!(regions[2].end, 0x210000);
    assert_eq!(regions[2].kind, MemoryRegionKind::UnknownUefi(11));
}

#[test]
fn handoff_record_starts_empty() {
    let info = BootInfo::new();
    assert!(info.memory_regions.is_empty());
    assert!(info.framebuffer.is_none());
    assert!(info.physical_memory_offset.is_none());
    assert!(info.rsdp_addr.is_none());
}

#[test]
fn pixel_format_conversion() {
    assert_eq!(convert_pixel_format(0), PixelFormat::Rgb);
    assert_eq!(convert_pixel_format(1), PixelFormat::Bgr);
    assert_eq!(
        convert_pixel_format(2),
        PixelFormat::Unknown { red_position: 0, green_position: 8, blue_position: 16 }
    );
    assert_eq!(
        convert_pixel_format(3),
        PixelFormat::Unknown { red_position: 0, green_position: 8, blue_position: 16 }
    );
}

#[test]
fn acpi_pointer_prefers_the_newer_revision() {
    let v1 = AcpiEntry { kind: AcpiTableKind::V1, address: 0x1000 };
    let v2 = AcpiEntry { kind: AcpiTableKind::V2, address: 0x2000 };
    let other = AcpiEntry { kind: AcpiTableKind::Other, address: 0x3000 };
    // the newer revision wins even when the older one comes first
    assert_eq!(select_acpi_pointer(&vec![other, v1, v2]), Some(0x2000));
    assert_eq!(select_acpi_pointer(&vec![v2, v1]), Some(0x2000));
    assert_eq!(select_acpi_pointer(&vec![other, v1]), Some(0x1000));
    assert_eq!(select_acpi_pointer(&vec![other]), None);
    assert_eq!(select_acpi_pointer(&vec![]), None);
    // among two entries of one revision, the first wins
    let v2b = AcpiEntry { kind: AcpiTableKind::V2, address: 0x4000 };
    assert_eq!(select_acpi_pointer(&vec![v2, v2b]), Some(0x2000));
}

#[test]
fn placement_rounding_and_stack() {
    // the block is rounded up to whole huge pages, counted in 4 KiB pages
    assert_eq!(kernel_block_pages(0x3000), 512);
    assert_eq!(kernel_block_pages(0x200000), 512);
    assert_eq!(kernel_block_pages(0x200001), 1024);
    assert_eq!(kernel_block_pages(1), 512);
    assert_eq!(stack_pages(), 256);
    // the stack top is the block end rounded down to 16 bytes
    assert_eq!(stack_top(0x800000), 0x900000);
    assert_eq!(stack_top(7), 0x100000);
    assert_eq!(stack_top(0x800000) % 16, 0);
}

#[test]
fn placement_range_checks_its_invariant() {
    assert!(PlacementRange::new(0x100000, 0x103000, 0x400000).is_some());
    // an empty span is refused
    assert!(PlacementRange::new(0x100000, 0x100000, 0x400000).is_none());
    // an unaligned base is refused
    assert!(PlacementRange::new(0x100000, 0x103000, 0x401000).is_none());
}

#[test]
fn full_boot_sequence() {
    let image = make_elf(
        0xFFFF_FFFF_8000_0010,
        &[
            (0xFFFF_FFFF_8000_0000, 0x200, 0x1000, 0x1000, 0xAA),
            (0xFFFF_FFFF_8000_1000, 0x1200, 0x800, 0x2000, 0xBB),
        ],
    );
    let mut seq = Sequencer::new();
    assert_eq!(seq.stage, Stage::Analyzing);

    let layout = seq.analyze(&image).unwrap();
    assert_eq!(seq.stage, Stage::Allocating);
    assert_eq!(layout.min_virtual, 0xFFFF_FFFF_8000_0000);
    assert_eq!(layout.max_virtual, 0xFFFF_FFFF_8000_3000);

    let (kernel_pages, stack_page_count) = seq.allocation_request();
    assert_eq!(kernel_pages, 512);
    assert_eq!(stack_page_count, 256);

    seq.record_allocation(0x400000, 0x800000).unwrap();
    assert_eq!(seq.stage, Stage::Loading);
    assert_eq!(seq.stack_top, 0x900000);

    let (block, plan) = seq.load_and_plan(&image, &layout).unwrap();
    assert_eq!(block.len(), 0x3000);
    assert_eq!(&block[0..4], &[0xAA, 0xAA, 0xAA, 0xAA]);
    assert_eq!(block[0x1000], 0xBB);
    assert_eq!(block[0x1800], 0);
    assert_eq!(plan.total_pages(), 14);

    seq.record_table_block(&plan, 0x600000).unwrap();
    assert_eq!(seq.stage, Stage::PageTablesReserved);

    let fb = FrameBuffer::new(
        0x8000_0000,
        0x300000,
        FrameBufferInfo {
            width: 1024,
            height: 768,
            stride: 1024,
            bytes_per_pixel: 4,
            pixel_format: convert_pixel_format(1),
        },
    );
    let acpi = vec![
        AcpiEntry { kind: AcpiTableKind::V1, address: 0xE0000 },
        AcpiEntry { kind: AcpiTableKind::V2, address: 0xE2000 },
    ];
    seq.collect(Some(fb), &acpi);
    assert_eq!(seq.stage, Stage::Collecting);
    assert_eq!(seq.rsdp_addr, Some(0xE2000));

    let descs = vec![
        MemoryDescriptor { phys_start: 0, page_count: 0x100, ty: 7 },
        MemoryDescriptor { phys_start: 0x100000, page_count: 0xF_FF00, ty: 7 },
        MemoryDescriptor { phys_start: 0x1000_0000, page_count: 0x1000, ty: 4 },
    ];
    let info = seq.shutdown(&descs);
    assert_eq!(seq.stage, Stage::ServicesShutdown);
    assert_eq!(info.memory_regions.len(), 3);
    assert_eq!(info.physical_memory_offset, Some(0xFFFF_8000_0000_0000));
    assert_eq!(info.rsdp_addr, Some(0xE2000));
    assert!(info.framebuffer.is_some());

    let (arena, root) = seq.populate();
    assert_eq!(seq.stage, Stage::PageTablesPopulated);
    assert_eq!(root, 0x600000);
    assert!(root % 4096 == 0);

    // the kernel mapping round-trips
    let config = x86_64::PageTableConfig::from_plan(&plan, 0x600000);
    for p in 0..3u64 {
        let (phys, leaf) =
            config.translate(&arena, 0xFFFF_FFFF_8000_0000 + p * 0x1000).expect("unmapped");
        assert_eq!(phys, 0x400000 + p * 0x1000);
        assert_eq!(leaf % 2, 1);
        assert_eq!((leaf / 2) % 2, 1);
    }
    // direct-map coverage: every usable address of the synthetic 4 GiB map
    // is reachable at the fixed offset
    for region in &info.memory_regions {
        if region.kind == MemoryRegionKind::Usable {
            for pa in [region.start, region.start + (region.end - region.start) / 2,
                region.end - 0x1000] {
                let (phys, _) = config
                    .translate(&arena, 0xFFFF_8000_0000_0000 + pa)
                    .expect("direct map hole");
                assert_eq!(phys, pa);
            }
        }
    }

    let args = seq.transfer();
    assert_eq!(seq.stage, Stage::Transferred);
    assert_eq!(args.stack_top, 0x900000);
    assert_eq!(args.page_table_root, 0x600000);
    assert_eq!(args.entry_point, 0xFFFF_FFFF_8000_0010);
}

#[test]
fn sequencer_rejects_bad_inputs() {
    // overlapping destinations are rejected before loading
    let overlapping = make_elf(
        0,
        &[
            (0xFFFF_FFFF_8000_0000, 0x200, 0x1000, 0x2000, 1),
            (0xFFFF_FFFF_8000_1000, 0x1200, 0x800, 0x800, 2),
        ],
    );
    let mut seq = Sequencer::new();
    assert_eq!(seq.analyze(&overlapping).err(), Some(BootError::OverlappingSegments));
    assert_eq!(seq.stage, Stage::Analyzing);

    // a malformed image reports its parse fault
    let mut seq2 = Sequencer::new();
    assert!(matches!(seq2.analyze(&vec![0u8; 3]), Err(BootError::MalformedImage(_))));

    // an unaligned kernel block is rejected
    let image = make_elf(0xFFFF_FFFF_8000_0010, &[(0xFFFF_FFFF_8000_0000, 0x200, 8, 8, 1)]);
    let mut seq3 = Sequencer::new();
    seq3.analyze(&image).unwrap();
    assert_eq!(seq3.record_allocation(0x401000, 0x800000), Err(BootError::MisalignedAllocation));
    assert_eq!(seq3.stage, Stage::Allocating);
    // a kernel block too high to map
    assert_eq!(
        seq3.record_allocation(0xF_FFFF_FFE0_0000, 0x800000),
        Err(BootError::AllocationTooHigh)
    );
    seq3.record_allocation(0x400000, 0x800000).unwrap();
    assert_eq!(seq3.stage, Stage::Loading);

    // a span of zero bytes is rejected
    let empty = make_elf(0, &[(0xFFFF_FFFF_8000_0000, 0x200, 0, 0, 0)]);
    let mut seq4 = Sequencer::new();
    assert_eq!(seq4.analyze(&empty).err(), Some(BootError::EmptySpan));

    // a span beyond one kernel mapping's reach is rejected
    let huge = make_elf(0, &[(0xFFFF_FFFF_4000_0000, 0x200, 0, 0x4000_0001, 0)]);
    let mut seq5 = Sequencer::new();
    assert_eq!(seq5.analyze(&huge).err(), Some(BootError::SpanTooLarge));

    // a kernel whose root slot collides with the identity map is rejected
    // by the table planner
    let low = make_elf(0x100010, &[(0x100000, 0x200, 0x1000, 0x1000, 3)]);
    let mut seq6 = Sequencer::new();
    let layout6 = seq6.analyze(&low).unwrap();
    seq6.record_allocation(0x400000, 0x800000).unwrap();
    assert_eq!(
        seq6.load_and_plan(&low, &layout6).err(),
        Some(BootError::PageTable(PageTableError::ReservedRootSlot))
    );
}
