use alpheratz::elf::ImageError;
use alpheratz::elf::analyze_image;
use alpheratz::loader::check_destinations_disjoint;
use alpheratz::loader::load_segments;
use alpheratz::page_table::aarch64;

/// Build a synthetic 64-bit little-endian kernel image from segment
/// descriptions: (virtual address, file offset, file size, memory size,
/// fill byte).
fn make_elf(entry: u64, segs: &[(u64, u64, u64, u64, u8)]) -> Vec<u8> {
    let phnum = segs.len() as u16;
    let mut total = 64 + 56 * segs.len();
    for s in segs {
        let end = (s.1 + s.2) as usize;
        if end > total {
            total = end;
        }
    }
    let mut out = vec![0u8; total];
    out[0] = 0x7f;
    out[1] = 0x45;
    out[2] = 0x4c;
    out[3] = 0x46;
    out[4] = 2; // 64-bit
    out[5] = 1; // little-endian
    out[24..32].copy_from_slice(&entry.to_le_bytes());
    out[32..40].copy_from_slice(&64u64.to_le_bytes()); // program headers follow the header
    out[54..56].copy_from_slice(&56u16.to_le_bytes());
    out[56..58].copy_from_slice(&phnum.to_le_bytes());
    for (i, s) in segs.iter().enumerate() {
        let base = 64 + 56 * i;
        out[base..base + 4].copy_from_slice(&1u32.to_le_bytes()); // loadable
        out[base + 8..base + 16].copy_from_slice(&s.1.to_le_bytes());
        out[base + 16..base + 24].copy_from_slice(&s.0.to_le_bytes());
        out[base + 32..base + 40].copy_from_slice(&s.2.to_le_bytes());
        out[base + 40..base + 48].copy_from_slice(&s.3.to_le_bytes());
        for b in 0..s.2 as usize {
            out[s.1 as usize + b] = s.4;
        }
    }
    out
}

#[test]
fn analyze_reads_entry_span_and_segments() {
    let image = make_elf(
        0x100010,
        &[(0x100000, 0x200, 0x1000, 0x1000, 0xAA), (0x101000, 0x1200, 0x800, 0x2000, 0xBB)],
    );
    let layout = analyze_image(&image).unwrap();
    assert_eq!(layout.entry_point, 0x100010);
    assert_eq!(layout.min_virtual, 0x100000);
    assert_eq!(layout.max_virtual, 0x103000);
    assert_eq!(layout.segments.len(), 2);
    assert_eq!(layout.segments[0].virtual_address, 0x100000);
    assert_eq!(layout.segments[0].file_offset, 0x200);
    assert_eq!(layout.segments[0].file_size, 0x1000);
    assert_eq!(layout.segments[0].memory_size, 0x1000);
    assert_eq!(layout.segments[1].virtual_address, 0x101000);
    assert_eq!(layout.segments[1].memory_size, 0x2000);
    assert_eq!(layout.span(), 0x3000);
}

#[test]
fn analyze_rejects_malformed_images() {
    assert_eq!(analyze_image(&vec![0u8; 10]).err(), Some(ImageError::TooShort));

    let mut bad_magic = make_elf(0, &[(0x1000, 0x100, 8, 8, 1)]);
    bad_magic[0] = 0x7e;
    assert_eq!(analyze_image(&bad_magic).err(), Some(ImageError::BadMagic));

    let mut bad_class = make_elf(0, &[(0x1000, 0x100, 8, 8, 1)]);
    bad_class[4] = 1;
    assert_eq!(analyze_image(&bad_class).err(), Some(ImageError::UnsupportedClass));

    let mut bad_endian = make_elf(0, &[(0x1000, 0x100, 8, 8, 1)]);
    bad_endian[5] = 2;
    assert_eq!(analyze_image(&bad_endian).err(), Some(ImageError::UnsupportedEncoding));

    let none = make_elf(0, &[]);
    assert_eq!(analyze_image(&none).err(), Some(ImageError::NoLoadableSegments));

    // memory size below file size
    let sizes = make_elf(0, &[(0x1000, 0x100, 0x10, 0x8, 1)]);
    assert_eq!(analyze_image(&sizes).err(), Some(ImageError::BadSegmentSizes));

    // file bytes beyond the image
    let mut oob = make_elf(0, &[(0x1000, 0x100, 8, 8, 1)]);
    let base = 64;
    oob[base + 32..base + 40].copy_from_slice(&0x10_0000u64.to_le_bytes());
    oob[base + 40..base + 48].copy_from_slice(&0x10_0000u64.to_le_bytes());
    assert_eq!(analyze_image(&oob).err(), Some(ImageError::SegmentOutOfBounds));

    // a virtual range wrapping the address space
    let mut wrap = make_elf(0, &[(0x1000, 0x100, 8, 8, 1)]);
    wrap[base + 16..base + 24].copy_from_slice(&u64::MAX.to_le_bytes());
    wrap[base + 40..base + 48].copy_from_slice(&0x1000u64.to_le_bytes());
    assert_eq!(analyze_image(&wrap).err(), Some(ImageError::AddressOverflow));

    // a program-header entry size other than the format's
    let mut entsize = make_elf(0, &[(0x1000, 0x100, 8, 8, 1)]);
    entsize[54..56].copy_from_slice(&64u16.to_le_bytes());
    assert_eq!(analyze_image(&entsize).err(), Some(ImageError::BadProgramHeaders));

    // a program-header table beyond the buffer
    let mut offs = make_elf(0, &[(0x1000, 0x100, 8, 8, 1)]);
    offs[32..40].copy_from_slice(&0x10_0000u64.to_le_bytes());
    assert_eq!(analyze_image(&offs).err(), Some(ImageError::BadProgramHeaders));
}

#[test]
fn loader_copies_and_zero_fills() {
    // segment zero-fill: bytes between file size and memory size come out zero
    let image = make_elf(0, &[(0x5000, 0x200, 0x10, 0x30, 0xCD)]);
    let layout = analyze_image(&image).unwrap();
    let block = load_segments(&image, &layout);
    assert_eq!(block.len(), 0x30);
    for k in 0..0x10 {
        assert_eq!(block[k], 0xCD);
    }
    for k in 0x10..0x30 {
        assert_eq!(block[k], 0, "tail byte {k:#x} must be zero-filled");
    }
}

#[test]
fn loader_places_segments_at_their_span_offsets() {
    let image = make_elf(
        0,
        &[(0x100000, 0x200, 0x1000, 0x1000, 0xAA), (0x101000, 0x1200, 0x800, 0x2000, 0xBB)],
    );
    let layout = analyze_image(&image).unwrap();
    assert!(check_destinations_disjoint(&layout));
    let block = load_segments(&image, &layout);
    assert_eq!(block.len(), 0x3000);
    for k in 0..0x1000 {
        assert_eq!(block[k], 0xAA);
    }
    for k in 0x1000..0x1800 {
        assert_eq!(block[k], 0xBB);
    }
    for k in 0x1800..0x3000 {
        assert_eq!(block[k], 0, "bytes beyond the second segment's file bytes must be zero");
    }
}

#[test]
fn overlap_detection() {
    let overlapping = make_elf(
        0,
        &[(0x100000, 0x200, 0x1000, 0x2000, 1), (0x101000, 0x1200, 0x800, 0x800, 2)],
    );
    let layout = analyze_image(&overlapping).unwrap();
    assert!(!check_destinations_disjoint(&layout));
}

#[test]
fn end_to_end_scenario() {
    // a two-segment synthetic image, loaded and mapped at the finest
    // granularity
    let image = make_elf(
        0x100010,
        &[(0x100000, 0x200, 0x1000, 0x1000, 0xAA), (0x101000, 0x1200, 0x800, 0x2000, 0xBB)],
    );
    let layout = analyze_image(&image).unwrap();
    assert_eq!(layout.entry_point, 0x100010);
    let block = load_segments(&image, &layout);
    // the second segment's range beyond its file bytes is zero
    for k in 0x1800..0x3000 {
        assert_eq!(block[k], 0);
    }
    // phase A: plan and reserve; phase B: fill
    let span = layout.max_virtual - layout.min_virtual;
    let plan = aarch64::plan_page_tables(0x400000, span, layout.min_virtual).unwrap();
    // the span [0x100000, 0x103000) takes three leaf pages of one leaf table
    assert_eq!(plan.kernel_4k_pages, 3);
    assert_eq!(plan.l3_count, 1);
    let config = aarch64::PageTableConfig::from_plan(&plan, 0x600000);
    let (arena, root) = config.init_page_tables();
    // the kernel mapping covers exactly the span, page by page
    for p in 0..3u64 {
        let (phys, desc) =
            config.translate_high(&arena, 0x100000 + p * 0x1000).expect("kernel page not mapped");
        assert_eq!(phys, 0x400000 + p * 0x1000);
        assert_eq!(desc % 4, 3);
    }
    assert_eq!(config.translate_high(&arena, 0x103000), None);
    assert_eq!(config.translate_high(&arena, 0xFF000), None);
    // the returned root is non-null and page-aligned
    assert!(root != 0);
    assert_eq!(root % 4096, 0);
    assert!(config.ttbr1() != 0);
    assert_eq!(config.ttbr1() % 4096, 0);
}
