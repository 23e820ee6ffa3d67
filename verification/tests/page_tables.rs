use alpheratz::page_table::PageTableError;
use alpheratz::page_table::aarch64;
use alpheratz::page_table::loongarch64;
use alpheratz::page_table::riscv64;
use alpheratz::page_table::x86_64;

#[test]
fn x86_64_kernel_round_trip() {
    // a synthetic kernel of three pages at the canonical high-half base
    let plan = x86_64::plan_page_tables(0x200000, 0x3000, 0xFFFF_FFFF_8000_0000).unwrap();
    assert_eq!(plan.kernel_4k_pages, 3);
    assert_eq!(plan.pt_count, 1);
    assert_eq!(plan.kernel_pml4_index, 511);
    assert_eq!(plan.kernel_pdpt_index, 510);
    assert_eq!(plan.kernel_pd_index, 0);
    assert_eq!(plan.kernel_pt_start, 0);
    let config = x86_64::PageTableConfig::from_plan(&plan, 0x100000);
    let (arena, root) = config.init_page_tables();
    assert_eq!(root, 0x100000);
    assert_eq!(arena.len(), (13 + 1) * 512);
    let expectations = [
        (0xFFFF_FFFF_8000_0000u64, 0x200000u64),
        (0xFFFF_FFFF_8000_1000, 0x201000),
        (0xFFFF_FFFF_8000_2000, 0x202000),
    ];
    for (va, pa) in expectations {
        let (phys, leaf) = config.translate(&arena, va).expect("kernel page not mapped");
        assert_eq!(phys, pa);
        assert_eq!(leaf % 2, 1, "leaf entry must be present");
        assert_eq!((leaf / 2) % 2, 1, "leaf entry must be writable");
    }
}

#[test]
fn x86_64_unmapped_address_resolves_to_none() {
    let plan = x86_64::plan_page_tables(0x200000, 0x3000, 0xFFFF_FFFF_8000_0000).unwrap();
    let config = x86_64::PageTableConfig::from_plan(&plan, 0x100000);
    let (arena, _) = config.init_page_tables();
    // one page past the kernel span
    assert_eq!(config.translate(&arena, 0xFFFF_FFFF_8000_3000), None);
    // a high-half slot nothing maps
    assert_eq!(config.translate(&arena, 0xFFFF_F000_0000_0000), None);
}

#[test]
fn x86_64_identity_and_direct_map() {
    let plan = x86_64::plan_page_tables(0x200000, 0x3000, 0xFFFF_FFFF_8000_0000).unwrap();
    let config = x86_64::PageTableConfig::from_plan(&plan, 0x100000);
    let (arena, _) = config.init_page_tables();
    for pa in [0u64, 0x1000, 0x12345678, 0x7FFF_F000, 0xFFFF_FFFF] {
        let (phys, leaf) = config.translate(&arena, pa).expect("identity map hole");
        assert_eq!(phys, pa);
        assert_eq!(leaf % 2, 1);
        assert_eq!((leaf / 128) % 2, 1, "identity map uses huge pages");
        let (dphys, dleaf) = config
            .translate(&arena, x86_64::PHYSICAL_MEMORY_OFFSET + pa)
            .expect("direct map hole");
        assert_eq!(dphys, pa);
        assert_eq!(dleaf % 2, 1);
    }
}

#[test]
fn x86_64_plan_rejections() {
    assert_eq!(
        x86_64::plan_page_tables(0x200000, 0, 0xFFFF_FFFF_8000_0000),
        Err(PageTableError::EmptyImage)
    );
    assert_eq!(
        x86_64::plan_page_tables(0x200001, 0x1000, 0xFFFF_FFFF_8000_0000),
        Err(PageTableError::MisalignedPhysicalBase)
    );
    assert_eq!(
        x86_64::plan_page_tables(0x200000, 0x1000, 0xFFFF_FFFF_8000_0001),
        Err(PageTableError::MisalignedVirtualBase)
    );
    assert_eq!(
        x86_64::plan_page_tables(0x200000, 0x4000_0001, 0xFFFF_FFFF_8000_0000),
        Err(PageTableError::SpanTooLarge)
    );
    // the identity map's root slot
    assert_eq!(
        x86_64::plan_page_tables(0x200000, 0x1000, 0x100000),
        Err(PageTableError::ReservedRootSlot)
    );
    // the direct map's root slot
    assert_eq!(
        x86_64::plan_page_tables(0x200000, 0x1000, 0xFFFF_8000_0000_0000),
        Err(PageTableError::ReservedRootSlot)
    );
    // straddles a 1 GiB window
    assert_eq!(
        x86_64::plan_page_tables(0x200000, 0x2000, 0xFFFF_FFFF_FFFF_F000),
        Err(PageTableError::SpanTooLarge)
    );
    // a physical block too high to map
    assert_eq!(
        x86_64::plan_page_tables(0x10_0000_0000_0000, 0x1000, 0xFFFF_FFFF_8000_0000),
        Err(PageTableError::PhysicalBaseTooHigh)
    );
}

#[test]
fn riscv64_kernel_round_trip_and_satp() {
    let plan = riscv64::plan_page_tables(0x200000, 0x3000, 0xFFFF_FFC0_0000_0000).unwrap();
    assert_eq!(plan.kernel_root_index, 256);
    assert_eq!(plan.l0_count, 1);
    let config = riscv64::PageTableConfig::from_plan(&plan, 0x600000);
    let (arena, root) = config.init_page_tables();
    assert_eq!(root, 0x600000);
    assert_eq!(config.root(), 0x600000);
    assert_eq!(config.satp_value(), 0x8000_0000_0000_0000u64 + 0x600000 / 4096);
    for (i, va) in [0xFFFF_FFC0_0000_0000u64, 0xFFFF_FFC0_0000_1000, 0xFFFF_FFC0_0000_2000]
        .iter()
        .enumerate()
    {
        let (phys, pte) = config.translate(&arena, *va).expect("kernel page not mapped");
        assert_eq!(phys, 0x200000 + (i as u64) * 0x1000);
        assert_eq!(pte % 2, 1);
        assert_eq!((pte / 4) % 2, 1, "kernel pages must be writable");
    }
}

#[test]
fn riscv64_identity_and_direct_map() {
    let plan = riscv64::plan_page_tables(0x200000, 0x3000, 0xFFFF_FFC0_0000_0000).unwrap();
    let config = riscv64::PageTableConfig::from_plan(&plan, 0x600000);
    let (arena, _) = config.init_page_tables();
    for pa in [0u64, 0x40000000, 0x12345678, 0xFFFF_FFFF] {
        let (phys, _) = config.translate(&arena, pa).expect("identity map hole");
        assert_eq!(phys, pa);
        let (dphys, _) = config
            .translate(&arena, riscv64::PHYSICAL_MEMORY_OFFSET + pa)
            .expect("direct map hole");
        assert_eq!(dphys, pa);
    }
}

#[test]
fn riscv64_plan_rejects_reserved_slots() {
    // inside the identity gigapages
    assert_eq!(
        riscv64::plan_page_tables(0x200000, 0x1000, 0x4000_0000),
        Err(PageTableError::ReservedRootSlot)
    );
    // inside the direct-map gigapages
    assert_eq!(
        riscv64::plan_page_tables(0x200000, 0x1000, 0xFFFF_FFE0_0000_0000),
        Err(PageTableError::ReservedRootSlot)
    );
}

#[test]
fn aarch64_kernel_round_trip_two_roots() {
    // the default high-half kernel base: L0 slot 0 of TTBR1
    let plan = aarch64::plan_page_tables(0x200000, 0x3000, 0xFFFF_0000_0000_0000).unwrap();
    assert_eq!(plan.kernel_l0_index, 0);
    assert_eq!(plan.l3_count, 1);
    let config = aarch64::PageTableConfig::from_plan(&plan, 0x600000);
    let (arena, ttbr0) = config.init_page_tables();
    assert_eq!(ttbr0, 0x600000);
    assert_eq!(config.ttbr0(), 0x600000);
    assert_eq!(config.ttbr1(), 0x600000 + 2 * 4096);
    for (i, va) in [0xFFFF_0000_0000_0000u64, 0xFFFF_0000_0000_1000, 0xFFFF_0000_0000_2000]
        .iter()
        .enumerate()
    {
        let (phys, desc) = config.translate_high(&arena, *va).expect("kernel page not mapped");
        assert_eq!(phys, 0x200000 + (i as u64) * 0x1000);
        assert_eq!(desc % 4, 3, "a valid page descriptor");
    }
    // identity map lives in the low-half walk only
    for pa in [0u64, 0x12345678, 0xFFFF_FFFF] {
        let (phys, desc) = config.translate_low(&arena, pa).expect("identity map hole");
        assert_eq!(phys, pa);
        assert_eq!(desc % 4, 1, "a 1 GiB block descriptor");
    }
    // direct map lives in the high-half walk
    for pa in [0u64, 0x4000_0000, 0xFFFF_FFFF] {
        let (phys, _) = config
            .translate_high(&arena, aarch64::PHYSICAL_MEMORY_OFFSET + pa)
            .expect("direct map hole");
        assert_eq!(phys, pa);
    }
}

#[test]
fn loongarch64_kernel_walk_and_windows() {
    let plan = loongarch64::plan_page_tables(0x200000, 0x3000, 0xFFFF_FFFF_8000_0000).unwrap();
    assert_eq!(plan.pte_count, 1);
    let config = loongarch64::PageTableConfig::from_plan(&plan, 0x600000);
    let (arena, pgd) = config.init_page_tables();
    assert_eq!(pgd, 0x600000);
    assert_eq!(config.pgd(), 0x600000);
    assert_eq!(config.dmw0(), 0x8000_0000_0000_0001);
    assert_eq!(config.dmw1(), 0x9000_0000_0000_0011);
    for (i, va) in [0xFFFF_FFFF_8000_0000u64, 0xFFFF_FFFF_8000_1000, 0xFFFF_FFFF_8000_2000]
        .iter()
        .enumerate()
    {
        let (phys, pte) = config.translate(&arena, *va).expect("kernel page not mapped");
        assert_eq!(phys, 0x200000 + (i as u64) * 0x1000);
        assert_eq!(pte % 2, 1, "valid");
        assert_eq!((pte / 2) % 2, 1, "dirty, so writable");
    }
    assert_eq!(config.translate(&arena, 0xFFFF_FFFF_8000_3000), None);
}
