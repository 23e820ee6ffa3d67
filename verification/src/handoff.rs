use vstd::prelude::*;

verus! {

/// Firmware memory-type code for conventional (free) memory.
pub const MEM_CONVENTIONAL: u32 = 7;
/// Firmware memory-type code for loader code.
pub const MEM_LOADER_CODE: u32 = 1;
/// Firmware memory-type code for loader data.
pub const MEM_LOADER_DATA: u32 = 2;
/// Firmware memory-type code for boot-services code.
pub const MEM_BOOT_SERVICES_CODE: u32 = 3;
/// Firmware memory-type code for boot-services data.
pub const MEM_BOOT_SERVICES_DATA: u32 = 4;

/// What a region of physical memory is to the kernel.
#[derive(Clone, Copy, Debug, PartialEq, Eq, Structural)]
pub enum MemoryRegionKind {
    /// Free for the kernel to use.
    Usable,
    /// Still holding the loader's code and data, or firmware boot-services
    /// memory the kernel may reclaim.
    Bootloader,
    /// Any other firmware-reported type, with the original code preserved.
    UnknownUefi(u32),
}

/// One region of the normalized memory map handed to the kernel.
#[derive(Clone, Copy, Debug, PartialEq, Eq, Structural)]
pub struct MemoryRegion {
    /// First physical address of the region.
    pub start: u64,
    /// First physical address past the region.
    pub end: u64,
    /// What the region is to the kernel.
    pub kind: MemoryRegionKind,
}

/// One entry of the firmware's raw memory map, reduced to plain values.
#[derive(Clone, Copy, Debug, PartialEq, Eq, Structural)]
pub struct MemoryDescriptor {
    /// First physical address the entry covers.
    pub phys_start: u64,
    /// Number of finest-granularity pages the entry covers.
    pub page_count: u64,
    /// The firmware's memory-type code.
    pub ty: u32,
}

/// The normalized kind of a firmware memory-type code: conventional memory
/// becomes usable, loader and boot-services memory becomes bootloader, and
/// every other code is preserved as unknown.
pub open spec fn spec_convert_memory_type(ty: u32) -> MemoryRegionKind {
    if ty == MEM_CONVENTIONAL {
        MemoryRegionKind::Usable
    } else if ty == MEM_LOADER_CODE || ty == MEM_LOADER_DATA || ty == MEM_BOOT_SERVICES_CODE
        || ty == MEM_BOOT_SERVICES_DATA {
        MemoryRegionKind::Bootloader
    } else {
        MemoryRegionKind::UnknownUefi(ty)
    }
}

/// Normalize one firmware memory-type code.
pub fn convert_memory_type(ty: u32) -> (r: MemoryRegionKind)
    ensures
        r == spec_convert_memory_type(ty),
{
    if ty == MEM_CONVENTIONAL {
        MemoryRegionKind::Usable
    } else if ty == MEM_LOADER_CODE || ty == MEM_LOADER_DATA || ty == MEM_BOOT_SERVICES_CODE
        || ty == MEM_BOOT_SERVICES_DATA {
        MemoryRegionKind::Bootloader
    } else {
        MemoryRegionKind::UnknownUefi(ty)
    }
}

/// The region an entry of the raw map becomes.
pub open spec fn spec_convert_region(d: MemoryDescriptor) -> MemoryRegion {
    MemoryRegion {
        start: d.phys_start,
        end: (d.phys_start + d.page_count * 4096) as u64,
        kind: spec_convert_memory_type(d.ty),
    }
}

/// Convert the firmware memory map, entry for entry and in order, into the
/// normalized region list handed to the kernel.
pub fn build_memory_regions(descs: &Vec<MemoryDescriptor>) -> (r: Vec<MemoryRegion>)
    requires
        forall|i: int|
            0 <= i < descs@.len() ==> (#[trigger] descs@[i]).phys_start + descs@[i].page_count
                * 4096 <= u64::MAX,
    ensures
        r@.len() == descs@.len(),
        forall|i: int|
            0 <= i < descs@.len() ==> #[trigger] r@[i] == spec_convert_region(descs@[i]),
{
    let mut out: Vec<MemoryRegion> = Vec::new();
    let n = descs.len();
    let mut i: usize = 0;
    while i < n
        invariant
            n == descs@.len(),
            i <= n,
            out@.len() == i,
            forall|j: int|
                0 <= j < descs@.len() ==> (#[trigger] descs@[j]).phys_start + descs@[j].page_count
                    * 4096 <= u64::MAX,
            forall|j: int| 0 <= j < i ==> #[trigger] out@[j] == spec_convert_region(descs@[j]),
        decreases n - i,
    {
        let d = descs[i];
        let kind = convert_memory_type(d.ty);
        let end = d.phys_start + d.page_count * 4096;
        out.push(MemoryRegion { start: d.phys_start, end, kind });
        i = i + 1;
    }
    out
}

/// How pixels are laid out in the framebuffer.
#[derive(Clone, Copy, Debug, PartialEq, Eq, Structural)]
pub enum PixelFormat {
    /// One byte each of red, green and blue, in that order.
    Rgb,
    /// One byte each of blue, green and red, in that order.
    Bgr,
    /// Some other layout, described by the bit position of each channel.
    Unknown {
        /// Bit position of the red channel.
        red_position: u8,
        /// Bit position of the green channel.
        green_position: u8,
        /// Bit position of the blue channel.
        blue_position: u8,
    },
}

/// Firmware pixel-format code for byte-order red, green, blue.
pub const PIXEL_RGB: u32 = 0;
/// Firmware pixel-format code for byte-order blue, green, red.
pub const PIXEL_BGR: u32 = 1;

/// The normalized pixel format of a firmware graphics-mode code: the two
/// byte orders are named, anything else is reported as unknown with the
/// default 8-bit channel positions.
pub open spec fn spec_convert_pixel_format(code: u32) -> PixelFormat {
    if code == PIXEL_RGB {
        PixelFormat::Rgb
    } else if code == PIXEL_BGR {
        PixelFormat::Bgr
    } else {
        PixelFormat::Unknown { red_position: 0, green_position: 8, blue_position: 16 }
    }
}

/// Normalize one firmware pixel-format code.
pub fn convert_pixel_format(code: u32) -> (r: PixelFormat)
    ensures
        r == spec_convert_pixel_format(code),
{
    if code == PIXEL_RGB {
        PixelFormat::Rgb
    } else if code == PIXEL_BGR {
        PixelFormat::Bgr
    } else {
        PixelFormat::Unknown { red_position: 0, green_position: 8, blue_position: 16 }
    }
}

/// Geometry and layout of the platform framebuffer.
#[derive(Clone, Copy, Debug, PartialEq, Eq, Structural)]
pub struct FrameBufferInfo {
    /// Visible pixels per row.
    pub width: usize,
    /// Visible rows.
    pub height: usize,
    /// Pixels per scanline, including any invisible padding.
    pub stride: usize,
    /// Bytes each pixel occupies.
    pub bytes_per_pixel: usize,
    /// How the channels sit within a pixel.
    pub pixel_format: PixelFormat,
}

/// The platform framebuffer: where it sits in physical memory and how to
/// draw into it.
#[derive(Clone, Copy, Debug, PartialEq, Eq, Structural)]
pub struct FrameBuffer {
    /// Physical address of the first byte.
    pub addr: u64,
    /// Size of the mapped framebuffer in bytes.
    pub size: usize,
    /// Geometry and pixel layout.
    pub info: FrameBufferInfo,
}

impl FrameBuffer {
    /// Assemble a framebuffer description.
    pub fn new(addr: u64, size: usize, info: FrameBufferInfo) -> (r: FrameBuffer)
        ensures
            r == (FrameBuffer { addr, size, info }),
    {
        FrameBuffer { addr, size, info }
    }
}

/// Which ACPI root-pointer revision a firmware configuration-table entry
/// carries.
#[derive(Clone, Copy, Debug, PartialEq, Eq, Structural)]
pub enum AcpiTableKind {
    /// An ACPI 2.0 or later root pointer.
    V2,
    /// An ACPI 1.0 root pointer.
    V1,
    /// Some other configuration-table entry.
    Other,
}

/// One firmware configuration-table entry, reduced to plain values.
#[derive(Clone, Copy, Debug, PartialEq, Eq, Structural)]
pub struct AcpiEntry {
    /// Which table the entry announces.
    pub kind: AcpiTableKind,
    /// Physical address of the announced table.
    pub address: u64,
}

/// Address of the first entry of kind `k` among the first `i` entries.
pub open spec fn spec_first_of(s: Seq<AcpiEntry>, k: AcpiTableKind, i: int) -> Option<u64>
    decreases i,
{
    if i <= 0 {
        None
    } else if spec_first_of(s, k, i - 1) is Some {
        spec_first_of(s, k, i - 1)
    } else if s[i - 1].kind == k {
        Some(s[i - 1].address)
    } else {
        None
    }
}

/// The ACPI root pointer the collector reports: the first entry of the
/// newer revision when one exists, else the first of the older revision,
/// else none.
pub open spec fn spec_select_acpi(s: Seq<AcpiEntry>) -> Option<u64> {
    match spec_first_of(s, AcpiTableKind::V2, s.len() as int) {
        Some(a) => Some(a),
        None => spec_first_of(s, AcpiTableKind::V1, s.len() as int),
    }
}

/// Pick the ACPI root pointer out of the firmware configuration table,
/// preferring the newer revision over the older one.
pub fn select_acpi_pointer(entries: &Vec<AcpiEntry>) -> (r: Option<u64>)
    ensures
        r == spec_select_acpi(entries@),
{
    let mut v2: Option<u64> = None;
    let mut v1: Option<u64> = None;
    let n = entries.len();
    let mut i: usize = 0;
    while i < n
        invariant
            n == entries@.len(),
            i <= n,
            v2 == spec_first_of(entries@, AcpiTableKind::V2, i as int),
            v1 == spec_first_of(entries@, AcpiTableKind::V1, i as int),
        decreases n - i,
    {
        let e = entries[i];
        if v2.is_none() && matches!(e.kind, AcpiTableKind::V2) {
            v2 = Some(e.address);
        } else if v1.is_none() && matches!(e.kind, AcpiTableKind::V1) {
            v1 = Some(e.address);
        }
        i = i + 1;
    }
    match v2 {
        Some(a) => Some(a),
        None => v1,
    }
}

/// Everything the loader hands the kernel at the jump: the normalized
/// memory map, the framebuffer if the platform has one, the direct map's
/// virtual offset, and the ACPI root pointer if the firmware announced one.
pub struct BootInfo {
    /// The normalized memory map; ownership passes to the kernel.
    pub memory_regions: Vec<MemoryRegion>,
    /// The platform framebuffer, when present.
    pub framebuffer: Option<FrameBuffer>,
    /// Virtual offset of the physical-memory direct map, when one was built.
    pub physical_memory_offset: Option<u64>,
    /// Physical address of the ACPI root pointer, when present.
    pub rsdp_addr: Option<u64>,
}

impl BootInfo {
    /// An empty record, before the collector has run.
    pub fn new() -> (r: BootInfo)
        ensures
            r.memory_regions@.len() == 0,
            r.framebuffer is None,
            r.physical_memory_offset is None,
            r.rsdp_addr is None,
    {
        BootInfo {
            memory_regions: Vec::new(),
            framebuffer: None,
            physical_memory_offset: None,
            rsdp_addr: None,
        }
    }
}

} // verus!
