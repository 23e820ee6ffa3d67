use vstd::prelude::*;

verus! {

/// Little-endian value of the two bytes of `s` starting at `off`.
pub open spec fn u16_le(s: Seq<u8>, off: int) -> int {
    s[off] as int + 0x100 * (s[off + 1] as int)
}

/// Little-endian value of the four bytes of `s` starting at `off`.
pub open spec fn u32_le(s: Seq<u8>, off: int) -> int {
    s[off] as int + 0x100 * (s[off + 1] as int) + 0x1_0000 * (s[off + 2] as int) + 0x100_0000 * (
    s[off + 3] as int)
}

/// Little-endian value of the eight bytes of `s` starting at `off`.
pub open spec fn u64_le(s: Seq<u8>, off: int) -> int {
    s[off] as int + 0x100 * (s[off + 1] as int) + 0x1_0000 * (s[off + 2] as int) + 0x100_0000 * (
    s[off + 3] as int) + 0x1_0000_0000 * (s[off + 4] as int) + 0x100_0000_0000 * (
    s[off + 5] as int) + 0x1_0000_0000_0000 * (s[off + 6] as int) + 0x100_0000_0000_0000 * (
    s[off + 7] as int)
}

/// Read a little-endian 16-bit value.
pub fn read_u16_le(b: &Vec<u8>, off: usize) -> (r: u16)
    requires
        off + 2 <= b.len(),
    ensures
        r as int == u16_le(b@, off as int),
{
    b[off] as u16 + (b[off + 1] as u16) * 0x100
}

/// Read a little-endian 32-bit value.
pub fn read_u32_le(b: &Vec<u8>, off: usize) -> (r: u32)
    requires
        off + 4 <= b.len(),
    ensures
        r as int == u32_le(b@, off as int),
{
    b[off] as u32 + (b[off + 1] as u32) * 0x100 + (b[off + 2] as u32) * 0x1_0000 + (
    b[off + 3] as u32) * 0x100_0000
}

/// Read a little-endian 64-bit value.
pub fn read_u64_le(b: &Vec<u8>, off: usize) -> (r: u64)
    requires
        off + 8 <= b.len(),
    ensures
        r as int == u64_le(b@, off as int),
{
    b[off] as u64 + (b[off + 1] as u64) * 0x100 + (b[off + 2] as u64) * 0x1_0000 + (
    b[off + 3] as u64) * 0x100_0000 + (b[off + 4] as u64) * 0x1_0000_0000 + (
    b[off + 5] as u64) * 0x100_0000_0000 + (b[off + 6] as u64) * 0x1_0000_0000_0000 + (
    b[off + 7] as u64) * 0x100_0000_0000_0000
}

/// One loadable segment of the kernel image: where its bytes sit in the
/// file, where it must live in virtual memory, and how large it is there.
#[derive(Clone, Copy, Debug, PartialEq, Eq, Structural)]
pub struct LoadableSegment {
    /// Virtual address the segment must occupy.
    pub virtual_address: u64,
    /// Offset of the segment's bytes in the image file.
    pub file_offset: u64,
    /// Number of bytes the segment has in the file.
    pub file_size: u64,
    /// Number of bytes the segment occupies in memory; the tail beyond
    /// `file_size` must be zero.
    pub memory_size: u64,
}

impl LoadableSegment {
    /// A segment is well formed for an image of `image_len` bytes when its
    /// file range lies inside the image, its memory size is no smaller than
    /// its file size, and its virtual range does not wrap.
    pub open spec fn wf(self, image_len: int) -> bool {
        &&& self.memory_size >= self.file_size
        &&& self.file_offset + self.file_size <= image_len
        &&& self.virtual_address + self.memory_size <= u64::MAX
    }
}

/// Why a byte buffer was rejected as a kernel image.
#[derive(Clone, Copy, Debug, PartialEq, Eq, Structural)]
pub enum ImageError {
    /// Shorter than one file header.
    TooShort,
    /// The magic bytes are not those of the container format.
    BadMagic,
    /// Not a 64-bit image.
    UnsupportedClass,
    /// Not little-endian.
    UnsupportedEncoding,
    /// The program-header table is malformed or out of bounds.
    BadProgramHeaders,
    /// A loadable segment's file bytes lie outside the image.
    SegmentOutOfBounds,
    /// A loadable segment declares a memory size below its file size.
    BadSegmentSizes,
    /// A loadable segment's virtual range wraps around the address space.
    AddressOverflow,
    /// The image declares no loadable segments at all.
    NoLoadableSegments,
}

/// The segment described by the program header at `base`.
pub open spec fn spec_segment(k: Seq<u8>, base: int) -> LoadableSegment {
    LoadableSegment {
        virtual_address: u64_le(k, base + 16) as u64,
        file_offset: u64_le(k, base + 8) as u64,
        file_size: u64_le(k, base + 32) as u64,
        memory_size: u64_le(k, base + 40) as u64,
    }
}

/// The loadable segments among the first `n` program headers, in table
/// order.
pub open spec fn spec_load_segments(k: Seq<u8>, phoff: int, n: int) -> Seq<LoadableSegment>
    decreases n,
{
    if n <= 0 {
        Seq::empty()
    } else {
        let rest = spec_load_segments(k, phoff, n - 1);
        let base = phoff + (n - 1) * 56;
        if u32_le(k, base) == 1 {
            rest.push(spec_segment(k, base))
        } else {
            rest
        }
    }
}

/// The first fault among the loadable segments from header `i` on, if any:
/// sizes inverted, file bytes out of bounds, or a wrapping virtual range.
pub open spec fn spec_first_segment_error(k: Seq<u8>, phoff: int, i: int, n: int) -> Option<
    ImageError,
>
    decreases n - i,
{
    if i >= n {
        None
    } else {
        let base = phoff + i * 56;
        if u32_le(k, base) == 1 {
            let s = spec_segment(k, base);
            if s.memory_size < s.file_size {
                Some(ImageError::BadSegmentSizes)
            } else if s.file_offset + s.file_size > k.len() {
                Some(ImageError::SegmentOutOfBounds)
            } else if s.virtual_address + s.memory_size > u64::MAX {
                Some(ImageError::AddressOverflow)
            } else {
                spec_first_segment_error(k, phoff, i + 1, n)
            }
        } else {
            spec_first_segment_error(k, phoff, i + 1, n)
        }
    }
}

/// The header checks that every well-formed image passes: magic bytes,
/// 64-bit class, little-endian encoding, 56-byte program headers, and a
/// program-header table inside the buffer.
pub open spec fn spec_header_ok(k: Seq<u8>) -> bool {
    &&& k.len() >= 64
    &&& k[0] == 0x7f && k[1] == 0x45 && k[2] == 0x4c && k[3] == 0x46
    &&& k[4] == 2
    &&& k[5] == 1
    &&& u16_le(k, 54) == 56
    &&& u64_le(k, 32) + u16_le(k, 56) * 56 <= k.len()
}

/// The fault the image analyzer reports for buffer `k`, or `None` when `k`
/// parses as a well-formed image with at least one loadable segment.
pub open spec fn spec_parse_error(k: Seq<u8>) -> Option<ImageError> {
    if k.len() < 64 {
        Some(ImageError::TooShort)
    } else if !(k[0] == 0x7f && k[1] == 0x45 && k[2] == 0x4c && k[3] == 0x46) {
        Some(ImageError::BadMagic)
    } else if k[4] != 2 {
        Some(ImageError::UnsupportedClass)
    } else if k[5] != 1 {
        Some(ImageError::UnsupportedEncoding)
    } else if u16_le(k, 54) != 56 {
        Some(ImageError::BadProgramHeaders)
    } else if u64_le(k, 32) + u16_le(k, 56) * 56 > k.len() {
        Some(ImageError::BadProgramHeaders)
    } else if spec_first_segment_error(k, u64_le(k, 32), 0, u16_le(k, 56)) is Some {
        spec_first_segment_error(k, u64_le(k, 32), 0, u16_le(k, 56))
    } else if spec_load_segments(k, u64_le(k, 32), u16_le(k, 56)).len() == 0 {
        Some(ImageError::NoLoadableSegments)
    } else {
        None
    }
}

/// Least virtual address among the first `n` segments.
pub open spec fn seg_min_va(segs: Seq<LoadableSegment>, n: int) -> int
    decreases n,
{
    if n <= 1 {
        segs[0].virtual_address as int
    } else {
        let m = seg_min_va(segs, n - 1);
        if (segs[n - 1].virtual_address as int) < m {
            segs[n - 1].virtual_address as int
        } else {
            m
        }
    }
}

/// Greatest virtual end address among the first `n` segments.
pub open spec fn seg_max_end(segs: Seq<LoadableSegment>, n: int) -> int
    decreases n,
{
    if n <= 1 {
        segs[0].virtual_address + segs[0].memory_size
    } else {
        let m = seg_max_end(segs, n - 1);
        if segs[n - 1].virtual_address + segs[n - 1].memory_size > m {
            segs[n - 1].virtual_address + segs[n - 1].memory_size
        } else {
            m
        }
    }
}

/// What the image analyzer found: the entry point, every loadable segment
/// in table order, and the virtual span they cover.
pub struct ImageLayout {
    /// Virtual address of the kernel's entry point.
    pub entry_point: u64,
    /// The loadable segments, in program-header order.
    pub segments: Vec<LoadableSegment>,
    /// Least virtual address of any loadable segment.
    pub min_virtual: u64,
    /// Greatest virtual end address of any loadable segment.
    pub max_virtual: u64,
}

impl ImageLayout {
    /// A layout is well formed for an image of `image_len` bytes when it
    /// has at least one segment, each segment is well formed, and the span
    /// bounds are exactly the least start and greatest end over them.
    pub open spec fn wf(self, image_len: int) -> bool {
        &&& self.segments@.len() >= 1
        &&& forall|i: int|
            0 <= i < self.segments@.len() ==> (#[trigger] self.segments@[i]).wf(image_len)
        &&& forall|i: int|
            0 <= i < self.segments@.len() ==> self.min_virtual <= (
            #[trigger] self.segments@[i]).virtual_address
        &&& forall|i: int|
            0 <= i < self.segments@.len() ==> (#[trigger] self.segments@[i]).virtual_address + (
            self.segments@[i]).memory_size <= self.max_virtual
        &&& exists|i: int|
            0 <= i < self.segments@.len() && (#[trigger] self.segments@[i]).virtual_address
                == self.min_virtual
        &&& exists|i: int|
            0 <= i < self.segments@.len() && (#[trigger] self.segments@[i]).virtual_address + (
            self.segments@[i]).memory_size == self.max_virtual
    }

    /// Number of bytes of the virtual span the segments cover.
    pub open spec fn spec_span(self) -> int {
        self.max_virtual - self.min_virtual
    }

    /// The virtual span as a value, for the placement and table planners.
    pub fn span(&self) -> (r: u64)
        requires
            self.min_virtual <= self.max_virtual,
        ensures
            r as int == self.spec_span(),
    {
        self.max_virtual - self.min_virtual
    }
}

/// Parse buffer `kernel` as a 64-bit little-endian kernel image: check the
/// header, collect every loadable segment, and compute the virtual span.
/// Returns the exact fault of `spec_parse_error` on malformed input; on
/// success the layout holds the segments in table order, the header's entry
/// point, and the exact span bounds.
pub fn analyze_image(kernel: &Vec<u8>) -> (r: Result<ImageLayout, ImageError>)
    ensures
        r is Ok <==> spec_parse_error(kernel@) is None,
        r matches Err(e) ==> spec_parse_error(kernel@) == Some(e),
        r matches Ok(l) ==> {
            &&& l.wf(kernel@.len() as int)
            &&& l.entry_point as int == u64_le(kernel@, 24)
            &&& l.segments@ == spec_load_segments(
                kernel@,
                u64_le(kernel@, 32),
                u16_le(kernel@, 56),
            )
            &&& l.min_virtual as int == seg_min_va(l.segments@, l.segments@.len() as int)
            &&& l.max_virtual as int == seg_max_end(l.segments@, l.segments@.len() as int)
        },
{
    let len = kernel.len();
    if len < 64 {
        return Err(ImageError::TooShort);
    }
    if !(kernel[0] == 0x7f && kernel[1] == 0x45 && kernel[2] == 0x4c && kernel[3] == 0x46) {
        return Err(ImageError::BadMagic);
    }
    if kernel[4] != 2 {
        return Err(ImageError::UnsupportedClass);
    }
    if kernel[5] != 1 {
        return Err(ImageError::UnsupportedEncoding);
    }
    let entry_point = read_u64_le(kernel, 24);
    let phoff = read_u64_le(kernel, 32);
    let phentsize = read_u16_le(kernel, 54);
    let phnum = read_u16_le(kernel, 56);
    if phentsize != 56 {
        return Err(ImageError::BadProgramHeaders);
    }
    if phoff > len as u64 || (phnum as u64) * 56 > len as u64 - phoff {
        return Err(ImageError::BadProgramHeaders);
    }
    let ghost phoffi = phoff as int;
    let ghost n = phnum as int;
    let mut segments: Vec<LoadableSegment> = Vec::new();
    let mut i: usize = 0;
    while i < phnum as usize
        invariant
            kernel@.len() == len,
            spec_header_ok(kernel@),
            phoffi == phoff as int,
            phoffi == u64_le(kernel@, 32),
            n == phnum as int,
            n == u16_le(kernel@, 56),
            phoffi + n * 56 <= len,
            i <= n,
            spec_first_segment_error(kernel@, phoffi, 0, n) == spec_first_segment_error(
                kernel@,
                phoffi,
                i as int,
                n,
            ),
            segments@ == spec_load_segments(kernel@, phoffi, i as int),
            forall|j: int|
                0 <= j < segments@.len() ==> (#[trigger] segments@[j]).wf(kernel@.len() as int),
        decreases n - i,
    {
        let base = (phoff as usize) + i * 56;
        assert(base + 56 <= len);
        let ptype = read_u32_le(kernel, base);
        if ptype == 1 {
            let seg = LoadableSegment {
                virtual_address: read_u64_le(kernel, base + 16),
                file_offset: read_u64_le(kernel, base + 8),
                file_size: read_u64_le(kernel, base + 32),
                memory_size: read_u64_le(kernel, base + 40),
            };
            assert(seg == spec_segment(kernel@, base as int));
            if seg.memory_size < seg.file_size {
                assert(spec_first_segment_error(kernel@, phoffi, i as int, n) == Some(
                    ImageError::BadSegmentSizes,
                ));
                return Err(ImageError::BadSegmentSizes);
            }
            if seg.file_offset > len as u64 || seg.file_size > len as u64 - seg.file_offset {
                assert(spec_first_segment_error(kernel@, phoffi, i as int, n) == Some(
                    ImageError::SegmentOutOfBounds,
                ));
                return Err(ImageError::SegmentOutOfBounds);
            }
            if seg.virtual_address > u64::MAX - seg.memory_size {
                assert(spec_first_segment_error(kernel@, phoffi, i as int, n) == Some(
                    ImageError::AddressOverflow,
                ));
                return Err(ImageError::AddressOverflow);
            }
            segments.push(seg);
        }
        i = i + 1;
    }
    if segments.len() == 0 {
        return Err(ImageError::NoLoadableSegments);
    }
    // compute the virtual span over the collected segments
    let mut min_virtual: u64 = segments[0].virtual_address;
    let mut max_virtual: u64 = segments[0].virtual_address + segments[0].memory_size;
    let mut j: usize = 1;
    while j < segments.len()
        invariant
            1 <= j <= segments@.len(),
            min_virtual as int == seg_min_va(segments@, j as int),
            max_virtual as int == seg_max_end(segments@, j as int),
            forall|t: int|
                0 <= t < segments@.len() ==> (#[trigger] segments@[t]).wf(kernel@.len() as int),
            forall|t: int|
                0 <= t < j ==> min_virtual <= (#[trigger] segments@[t]).virtual_address,
            forall|t: int|
                0 <= t < j ==> (#[trigger] segments@[t]).virtual_address + (
                segments@[t]).memory_size <= max_virtual,
            exists|t: int|
                0 <= t < j && (#[trigger] segments@[t]).virtual_address == min_virtual,
            exists|t: int|
                0 <= t < j && (#[trigger] segments@[t]).virtual_address + (
                segments@[t]).memory_size == max_virtual,
        decreases segments@.len() - j,
    {
        let start = segments[j].virtual_address;
        let end = segments[j].virtual_address + segments[j].memory_size;
        if start < min_virtual {
            min_virtual = start;
        }
        if end > max_virtual {
            max_virtual = end;
        }
        j = j + 1;
    }
    Ok(ImageLayout { entry_point, segments, min_virtual, max_virtual })
}

} // verus!
