use vstd::prelude::*;

use crate::elf::ImageLayout;
use crate::elf::LoadableSegment;

verus! {

/// The byte at block offset `k` after the first `upto` segments have been
/// placed into a zeroed block: the last segment covering `k` decides it,
/// file bytes first, zeroes in the tail up to its memory size.
pub open spec fn loaded_byte(
    segs: Seq<LoadableSegment>,
    image: Seq<u8>,
    min: int,
    upto: int,
    k: int,
) -> u8
    decreases upto,
{
    if upto <= 0 {
        0
    } else {
        let s = segs[upto - 1];
        let start = s.virtual_address - min;
        if start <= k < start + s.memory_size {
            if k < start + s.file_size {
                image[s.file_offset + (k - start)]
            } else {
                0
            }
        } else {
            loaded_byte(segs, image, min, upto - 1, k)
        }
    }
}

/// No two segments' destination ranges overlap.
pub open spec fn destinations_disjoint(segs: Seq<LoadableSegment>) -> bool {
    forall|i: int, j: int|
        0 <= i < j < segs.len() ==> (#[trigger] segs[i]).virtual_address + segs[i].memory_size
            <= (#[trigger] segs[j]).virtual_address || segs[j].virtual_address
            + segs[j].memory_size <= segs[i].virtual_address
}

/// Decide whether the layout's segments have pairwise disjoint destination
/// ranges; overlapping destinations are undefined in the container format
/// and are rejected before loading.
pub fn check_destinations_disjoint(layout: &ImageLayout) -> (r: bool)
    requires
        forall|i: int|
            0 <= i < layout.segments@.len() ==> (#[trigger] layout.segments@[i]).virtual_address
                + layout.segments@[i].memory_size <= u64::MAX,
    ensures
        r == destinations_disjoint(layout.segments@),
{
    let n = layout.segments.len();
    let mut i: usize = 0;
    while i < n
        invariant
            n == layout.segments@.len(),
            i <= n,
            forall|a: int|
                0 <= a < layout.segments@.len() ==> (
                #[trigger] layout.segments@[a]).virtual_address
                    + layout.segments@[a].memory_size <= u64::MAX,
            forall|a: int, b: int|
                0 <= a < b < layout.segments@.len() && a < i ==> (
                #[trigger] layout.segments@[a]).virtual_address
                    + layout.segments@[a].memory_size <= (
                #[trigger] layout.segments@[b]).virtual_address
                    || layout.segments@[b].virtual_address + layout.segments@[b].memory_size
                    <= layout.segments@[a].virtual_address,
        decreases n - i,
    {
        let si = layout.segments[i];
        let mut j: usize = i + 1;
        while j < n
            invariant
                n == layout.segments@.len(),
                i < n,
                i < j <= n,
                si == layout.segments@[i as int],
                forall|a: int|
                    0 <= a < layout.segments@.len() ==> (
                    #[trigger] layout.segments@[a]).virtual_address
                        + layout.segments@[a].memory_size <= u64::MAX,
                forall|b: int|
                    i < b < j ==> layout.segments@[i as int].virtual_address
                        + layout.segments@[i as int].memory_size <= (
                    #[trigger] layout.segments@[b]).virtual_address
                        || layout.segments@[b].virtual_address + layout.segments@[b].memory_size
                        <= layout.segments@[i as int].virtual_address,
            decreases n - j,
        {
            let sj = layout.segments[j];
            let i_end = si.virtual_address + si.memory_size;
            let j_end = sj.virtual_address + sj.memory_size;
            if !(i_end <= sj.virtual_address || j_end <= si.virtual_address) {
                return false;
            }
            j = j + 1;
        }
        i = i + 1;
    }
    true
}

/// Copy each loadable segment's file bytes to its place in a block covering
/// the layout's virtual span, zero-filling each segment's tail between its
/// file size and its memory size.  The block starts zeroed, so every byte
/// no segment claims stays zero.
pub fn load_segments(image: &Vec<u8>, layout: &ImageLayout) -> (r: Vec<u8>)
    requires
        layout.wf(image@.len() as int),
        layout.spec_span() <= usize::MAX,
    ensures
        r@.len() == layout.spec_span(),
        forall|k: int|
            0 <= k < r@.len() ==> #[trigger] r@[k] == loaded_byte(
                layout.segments@,
                image@,
                layout.min_virtual as int,
                layout.segments@.len() as int,
                k,
            ),
{
    let ghost min = layout.min_virtual as int;
    let ghost segs = layout.segments@;
    let span = (layout.max_virtual - layout.min_virtual) as usize;
    let mut block: Vec<u8> = Vec::new();
    while block.len() < span
        invariant
            block@.len() <= span,
            forall|k: int| 0 <= k < block@.len() ==> #[trigger] block@[k] == 0,
        decreases span - block@.len(),
    {
        block.push(0);
    }
    assert(forall|k: int|
        0 <= k < span ==> #[trigger] block@[k] == loaded_byte(segs, image@, min, 0, k));
    let n = layout.segments.len();
    let mut i: usize = 0;
    while i < n
        invariant
            layout.wf(image@.len() as int),
            min == layout.min_virtual as int,
            segs == layout.segments@,
            n == segs.len(),
            i <= n,
            span == layout.spec_span(),
            block@.len() == span,
            forall|k: int|
                0 <= k < span ==> #[trigger] block@[k] == loaded_byte(
                    segs,
                    image@,
                    min,
                    i as int,
                    k,
                ),
        decreases n - i,
    {
        let seg = layout.segments[i];
        let image_len = image.len();
        assert(seg.wf(image@.len() as int));
        assert(seg.virtual_address - layout.min_virtual + seg.memory_size <= layout.spec_span());
        let start = (seg.virtual_address - layout.min_virtual) as usize;
        let file_size = seg.file_size as usize;
        let mem_size = seg.memory_size as usize;
        let file_offset = seg.file_offset as usize;
        // copy the segment's file bytes
        let mut b: usize = 0;
        while b < file_size
            invariant
                layout.wf(image@.len() as int),
                min == layout.min_virtual as int,
                segs == layout.segments@,
                i < n,
                n == segs.len(),
                seg == segs[i as int],
                span == layout.spec_span(),
                block@.len() == span,
                start == seg.virtual_address - min,
                file_size == seg.file_size,
                mem_size == seg.memory_size,
                file_offset == seg.file_offset,
                image_len == image@.len(),
                file_offset + file_size <= image_len,
                b <= file_size,
                forall|k: int|
                    0 <= k < span && !(start <= k < start + b) ==> #[trigger] block@[k]
                        == loaded_byte(segs, image@, min, i as int, k),
                forall|k: int|
                    start <= k < start + b ==> #[trigger] block@[k] == image@[seg.file_offset + (
                    k - start)],
            decreases file_size - b,
        {
            block[start + b] = image[file_offset + b];
            b = b + 1;
        }
        // zero the tail between the file size and the memory size
        let mut z: usize = file_size;
        while z < mem_size
            invariant
                layout.wf(image@.len() as int),
                min == layout.min_virtual as int,
                segs == layout.segments@,
                i < n,
                n == segs.len(),
                seg == segs[i as int],
                span == layout.spec_span(),
                block@.len() == span,
                start == seg.virtual_address - min,
                file_size == seg.file_size,
                mem_size == seg.memory_size,
                file_size <= z <= mem_size,
                forall|k: int|
                    0 <= k < span && !(start <= k < start + z) ==> #[trigger] block@[k]
                        == loaded_byte(segs, image@, min, i as int, k),
                forall|k: int|
                    start <= k < start + file_size ==> #[trigger] block@[k] == image@[
                    seg.file_offset + (k - start)],
                forall|k: int|
                    start + file_size <= k < start + z ==> #[trigger] block@[k] == 0,
            decreases mem_size - z,
        {
            block[start + z] = 0;
            z = z + 1;
        }
        assert(forall|k: int|
            0 <= k < span ==> #[trigger] block@[k] == loaded_byte(segs, image@, min, i + 1, k));
        i = i + 1;
    }
    block
}

/// After loading, the later segments leave an earlier one's destination
/// range untouched when the ranges are disjoint.
proof fn lemma_loaded_byte_stable(
    segs: Seq<LoadableSegment>,
    image: Seq<u8>,
    min: int,
    j: int,
    m: int,
    k: int,
)
    requires
        destinations_disjoint(segs),
        0 <= j < m <= segs.len(),
        segs[j].virtual_address - min <= k < segs[j].virtual_address - min
            + segs[j].memory_size,
        forall|i: int| 0 <= i < segs.len() ==> min <= (#[trigger] segs[i]).virtual_address,
    ensures
        loaded_byte(segs, image, min, m, k) == loaded_byte(segs, image, min, j + 1, k),
    decreases m - j,
{
    if m > j + 1 {
        let s = segs[m - 1];
        assert(segs[j].virtual_address + segs[j].memory_size <= s.virtual_address
            || s.virtual_address + s.memory_size <= segs[j].virtual_address);
        lemma_loaded_byte_stable(segs, image, min, j, m - 1, k);
    }
}

/// Segment zero-fill: after loading, every byte of a segment's destination
/// range between its file size and its memory size is zero, provided the
/// destination ranges are disjoint.
pub proof fn lemma_zero_fill(
    segs: Seq<LoadableSegment>,
    image: Seq<u8>,
    min: int,
    j: int,
    b: int,
)
    requires
        destinations_disjoint(segs),
        0 <= j < segs.len(),
        forall|i: int| 0 <= i < segs.len() ==> min <= (#[trigger] segs[i]).virtual_address,
        segs[j].file_size <= b < segs[j].memory_size,
    ensures
        loaded_byte(segs, image, min, segs.len() as int, segs[j].virtual_address - min + b) == 0,
{
    let k = segs[j].virtual_address - min + b;
    lemma_loaded_byte_stable(segs, image, min, j, segs.len() as int, k);
}

/// Segment contents: after loading, every file byte of a segment sits at
/// its place in the block, provided the destination ranges are disjoint.
pub proof fn lemma_file_bytes(
    segs: Seq<LoadableSegment>,
    image: Seq<u8>,
    min: int,
    j: int,
    b: int,
)
    requires
        destinations_disjoint(segs),
        0 <= j < segs.len(),
        forall|i: int| 0 <= i < segs.len() ==> min <= (#[trigger] segs[i]).virtual_address,
        forall|i: int| 0 <= i < segs.len() ==> (#[trigger] segs[i]).memory_size >= segs[i].file_size,
        0 <= b < segs[j].file_size,
    ensures
        loaded_byte(segs, image, min, segs.len() as int, segs[j].virtual_address - min + b)
            == image[segs[j].file_offset + b],
{
    let k = segs[j].virtual_address - min + b;
    lemma_loaded_byte_stable(segs, image, min, j, segs.len() as int, k);
}

} // verus!
