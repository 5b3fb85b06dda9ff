//! The Segment Loader: page-granular layout and byte content of every
//! loadable segment.
//!
//! For each loadable descriptor the loader computes a [`Placement`]: the
//! page-aligned physical range to request from the allocator, and the
//! numbers that determine the bytes to put there.  [`segment_image`] then
//! produces those bytes — leading padding zeroed, file content copied,
//! uninitialized tail zeroed — and [`write_segment`] states exactly what
//! storing them does to a window of physical memory.

use vstd::prelude::*;

use vstd::arithmetic::div_mod::{
    lemma_fundamental_div_mod, lemma_mod_bound, lemma_mod_multiples_basic,
};

use crate::errors::LoadError;
use crate::phdrs::ProgramHeader;

verus! {

/// The platform's page size in bytes.
pub const PAGE_SIZE: u64 = 4096;

/// The descriptor kind of a loadable segment.
pub const LOAD_SEGMENT_TYPE: u32 = 1;

/// The materialization order for one loadable segment: the fixed physical
/// range to allocate and the numbers its byte content is computed from.
#[derive(Clone, Copy, Debug, PartialEq, Eq, Structural)]
pub struct Placement {
    /// The segment's virtual start address (equal to its physical address
    /// under the identity map the loader relies on).
    pub vaddr: u64,
    /// The file offset of the segment's content in the image buffer.
    pub file_offset: u64,
    /// The number of content bytes to copy from the file.
    pub file_size: u64,
    /// The number of bytes the segment occupies in memory.
    pub mem_size: u64,
    /// The page-aligned physical address to allocate at.
    pub page_start: u64,
    /// The number of contiguous pages to allocate.
    pub num_pages: u64,
}

/// Whether a descriptor names a loadable segment; all other kinds are
/// silently skipped.
pub open spec fn loadable(ph: ProgramHeader) -> bool {
    ph.p_type == LOAD_SEGMENT_TYPE
}

/// The greatest page boundary at or below `vaddr`.
pub open spec fn spec_page_start(vaddr: int) -> int {
    vaddr - vaddr % 4096
}

/// The least page boundary at or above `vaddr + memsz`.
pub open spec fn spec_page_end(vaddr: int, memsz: int) -> int {
    ((vaddr + memsz + 4095) / 4096) * 4096
}

/// A segment must not claim more file content than memory content;
/// the violation is a format error, not merely undefined behaviour.
pub open spec fn seg_sizes_ok(ph: ProgramHeader) -> bool {
    ph.p_filesz <= ph.p_memsz
}

/// The segment's file region must lie within the image buffer.
pub open spec fn seg_file_ok(ph: ProgramHeader, len: int) -> bool {
    ph.p_offset + ph.p_filesz <= len
}

/// The segment's page-rounded memory range must fit in the address space.
pub open spec fn seg_addr_ok(ph: ProgramHeader) -> bool {
    ph.p_vaddr + ph.p_memsz <= 0xFFFF_FFFF_FFFF_F000
}

/// The error a loadable descriptor is rejected with, if any.
pub open spec fn seg_error(ph: ProgramHeader, len: int) -> Option<LoadError> {
    if !seg_sizes_ok(ph) {
        Some(LoadError::FormatError)
    } else if !seg_file_ok(ph, len) || !seg_addr_ok(ph) {
        Some(LoadError::BoundsError)
    } else {
        None
    }
}

/// The first error among the loadable descriptors of the table, if any;
/// the whole load is aborted on it.
pub open spec fn plan_error_of(phs: Seq<ProgramHeader>, len: int) -> Option<LoadError>
    decreases phs.len(),
{
    if phs.len() == 0 {
        None
    } else {
        let head = plan_error_of(phs.drop_last(), len);
        if head is Some {
            head
        } else if loadable(phs.last()) {
            seg_error(phs.last(), len)
        } else {
            None
        }
    }
}

/// The loadable descriptors of the table, in table order.
pub open spec fn loadables_of(phs: Seq<ProgramHeader>) -> Seq<ProgramHeader>
    decreases phs.len(),
{
    if phs.len() == 0 {
        Seq::empty()
    } else if loadable(phs.last()) {
        loadables_of(phs.drop_last()).push(phs.last())
    } else {
        loadables_of(phs.drop_last())
    }
}

/// Whether a placement is the one its descriptor calls for.
pub open spec fn placement_for(p: Placement, ph: ProgramHeader) -> bool {
    &&& p.vaddr == ph.p_vaddr
    &&& p.file_offset == ph.p_offset
    &&& p.file_size == ph.p_filesz
    &&& p.mem_size == ph.p_memsz
    &&& p.page_start == spec_page_start(ph.p_vaddr as int)
    &&& p.page_start + p.num_pages * 4096 == spec_page_end(ph.p_vaddr as int, ph.p_memsz as int)
}

/// Whether a placement sequence materializes exactly the given descriptors,
/// in order.
pub open spec fn placements_match(ps: Seq<Placement>, phs: Seq<ProgramHeader>) -> bool {
    &&& ps.len() == phs.len()
    &&& forall|j: int| 0 <= j < ps.len() ==> placement_for(ps[j], phs[j])
}

/// The page-arithmetic guarantees of a computed placement: the allocated
/// range starts on the page boundary at or below `vaddr`, covers a whole
/// number of pages, and is large enough for the padding and the segment.
pub open spec fn placement_page_ok(p: Placement) -> bool {
    &&& p.page_start % PAGE_SIZE == 0
    &&& p.page_start <= p.vaddr < p.page_start + PAGE_SIZE
    &&& (p.num_pages * PAGE_SIZE) % (PAGE_SIZE as int) == 0
    &&& p.num_pages * PAGE_SIZE >= p.mem_size + p.vaddr % PAGE_SIZE
}

proof fn lemma_page_math(v: int, m: int)
    requires
        0 <= v,
        0 <= m,
    ensures
        spec_page_start(v) == 4096 * (v / 4096),
        0 <= spec_page_start(v) <= v < spec_page_start(v) + 4096,
        spec_page_start(v) % 4096 == 0,
        0 <= v % 4096 < 4096,
        v + m <= spec_page_end(v, m) <= v + m + 4095,
        spec_page_end(v, m) % 4096 == 0,
        (spec_page_end(v, m) - spec_page_start(v)) % 4096 == 0,
        spec_page_end(v, m) - spec_page_start(v) >= m + v % 4096,
        ((spec_page_end(v, m) - spec_page_start(v)) / 4096) * 4096 == spec_page_end(v, m)
            - spec_page_start(v),
{
    let y = v + m + 4095;
    lemma_fundamental_div_mod(v, 4096);
    lemma_mod_bound(v, 4096);
    lemma_fundamental_div_mod(y, 4096);
    lemma_mod_bound(y, 4096);
    lemma_mod_multiples_basic(v / 4096, 4096);
    lemma_mod_multiples_basic(y / 4096, 4096);
    assert(spec_page_end(v, m) - spec_page_start(v) == (y / 4096 - v / 4096) * 4096)
        by (nonlinear_arith)
        requires
            v == 4096 * (v / 4096) + v % 4096,
            y == 4096 * (y / 4096) + y % 4096,
            y == v + m + 4095,
            spec_page_start(v) == v - v % 4096,
            spec_page_end(v, m) == (y / 4096) * 4096,
    ;
    lemma_mod_multiples_basic(y / 4096 - v / 4096, 4096);
    lemma_fundamental_div_mod(spec_page_end(v, m) - spec_page_start(v), 4096);
}

proof fn lemma_plan_error_extends(phs: Seq<ProgramHeader>, len: int, m: int)
    requires
        0 <= m <= phs.len(),
        plan_error_of(phs.take(m), len) is Some,
    ensures
        plan_error_of(phs, len) == plan_error_of(phs.take(m), len),
    decreases phs.len() - m,
{
    if m == phs.len() {
        assert(phs.take(m) =~= phs);
    } else {
        assert(phs.take(m + 1).drop_last() =~= phs.take(m));
        lemma_plan_error_extends(phs, len, m + 1);
    }
}

/// Computes the placement of every loadable segment of the table, left to
/// right, against an image buffer of `buffer_len` bytes.  The first
/// rejected loadable segment aborts the whole plan with its error: a
/// `FormatError` where it claims more file content than memory content, a
/// `BoundsError` where its file region leaves the buffer or its
/// page-rounded memory range leaves the address space.  Descriptors of
/// other kinds are skipped.
///
/// Every returned placement satisfies `placement_page_ok`: its range starts
/// at the page boundary at or below `vaddr`, spans a whole number of pages,
/// and `num_pages * PAGE_SIZE >= mem_size + vaddr % PAGE_SIZE`.
pub fn plan_segments(buffer_len: usize, phs: &[ProgramHeader]) -> (r: Result<
    Vec<Placement>,
    LoadError,
>)
    ensures
        r is Ok <==> plan_error_of(phs@, buffer_len as int) is None,
        r matches Err(e) ==> Some(e) == plan_error_of(phs@, buffer_len as int),
        r matches Ok(ps) ==> placements_match(ps@, loadables_of(phs@)),
        r matches Ok(ps) ==> forall|j: int| 0 <= j < ps@.len() ==> placement_page_ok(ps@[j]),
        r matches Ok(ps) ==> forall|j: int|
            0 <= j < ps@.len() ==> (#[trigger] ps@[j]).file_offset + ps@[j].file_size
                <= buffer_len && ps@[j].file_size <= ps@[j].mem_size,
{
    let mut out: Vec<Placement> = Vec::new();
    let mut i: usize = 0;
    while i < phs.len()
        invariant
            i <= phs@.len(),
            plan_error_of(phs@.take(i as int), buffer_len as int) is None,
            placements_match(out@, loadables_of(phs@.take(i as int))),
            forall|j: int| 0 <= j < out@.len() ==> placement_page_ok(out@[j]),
            forall|j: int|
                0 <= j < out@.len() ==> (#[trigger] out@[j]).file_offset + out@[j].file_size
                    <= buffer_len && out@[j].file_size <= out@[j].mem_size,
        decreases phs@.len() - i,
    {
        let ph = phs[i];
        proof {
            assert(phs@.take(i + 1).drop_last() =~= phs@.take(i as int));
            assert(phs@.take(i + 1).last() == phs@[i as int]);
        }
        if ph.p_type == LOAD_SEGMENT_TYPE {
            if ph.p_filesz > ph.p_memsz {
                proof {
                    lemma_plan_error_extends(phs@, buffer_len as int, i + 1);
                }
                return Err(LoadError::FormatError);
            }
            if ph.p_offset as u128 + ph.p_filesz as u128 > buffer_len as u128 {
                proof {
                    lemma_plan_error_extends(phs@, buffer_len as int, i + 1);
                }
                return Err(LoadError::BoundsError);
            }
            if ph.p_vaddr as u128 + ph.p_memsz as u128 > 0xFFFF_FFFF_FFFF_F000u128 {
                proof {
                    lemma_plan_error_extends(phs@, buffer_len as int, i + 1);
                }
                return Err(LoadError::BoundsError);
            }
            proof {
                lemma_page_math(ph.p_vaddr as int, ph.p_memsz as int);
            }
            let page_start = ph.p_vaddr - ph.p_vaddr % PAGE_SIZE;
            let end = ph.p_vaddr + ph.p_memsz;
            let page_end = ((end + (PAGE_SIZE - 1)) / PAGE_SIZE) * PAGE_SIZE;
            let num_pages = (page_end - page_start) / PAGE_SIZE;
            let p = Placement {
                vaddr: ph.p_vaddr,
                file_offset: ph.p_offset,
                file_size: ph.p_filesz,
                mem_size: ph.p_memsz,
                page_start,
                num_pages,
            };
            out.push(p);
        }
        i = i + 1;
    }
    proof {
        assert(phs@.take(phs@.len() as int) =~= phs@);
    }
    Ok(out)
}

/// The offset of the segment's true start from its page boundary.
pub open spec fn spec_padding(vaddr: int) -> int {
    vaddr % 4096
}

/// The bytes the loader stores at `page_start`, in order: `padding` zeros
/// up to the segment's true start, then exactly `file_size` bytes of file
/// content, then the zeroed uninitialized tail up to `mem_size`.
pub open spec fn spec_segment_image(buf: Seq<u8>, p: Placement) -> Seq<u8> {
    Seq::new(
        (spec_padding(p.vaddr as int) + p.mem_size) as nat,
        |k: int|
            if k < spec_padding(p.vaddr as int) {
                0u8
            } else if k - spec_padding(p.vaddr as int) < p.file_size {
                buf[p.file_offset + k - spec_padding(p.vaddr as int)]
            } else {
                0u8
            },
    )
}

/// Materializes the byte content of one placement: the destination bytes in
/// `[0, file_size)` equal the corresponding source bytes, the bytes in
/// `[file_size, mem_size)` are all zero, and the `vaddr % PAGE_SIZE` bytes
/// of padding before the segment's start are all zero.  Never copies more
/// than `file_size` bytes, however much larger `mem_size` is.
pub fn segment_image(buffer: &[u8], p: &Placement) -> (img: Vec<u8>)
    requires
        p.file_size <= p.mem_size,
        p.file_offset + p.file_size <= buffer@.len(),
        p.vaddr % PAGE_SIZE + p.mem_size <= usize::MAX,
    ensures
        img@ == spec_segment_image(buffer@, *p),
        img@.len() == p.vaddr % PAGE_SIZE + p.mem_size,
        forall|k: int| 0 <= k < p.vaddr % PAGE_SIZE ==> img@[k] == 0,
        forall|k: int|
            p.vaddr % PAGE_SIZE <= k < p.vaddr % PAGE_SIZE + p.file_size ==> img@[k] == buffer@[
                p.file_offset + k - p.vaddr % PAGE_SIZE
            ],
        forall|k: int|
            p.vaddr % PAGE_SIZE + p.file_size <= k < img@.len() ==> img@[k] == 0,
{
    proof {
        lemma_mod_bound(p.vaddr as int, 4096);
    }
    let buffer_len = buffer.len();
    assert(p.file_offset <= buffer_len);
    let padding = (p.vaddr % PAGE_SIZE) as usize;
    let file_size = p.file_size as usize;
    let mem_size = p.mem_size as usize;
    let file_offset = p.file_offset as usize;

    let mut img: Vec<u8> = Vec::new();
    let mut k: usize = 0;
    while k < padding
        invariant
            k <= padding,
            img@.len() == k,
            forall|j: int| 0 <= j < k ==> img@[j] == 0,
        decreases padding - k,
    {
        img.push(0);
        k = k + 1;
    }
    let mut k: usize = 0;
    while k < file_size
        invariant
            k <= file_size,
            file_size == p.file_size,
            file_offset == p.file_offset,
            buffer_len == buffer@.len(),
            p.file_offset + p.file_size <= buffer@.len(),
            img@.len() == padding + k,
            padding == p.vaddr % PAGE_SIZE,
            forall|j: int| 0 <= j < padding ==> img@[j] == 0,
            forall|j: int|
                padding <= j < padding + k ==> img@[j] == buffer@[p.file_offset + j - padding],
        decreases file_size - k,
    {
        img.push(buffer[file_offset + k]);
        k = k + 1;
    }
    let mut k: usize = file_size;
    while k < mem_size
        invariant
            file_size <= k <= mem_size,
            file_size == p.file_size,
            mem_size == p.mem_size,
            p.file_offset + p.file_size <= buffer@.len(),
            img@.len() == padding + k,
            padding == p.vaddr % PAGE_SIZE,
            forall|j: int| 0 <= j < padding ==> img@[j] == 0,
            forall|j: int|
                padding <= j < padding + file_size ==> img@[j] == buffer@[p.file_offset + j
                    - padding],
            forall|j: int| padding + file_size <= j < padding + k ==> img@[j] == 0,
        decreases mem_size - k,
    {
        img.push(0);
        k = k + 1;
    }
    proof {
        assert(img@ =~= spec_segment_image(buffer@, *p));
    }
    img
}

/// Stores the byte content of one placement into a window of physical
/// memory that `mem` models: `base` is the physical address of `mem[0]`.
/// Exactly the bytes at `[page_start, page_start + padding + mem_size)` are
/// replaced with the segment's image; every other byte of the window keeps
/// its previous value.  A later segment whose range intersects an earlier
/// one therefore overwrites the earlier bytes, padding and tail included:
/// no overlap check is made.
pub fn write_segment(mem: &mut Vec<u8>, base: u64, buffer: &[u8], p: &Placement)
    requires
        p.file_size <= p.mem_size,
        p.file_offset + p.file_size <= buffer@.len(),
        base <= p.page_start,
        p.page_start + p.vaddr % PAGE_SIZE + p.mem_size <= base + old(mem)@.len(),
    ensures
        final(mem)@.len() == old(mem)@.len(),
        forall|j: int|
            0 <= j < old(mem)@.len() && !(p.page_start - base <= j < p.page_start - base
                + p.vaddr % PAGE_SIZE + p.mem_size) ==> final(mem)@[j] == old(mem)@[j],
        forall|j: int|
            p.page_start - base <= j < p.page_start - base + p.vaddr % PAGE_SIZE + p.mem_size
                ==> final(mem)@[j] == spec_segment_image(buffer@, *p)[j - (p.page_start - base)],
{
    let window = mem.len();
    assert(p.vaddr % PAGE_SIZE + p.mem_size <= window);
    assert(p.page_start - base <= window);
    let img = segment_image(buffer, p);
    let off = (p.page_start - base) as usize;
    let count = img.len();
    let mut k: usize = 0;
    while k < count
        invariant
            k <= count,
            count == img@.len(),
            img@ == spec_segment_image(buffer@, *p),
            img@.len() == p.vaddr % PAGE_SIZE + p.mem_size,
            off == p.page_start - base,
            off + count <= mem@.len(),
            window == mem@.len(),
            mem@.len() == old(mem)@.len(),
            forall|j: int|
                0 <= j < mem@.len() && !(off <= j < off + k) ==> mem@[j] == old(mem)@[j],
            forall|j: int| off <= j < off + k ==> mem@[j] == img@[j - off],
        decreases count - k,
    {
        let b = img[k];
        mem.set(off + k, b);
        k = k + 1;
    }
}

} // verus!
