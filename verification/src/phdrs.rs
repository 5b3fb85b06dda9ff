//! The Program Header Enumerator: the bounds-checked table of segment
//! descriptors.

use vstd::prelude::*;

use vstd::arithmetic::mul::lemma_mul_inequality;

use crate::bytes::{le32_at, le64_at, read_u32_le, read_u64_le};
use crate::errors::LoadError;
use crate::header::ElfHeader;

verus! {

/// The fixed size in bytes of one segment descriptor record.
pub const PHDR_SIZE: usize = 56;

/// One program-header table entry: the descriptor of one segment.
#[derive(Clone, Copy, Debug, PartialEq, Eq, Structural)]
pub struct ProgramHeader {
    /// The segment kind; only `PT_LOAD` segments are materialized.
    pub p_type: u32,
    /// The permission flags; recorded but not acted upon.
    pub p_flags: u32,
    /// The file offset of the segment's content.
    pub p_offset: u64,
    /// The virtual address of the segment's start.
    pub p_vaddr: u64,
    /// The physical address of the segment's start.
    pub p_paddr: u64,
    /// The number of content bytes present in the file.
    pub p_filesz: u64,
    /// The number of bytes the segment occupies in memory.
    pub p_memsz: u64,
    /// The required alignment of the segment.
    pub p_align: u64,
}

/// The descriptor the 56 bytes at `off` denote.
pub open spec fn phdr_at(b: Seq<u8>, off: int) -> ProgramHeader {
    ProgramHeader {
        p_type: le32_at(b, off) as u32,
        p_flags: le32_at(b, off + 4) as u32,
        p_offset: le64_at(b, off + 8) as u64,
        p_vaddr: le64_at(b, off + 16) as u64,
        p_paddr: le64_at(b, off + 24) as u64,
        p_filesz: le64_at(b, off + 32) as u64,
        p_memsz: le64_at(b, off + 40) as u64,
        p_align: le64_at(b, off + 48) as u64,
    }
}

/// Whether the program-header table the header declares can be read out of
/// a buffer of length `len`: the table span `offset + count * entry_size`
/// lies within the buffer, and each entry is wide enough to hold one
/// descriptor record (unless the table is empty).
pub open spec fn table_ok(h: ElfHeader, len: int) -> bool {
    &&& h.e_phoff + h.e_phnum * h.e_phentsize <= len
    &&& (h.e_phnum == 0 || h.e_phentsize >= PHDR_SIZE)
}

/// The descriptor sequence the header declares over a buffer.
pub open spec fn spec_phdrs(b: Seq<u8>, h: ElfHeader) -> Seq<ProgramHeader> {
    Seq::new(h.e_phnum as nat, |i: int| phdr_at(b, h.e_phoff + i * h.e_phentsize))
}

/// Reads the `e_phnum` segment descriptors out of the buffer, at stride
/// `e_phentsize` from `e_phoff` on.  Fails with `BoundsError` exactly when
/// `table_ok` does not hold of the header and the buffer length; descriptors
/// of every kind are preserved in the result.
pub fn parse_program_headers(buffer: &[u8], h: &ElfHeader) -> (r: Result<
    Vec<ProgramHeader>,
    LoadError,
>)
    ensures
        r is Ok <==> table_ok(*h, buffer@.len() as int),
        r matches Ok(t) ==> t@ == spec_phdrs(buffer@, *h),
        r matches Err(e) ==> e == LoadError::BoundsError,
{
    let len = buffer.len();
    proof {
        assert((h.e_phnum as int) * (h.e_phentsize as int) < 0x1_0000_0000) by (nonlinear_arith);
    }
    let table_bytes: u64 = (h.e_phnum as u64) * (h.e_phentsize as u64);
    let span_end: u128 = h.e_phoff as u128 + table_bytes as u128;
    if span_end > len as u128 {
        return Err(LoadError::BoundsError);
    }
    if h.e_phnum > 0 && h.e_phentsize < PHDR_SIZE as u16 {
        return Err(LoadError::BoundsError);
    }

    let phnum = h.e_phnum as usize;
    let stride = h.e_phentsize as u64;
    let mut table: Vec<ProgramHeader> = Vec::new();
    let mut base: u64 = h.e_phoff;
    let mut i: usize = 0;
    while i < phnum
        invariant
            table_ok(*h, buffer@.len() as int),
            buffer@.len() == len,
            i <= phnum,
            base == h.e_phoff + i * h.e_phentsize,
            stride == h.e_phentsize,
            phnum == h.e_phnum,
            table@.len() == i,
            forall|j: int|
                0 <= j < i ==> table@[j] == phdr_at(buffer@, h.e_phoff + j * h.e_phentsize),
        decreases phnum - i,
    {
        proof {
            assert((i + 1) * (h.e_phentsize as int) == i * (h.e_phentsize as int)
                + h.e_phentsize as int) by (nonlinear_arith);
            lemma_mul_inequality(i + 1, h.e_phnum as int, h.e_phentsize as int);
            assert(base + PHDR_SIZE <= buffer@.len());
        }
        let off = base as usize;
        let ph = ProgramHeader {
            p_type: read_u32_le(buffer, off),
            p_flags: read_u32_le(buffer, off + 4),
            p_offset: read_u64_le(buffer, off + 8),
            p_vaddr: read_u64_le(buffer, off + 16),
            p_paddr: read_u64_le(buffer, off + 24),
            p_filesz: read_u64_le(buffer, off + 32),
            p_memsz: read_u64_le(buffer, off + 40),
            p_align: read_u64_le(buffer, off + 48),
        };
        table.push(ph);
        base = base + stride;
        i = i + 1;
    }
    proof {
        assert(table@ =~= spec_phdrs(buffer@, *h));
    }
    Ok(table)
}

} // verus!
