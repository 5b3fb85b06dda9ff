//! The Header Parser: a typed view of the fixed 64-byte executable header.

use vstd::prelude::*;

use crate::bytes::{le16_at, le64_at, read_u16_le, read_u64_le};
use crate::errors::LoadError;

verus! {

/// The fixed size of the executable header in bytes.
pub const HEADER_SIZE: usize = 64;

/// The typed view of the executable header.
///
/// Only the fields the load path reads are exposed: the entry virtual
/// address and the location, stride and count of the program-header table.
/// No architecture, endianness or class validation is performed; the loader
/// assumes the native 64-bit little-endian layout by construction.
#[derive(Clone, Copy, Debug, PartialEq, Eq, Structural)]
pub struct ElfHeader {
    /// The virtual address at which the loaded image is entered.
    pub e_entry: u64,
    /// The file offset of the program-header table.
    pub e_phoff: u64,
    /// The size in bytes of one program-header table entry.
    pub e_phentsize: u16,
    /// The number of entries in the program-header table.
    pub e_phnum: u16,
}

/// Whether a buffer begins with a well-formed executable header: at least
/// `HEADER_SIZE` bytes, the first four of them the required magic sequence.
pub open spec fn header_ok(b: Seq<u8>) -> bool {
    &&& b.len() >= HEADER_SIZE
    &&& b[0] == 0x7f
    &&& b[1] == 0x45
    &&& b[2] == 0x4c
    &&& b[3] == 0x46
}

/// The header fields a well-formed buffer denotes, at their fixed offsets.
pub open spec fn spec_header(b: Seq<u8>) -> ElfHeader {
    ElfHeader {
        e_entry: le64_at(b, 24) as u64,
        e_phoff: le64_at(b, 32) as u64,
        e_phentsize: le16_at(b, 54) as u16,
        e_phnum: le16_at(b, 56) as u16,
    }
}

/// Validates the magic sequence and the buffer length, and reads the header
/// fields.  Fails with `FormatError` exactly on the buffers `header_ok`
/// rejects; performs no allocation and never fails any other way.
pub fn parse_elf_header(data: &[u8]) -> (r: Result<ElfHeader, LoadError>)
    ensures
        r is Ok <==> header_ok(data@),
        r matches Ok(h) ==> h == spec_header(data@),
        r matches Err(e) ==> e == LoadError::FormatError,
{
    if data.len() < HEADER_SIZE {
        return Err(LoadError::FormatError);
    }
    if data[0] != 0x7f || data[1] != 0x45 || data[2] != 0x4c || data[3] != 0x46 {
        return Err(LoadError::FormatError);
    }
    Ok(ElfHeader {
        e_entry: read_u64_le(data, 24),
        e_phoff: read_u64_le(data, 32),
        e_phentsize: read_u16_le(data, 54),
        e_phnum: read_u16_le(data, 56),
    })
}

} // verus!
