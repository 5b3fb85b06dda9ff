//! Interrupt-descriptor-table structures for the kernel side.
//!
//! One canonical layout of a 64-bit interrupt descriptor, with the handler
//! address split across its three offset fields, and the pointer record
//! the processor loads the table from.

use vstd::prelude::*;

verus! {

/// One interrupt-descriptor-table slot: the handler address split across
/// three offset fields, with the selector and attribute bytes between them.
#[derive(Clone, Copy, Debug, PartialEq, Eq, Structural)]
pub struct IDTEntry {
    /// Handler address bits 0 to 15.
    pub offset_1: u16,
    /// The code-segment selector the handler runs under.
    pub selector: u16,
    /// The interrupt-stack-table index; zero when unused.
    pub ist: u8,
    /// The descriptor type and the present and privilege bits.
    pub type_attrs: u8,
    /// Handler address bits 16 to 31.
    pub offset_2: u16,
    /// Handler address bits 32 to 63.
    pub offset_3: u32,
    /// Reserved; must be zero.
    pub zero: u32,
}

/// The record the processor loads the table's location and size from.
#[derive(Clone, Copy, Debug, PartialEq, Eq, Structural)]
pub struct IDTPointer {
    /// The table's size in bytes, less one.
    pub limit: u16,
    /// The table's physical base address.
    pub base: u64,
}

/// The handler address an entry's three offset fields denote.
pub open spec fn idt_entry_offset(e: IDTEntry) -> u64 {
    (e.offset_1 as u64) | ((e.offset_2 as u64) << 16) | ((e.offset_3 as u64) << 32)
}

impl IDTEntry {
    /// The all-zero entry every table slot starts as.
    pub fn empty() -> (r: Self)
        ensures
            r == (IDTEntry {
                offset_1: 0,
                selector: 0,
                ist: 0,
                type_attrs: 0,
                offset_2: 0,
                offset_3: 0,
                zero: 0,
            }),
    {
        IDTEntry {
            offset_1: 0,
            selector: 0,
            ist: 0,
            type_attrs: 0,
            offset_2: 0,
            offset_3: 0,
            zero: 0,
        }
    }

    /// Points the descriptor at a handler: splits the address across the three
    /// offset fields so that the entry denotes exactly `handler`, selects
    /// the kernel code segment, and marks the descriptor a present,
    /// privilege-zero interrupt descriptor with no interrupt-stack slot.
    pub fn set_handler(&mut self, handler: u64)
        ensures
            final(self).offset_1 == handler & 0xFFFF,
            final(self).offset_2 == (handler >> 16) & 0xFFFF,
            final(self).offset_3 == handler >> 32,
            final(self).selector == 0x08,
            final(self).ist == 0,
            final(self).type_attrs == 0x8E,
            final(self).zero == 0,
            idt_entry_offset(*final(self)) == handler,
    {
        self.offset_1 = (handler & 0xFFFF) as u16;
        self.offset_2 = ((handler >> 16) & 0xFFFF) as u16;
        self.offset_3 = (handler >> 32) as u32;
        self.selector = 0x08;
        self.ist = 0;
        self.type_attrs = 0x8E;
        self.zero = 0;
        proof {
            assert(((handler & 0xFFFF) as u16 as u64) | ((((handler >> 16) & 0xFFFF) as u16
                as u64) << 16) | (((handler >> 32) as u32 as u64) << 32) == handler)
                by (bit_vector);
            assert((handler & 0xFFFF) as u16 == handler & 0xFFFF) by (bit_vector);
            assert(((handler >> 16) & 0xFFFF) as u16 == (handler >> 16) & 0xFFFF)
                by (bit_vector);
            assert((handler >> 32) as u32 == handler >> 32) by (bit_vector);
        }
    }
}

} // verus!
