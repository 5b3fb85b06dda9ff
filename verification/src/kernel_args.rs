//! Boot-time arguments gathered for the kernel from the firmware's
//! configuration tables.
//!
//! Addresses are carried as plain integers: the loader runs under an
//! identity map, so a physical address and the pointer to it are the same
//! number.  The firmware side converts its table entries to [`ConfigEntry`]
//! values before handing them here.

use vstd::prelude::*;

verus! {

/// The configuration-table identifier of the ACPI 1.0 root table, as the
/// 16 identifier bytes read little-endian.
pub const ACPI_GUID: u128 = 0x4dc13f279000169a11d32d88eb9d2d30;

/// The configuration-table identifier of the ACPI 2.0+ root table.
pub const ACPI2_GUID: u128 = 0x81883cc7800022bc11d3e4f18868e871;

/// The configuration-table identifier of the SMBIOS 1 entry point.
pub const SMBIOS_GUID: u128 = 0x4dc13f279000169a11d32d88eb9d2d31;

/// The configuration-table identifier of the SMBIOS 3 entry point.
pub const SMBIOS3_GUID: u128 = 0x94e320cfbbe52e994a2c9794f2fd1544;

/// One firmware configuration-table entry: the table's identifier and the
/// physical address of the table it points at.
#[derive(Clone, Copy, Debug, PartialEq, Eq, Structural)]
pub struct ConfigEntry {
    /// The table's identifier, its 16 bytes read little-endian.
    pub guid: u128,
    /// The physical address of the table.
    pub address: u64,
}

/// One entry of the memory map handed to the kernel.
#[derive(Clone, Copy, Debug, PartialEq, Eq, Structural)]
pub struct OSMemEntry {
    /// The firmware's memory-type code for the region.
    pub ty: u32,
    /// The physical base address of the region.
    pub base: usize,
    /// The region's length in pages.
    pub pages: usize,
    /// The firmware's attribute bits for the region.
    pub att: u64,
}

/// The argument block the bootloader assembles for the kernel.
#[derive(Clone, Copy, Debug, PartialEq, Eq, Structural)]
pub struct KernelArgs {
    /// The physical address of the ACPI RSDP.
    pub acpi_ptr: u64,
    /// The physical address of the SMBIOS table.
    pub smbios_ptr: u64,
    /// The version of the ACPI RSDP pointed at by `acpi_ptr`.
    pub acpi_ver: u8,
    /// The version of the SMBIOS table pointed at by `smbios_ptr`.
    pub smbios_ver: u8,
    /// The physical address of the PCI Express ECAM space.
    pub pcie_ptr: u64,
    /// The physical address of the `OSMemEntry` list.
    pub memmap_ptr: u64,
    /// The number of entries in the list at `memmap_ptr`.
    pub memmap_entries: usize,
}

/// What one configuration-table entry contributes to the argument block:
/// an ACPI or SMBIOS table is recorded only if its version is higher than
/// the one already recorded, so the highest-version implementation wins
/// and, among equals, the first seen.
pub open spec fn cfg_step(a: KernelArgs, e: ConfigEntry) -> KernelArgs {
    if e.guid == ACPI2_GUID {
        if a.acpi_ver < 2 {
            KernelArgs { acpi_ver: 2, acpi_ptr: e.address, ..a }
        } else {
            a
        }
    } else if e.guid == ACPI_GUID {
        if a.acpi_ver < 1 {
            KernelArgs { acpi_ver: 1, acpi_ptr: e.address, ..a }
        } else {
            a
        }
    } else if e.guid == SMBIOS3_GUID {
        if a.smbios_ver < 3 {
            KernelArgs { smbios_ver: 3, smbios_ptr: e.address, ..a }
        } else {
            a
        }
    } else if e.guid == SMBIOS_GUID {
        if a.smbios_ver < 1 {
            KernelArgs { smbios_ver: 1, smbios_ptr: e.address, ..a }
        } else {
            a
        }
    } else {
        a
    }
}

/// The argument block after walking a whole configuration table, left to
/// right, from the starting state `a`.
pub open spec fn cfg_fold(a: KernelArgs, entries: Seq<ConfigEntry>) -> KernelArgs
    decreases entries.len(),
{
    if entries.len() == 0 {
        a
    } else {
        cfg_step(cfg_fold(a, entries.drop_last()), entries.last())
    }
}

impl Default for KernelArgs {
    /// The empty argument block: every address and version zero.
    fn default() -> (r: Self)
        ensures
            r == (KernelArgs {
                acpi_ptr: 0,
                smbios_ptr: 0,
                acpi_ver: 0,
                smbios_ver: 0,
                pcie_ptr: 0,
                memmap_ptr: 0,
                memmap_entries: 0,
            }),
    {
        KernelArgs {
            acpi_ptr: 0,
            smbios_ptr: 0,
            acpi_ver: 0,
            smbios_ver: 0,
            pcie_ptr: 0,
            memmap_ptr: 0,
            memmap_entries: 0,
        }
    }
}

impl KernelArgs {
    /// Populates the ACPI and SMBIOS addresses and versions from a firmware
    /// configuration table.  The whole table is searched and the
    /// highest-version implementation of each standard is kept, exactly as
    /// `cfg_fold` states.
    pub fn populate_from_cfg_table(&mut self, cfg_tables: &[ConfigEntry])
        ensures
            *final(self) == cfg_fold(*old(self), cfg_tables@),
    {
        let mut i: usize = 0;
        while i < cfg_tables.len()
            invariant
                i <= cfg_tables@.len(),
                *self == cfg_fold(*old(self), cfg_tables@.take(i as int)),
            decreases cfg_tables@.len() - i,
        {
            let cfg = cfg_tables[i];
            proof {
                assert(cfg_tables@.take(i + 1).drop_last() =~= cfg_tables@.take(i as int));
                assert(cfg_tables@.take(i + 1).last() == cfg_tables@[i as int]);
            }
            if cfg.guid == ACPI2_GUID {
                if self.acpi_ver < 2 {
                    self.acpi_ver = 2;
                    self.acpi_ptr = cfg.address;
                }
            } else if cfg.guid == ACPI_GUID {
                if self.acpi_ver < 1 {
                    self.acpi_ver = 1;
                    self.acpi_ptr = cfg.address;
                }
            } else if cfg.guid == SMBIOS3_GUID {
                if self.smbios_ver < 3 {
                    self.smbios_ver = 3;
                    self.smbios_ptr = cfg.address;
                }
            } else if cfg.guid == SMBIOS_GUID {
                if self.smbios_ver < 1 {
                    self.smbios_ver = 1;
                    self.smbios_ptr = cfg.address;
                }
            }
            i = i + 1;
        }
        proof {
            assert(cfg_tables@.take(cfg_tables@.len() as int) =~= cfg_tables@);
        }
    }

    /// Returns the ACPI address and version as a pair.
    pub fn get_acpi(&self) -> (r: (u64, u8))
        ensures
            r == (self.acpi_ptr, self.acpi_ver),
    {
        (self.acpi_ptr, self.acpi_ver)
    }

    /// Returns the SMBIOS address and version as a pair.
    pub fn get_smbios(&self) -> (r: (u64, u8))
        ensures
            r == (self.smbios_ptr, self.smbios_ver),
    {
        (self.smbios_ptr, self.smbios_ver)
    }

    /// Sets the PCI Express ECAM address.
    pub fn set_pcie(&mut self, ptr: u64)
        ensures
            *final(self) == (KernelArgs { pcie_ptr: ptr, ..*old(self) }),
    {
        self.pcie_ptr = ptr;
    }

    /// Returns the PCI Express ECAM address.
    pub fn get_pcie(&self) -> (r: u64)
        ensures
            r == self.pcie_ptr,
    {
        self.pcie_ptr
    }

    /// Sets the memory-map address and entry count.
    pub fn set_memmap(&mut self, ptr: u64, entries: usize)
        ensures
            *final(self) == (KernelArgs { memmap_ptr: ptr, memmap_entries: entries, ..*old(self) }),
    {
        self.memmap_ptr = ptr;
        self.memmap_entries = entries;
    }

    /// Returns the memory-map address.
    pub fn get_memmap(&self) -> (r: u64)
        ensures
            r == self.memmap_ptr,
    {
        self.memmap_ptr
    }

    /// Returns the number of entries at the memory-map address.
    pub fn get_memmap_entries(&self) -> (r: usize)
        ensures
            r == self.memmap_entries,
    {
        self.memmap_entries
    }
}

} // verus!
