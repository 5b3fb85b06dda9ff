use kernel_loader::kernel_args::{
    ConfigEntry, KernelArgs, ACPI2_GUID, ACPI_GUID, SMBIOS3_GUID, SMBIOS_GUID,
};
use uefi::table::cfg::ConfigTableEntry;

fn guid_value(g: uefi::Guid) -> u128 {
    u128::from_le_bytes(g.to_bytes())
}

#[test]
fn guid_constants_match_firmware() {
    assert_eq!(ACPI_GUID, guid_value(ConfigTableEntry::ACPI_GUID));
    assert_eq!(ACPI2_GUID, guid_value(ConfigTableEntry::ACPI2_GUID));
    assert_eq!(SMBIOS_GUID, guid_value(ConfigTableEntry::SMBIOS_GUID));
    assert_eq!(SMBIOS3_GUID, guid_value(ConfigTableEntry::SMBIOS3_GUID));
}

#[test]
fn default_is_all_zero() {
    let ka = KernelArgs::default();
    assert_eq!(ka.get_acpi(), (0, 0));
    assert_eq!(ka.get_smbios(), (0, 0));
    assert_eq!(ka.get_pcie(), 0);
    assert_eq!(ka.get_memmap(), 0);
    assert_eq!(ka.get_memmap_entries(), 0);
}

#[test]
fn populate_prefers_highest_acpi_version() {
    let mut ka = KernelArgs::default();
    let tables = vec![
        ConfigEntry { guid: ACPI_GUID, address: 0x1000 },
        ConfigEntry { guid: ACPI2_GUID, address: 0x2000 },
    ];
    ka.populate_from_cfg_table(&tables);
    assert_eq!(ka.get_acpi(), (0x2000, 2));
}

#[test]
fn populate_keeps_higher_version_already_found() {
    let mut ka = KernelArgs::default();
    let tables = vec![
        ConfigEntry { guid: ACPI2_GUID, address: 0x2000 },
        ConfigEntry { guid: ACPI_GUID, address: 0x1000 },
    ];
    ka.populate_from_cfg_table(&tables);
    assert_eq!(ka.get_acpi(), (0x2000, 2));
}

#[test]
fn populate_keeps_first_of_equal_version() {
    let mut ka = KernelArgs::default();
    let tables = vec![
        ConfigEntry { guid: ACPI2_GUID, address: 0x2000 },
        ConfigEntry { guid: ACPI2_GUID, address: 0x3000 },
    ];
    ka.populate_from_cfg_table(&tables);
    assert_eq!(ka.get_acpi(), (0x2000, 2));
}

#[test]
fn populate_finds_smbios_tables() {
    let mut ka = KernelArgs::default();
    let tables = vec![
        ConfigEntry { guid: SMBIOS_GUID, address: 0x4000 },
        ConfigEntry { guid: SMBIOS3_GUID, address: 0x5000 },
        ConfigEntry { guid: 0x1234, address: 0x6000 },
    ];
    ka.populate_from_cfg_table(&tables);
    assert_eq!(ka.get_smbios(), (0x5000, 3));
    assert_eq!(ka.get_acpi(), (0, 0));
}

#[test]
fn setters_and_getters_round_trip() {
    let mut ka = KernelArgs::default();
    ka.set_pcie(0xb000_0000);
    assert_eq!(ka.get_pcie(), 0xb000_0000);
    ka.set_memmap(0x9000, 42);
    assert_eq!(ka.get_memmap(), 0x9000);
    assert_eq!(ka.get_memmap_entries(), 42);
    // The unrelated fields are untouched.
    assert_eq!(ka.get_acpi(), (0, 0));
    assert_eq!(ka.get_smbios(), (0, 0));
}
