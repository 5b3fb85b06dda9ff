use kernel_loader::idt::{IDTEntry, IDTPointer};

#[test]
fn empty_entry_is_all_zero() {
    let e = IDTEntry::empty();
    assert_eq!(e.offset_1, 0);
    assert_eq!(e.selector, 0);
    assert_eq!(e.ist, 0);
    assert_eq!(e.type_attrs, 0);
    assert_eq!(e.offset_2, 0);
    assert_eq!(e.offset_3, 0);
    assert_eq!(e.zero, 0);
}

#[test]
fn set_handler_splits_address() {
    let mut e = IDTEntry::empty();
    e.set_handler(0xdead_beef_cafe_babe);
    assert_eq!(e.offset_1, 0xbabe);
    assert_eq!(e.offset_2, 0xcafe);
    assert_eq!(e.offset_3, 0xdead_beef);
    assert_eq!(e.selector, 0x08);
    assert_eq!(e.ist, 0);
    assert_eq!(e.type_attrs, 0x8e);
    assert_eq!(e.zero, 0);
    // The three offset fields together denote the handler address again.
    let rebuilt = (e.offset_1 as u64) | ((e.offset_2 as u64) << 16) | ((e.offset_3 as u64) << 32);
    assert_eq!(rebuilt, 0xdead_beef_cafe_babe);
}

#[test]
fn idt_pointer_holds_location() {
    let p = IDTPointer { limit: 16 * 256 - 1, base: 0x7000 };
    assert_eq!(p.limit, 4095);
    assert_eq!(p.base, 0x7000);
}
