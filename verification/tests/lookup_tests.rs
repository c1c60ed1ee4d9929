use usbfly::class_codes::{get_class_codes, get_class_description, get_protocol_description, get_subclass_description};
use usbfly::descriptor_types::{get_descriptor_type_name, get_descriptor_types};
use usbfly::vendor_ids::{get_vendor_ids, lookup_vendor};

#[test]
fn class_lookup_known_and_unknown() {
    assert_eq!(get_class_description(0x03), Some("Human Interface Device (HID)".to_string()));
    assert_eq!(get_class_description(0x08), Some("Mass Storage".to_string()));
    assert_eq!(get_class_description(0xFF), Some("Vendor Specific".to_string()));
    assert_eq!(get_class_description(0x04), None);
}

#[test]
fn subclass_and_protocol_lookup() {
    assert_eq!(get_subclass_description(0x01, 0x01), Some("Audio Control".to_string()));
    assert_eq!(get_subclass_description(0x03, 0x01), Some("Boot Interface Subclass".to_string()));
    assert_eq!(get_subclass_description(0x03, 0x05), None);
    assert_eq!(get_protocol_description(0x03, 0x01, 0x02), Some("Mouse".to_string()));
    assert_eq!(get_protocol_description(0x08, 0x06, 0x50), Some("Bulk-Only Transport".to_string()));
    assert_eq!(get_protocol_description(0x03, 0x01, 0x03), None);
}

#[test]
fn class_table_agrees_with_lookup() {
    let table = get_class_codes();
    assert_eq!(table.len(), 22);
    for w in table.windows(2) {
        assert!(w[0].0 < w[1].0);
    }
    for (code, name) in &table {
        assert_eq!(get_class_description(*code), Some(name.clone()));
    }
    for code in 0..=255u8 {
        if get_class_description(code).is_some() {
            assert!(table.iter().any(|(c, _)| *c == code));
        }
    }
}

#[test]
fn vendor_lookup() {
    assert_eq!(lookup_vendor(0x1D50), Some("Great Scott Gadgets".to_string()));
    assert_eq!(lookup_vendor(0x046D), Some("Logitech, Inc.".to_string()));
    assert_eq!(lookup_vendor(0x8086), Some("Intel Corporation".to_string()));
    assert_eq!(lookup_vendor(0x1234), None);
}

#[test]
fn vendor_table_agrees_with_lookup() {
    let table = get_vendor_ids();
    for w in table.windows(2) {
        assert!(w[0].0 < w[1].0);
    }
    for (id, name) in &table {
        assert_eq!(lookup_vendor(*id), Some(name.clone()));
    }
    for id in 0..=0xFFFFu16 {
        if lookup_vendor(id).is_some() {
            assert!(table.iter().any(|(v, _)| *v == id));
        }
    }
}

#[test]
fn descriptor_type_lookup() {
    assert_eq!(get_descriptor_type_name(0x01), Some("Device"));
    assert_eq!(get_descriptor_type_name(0x0C), Some("BOS"));
    assert_eq!(get_descriptor_type_name(0x21), Some("HID"));
    assert_eq!(get_descriptor_type_name(0x11), None);
    let table = get_descriptor_types();
    assert_eq!(table.len(), 21);
    for (code, name) in &table {
        assert_eq!(get_descriptor_type_name(*code), Some(name.as_str()));
    }
}
