use usbfly::descriptor::{decode_descriptors, DescriptorMessage, DescriptorView, USBDescriptor};
use usbfly::hints::{descriptor_hints, selected_descriptor_hints};
use usbfly::widgets::hex_dump;

fn desc(bytes: &[u8]) -> USBDescriptor {
    USBDescriptor { length: bytes[0], descriptor_type: bytes[1], data: bytes[2..].to_vec() }
}

#[test]
fn device_descriptor_hints() {
    let h = descriptor_hints(&desc(&[18, 1, 0x00, 0x02, 0, 0, 0, 64, 0x50, 0x1d, 0x5b, 0x61, 0x00, 0x01, 1, 2, 3, 1]));
    assert_eq!(h.general, vec!["USB Version: USB 2.0", "Interface Association: Each interface specifies its own class"]);
    assert!(h.usage.is_empty());
    assert_eq!(
        h.details,
        vec![
            "Maximum packet size for endpoint 0: 64 bytes",
            "Vendor ID: 0x1D50",
            "Product ID: 0x615B",
            "Device version: 1.0",
            "Configurations: 1",
        ]
    );
    assert_eq!(h.specs, vec!["USB 2.0: High-Speed USB at 480 Mbps (2000)", "Supports backward compatibility with USB 1.1 devices"]);
    let h = descriptor_hints(&desc(&[18, 1, 0x10, 0x01, 0x03, 0, 0, 8, 0, 0, 0, 0, 0, 0, 0, 0, 0, 1]));
    assert_eq!(h.general[0], "USB Version: USB 1.1");
    assert_eq!(h.general[1], "Device Class: Human Interface Device (HID)");
    assert_eq!(h.specs, vec!["USB 1.1: Full-Speed USB at 12 Mbps (1998)"]);
}

#[test]
fn configuration_interface_endpoint_hints() {
    let c = descriptor_hints(&desc(&[9, 2, 32, 0, 1, 1, 0, 0x80, 50]));
    assert_eq!(c.general, vec!["Interfaces: 1"]);
    assert_eq!(c.usage, vec!["Power consumption: 100mA", "Device is bus-powered"]);
    let c = descriptor_hints(&desc(&[9, 2, 32, 0, 2, 1, 0, 0xE0, 0]));
    assert_eq!(c.usage, vec!["Power consumption: 0mA", "Device is self-powered", "Remote wakeup supported"]);
    let i = descriptor_hints(&desc(&[9, 4, 0, 1, 2, 0x03, 1, 1, 0]));
    assert_eq!(i.general, vec!["Interface Number: 0", "Class: Human Interface Device (HID)", "Alternate Setting: 1"]);
    assert_eq!(i.details, vec!["Protocol: 0x01"]);
    assert_eq!(i.specs.len(), 2);
    let e = descriptor_hints(&desc(&[7, 5, 0x81, 3, 8, 0, 10]));
    assert_eq!(e.general, vec!["Address: 0x81", "Direction: IN", "Type: Interrupt"]);
    assert_eq!(e.details, vec!["Max Packet Size: 8 bytes", "Interval: 10 ms", "Endpoint Number: 1"]);
    assert_eq!(e.specs, vec!["Interrupt endpoints are used for small, time-sensitive data like keyboard/mouse input"]);
    let b = descriptor_hints(&desc(&[7, 5, 0x02, 2, 0, 2, 0]));
    assert_eq!(b.general, vec!["Address: 0x02", "Direction: OUT", "Type: Bulk"]);
    assert_eq!(b.details[0], "Max Packet Size: 512 bytes");
}

#[test]
fn other_descriptor_hints() {
    let hid = descriptor_hints(&desc(&[9, 0x21, 0x11, 0x01, 0, 1, 0x22, 0x3f, 0]));
    assert_eq!(hid.general, vec!["HID Descriptor Raw Data", "HID Version: 17.1", "Country Code: 0"]);
    assert_eq!(hid.details, vec!["Raw Data Size: 7 bytes", "Number of descriptors: 1"]);
    let q = descriptor_hints(&desc(&[10, 6, 0x00, 0x02, 0xFF, 0, 0, 64, 1, 0]));
    assert_eq!(q.general, vec!["USB Version: USB 2.0", "Device Class: Vendor Specific"]);
    assert_eq!(q.details, vec!["Max Packet Size (EP0): 64 bytes", "Configurations: 1"]);
    let u = descriptor_hints(&desc(&[5, 0x24, 1, 2, 3]));
    assert_eq!(u.general, vec!["Type: 0x24"]);
    assert_eq!(u.details, vec!["Data Length: 3 bytes"]);
    let short = descriptor_hints(&desc(&[4, 1, 0, 2]));
    assert_eq!(short.general, vec!["Type: 0x01"]);
    let s = descriptor_hints(&desc(&[4, 3, 0x09, 0x04]));
    assert!(s.general.is_empty());
    assert_eq!(s.specs, vec!["String descriptors provide human-readable information for the device"]);
}

#[test]
fn selected_hints_follow_the_selection() {
    let mut v = DescriptorView::new();
    assert!(selected_descriptor_hints(&v).is_none());
    v.update_descriptors(decode_descriptors(&[7, 5, 0x81, 3, 8, 0, 10]).unwrap());
    let h = selected_descriptor_hints(&v).unwrap();
    assert_eq!(h.general[0], "Address: 0x81");
    v.update(DescriptorMessage::DescriptorSelected(5));
    assert!(selected_descriptor_hints(&v).is_none());
}

#[test]
fn hex_dump_rows() {
    assert!(hex_dump(&[], 16).is_empty());
    assert!(hex_dump(&[], 1).is_empty());
    let rows = hex_dump(&[0x41, 0x42, 0x43, 0x44, 0x7F], 2);
    assert_eq!(rows, vec!["0000: 41  42   AB", "0002: 43  44   CD", "0004: 7F       ."]);
    let rows = hex_dump(b"Hi\x00", 4);
    assert_eq!(rows, vec!["0000: 48 69  00      Hi."]);
    let big = vec![0x20u8; 65538];
    let rows = hex_dump(&big, 65536);
    assert_eq!(rows.len(), 2);
    assert!(rows[1].starts_with("10000: 20 20 "));
    assert!(rows[1].ends_with(".."));
}
