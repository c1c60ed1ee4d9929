//! The hints the descriptor view shows beside a selected descriptor, in
//! four groups: general information, power and usage, technical details,
//! and notes from the USB specification. They are read from the
//! descriptor's standard fields.

use vstd::prelude::*;
use crate::class_codes::{get_class_description, spec_class_name};
use crate::descriptor::{DescriptorModel, DescriptorView, USBDescriptor};
use crate::text::{push_decimal, push_hex2, push_hex4, spec_decimal, spec_hex2, spec_hex4};
use crate::traffic::{desc_byte, spec_desc_byte};

verus! {

/// Model of the hints of a descriptor.
pub struct HintsModel {
    pub general: Seq<Seq<char>>,
    pub usage: Seq<Seq<char>>,
    pub details: Seq<Seq<char>>,
    pub specs: Seq<Seq<char>>,
}

/// The hints of a descriptor, by group.
pub struct DescriptorHints {
    pub general: Vec<String>,
    pub usage: Vec<String>,
    pub details: Vec<String>,
    pub specs: Vec<String>,
}

/// Model of a list of lines.
pub open spec fn lines_model(v: Seq<String>) -> Seq<Seq<char>> {
    Seq::new(v.len(), |i: int| v[i]@)
}

impl View for DescriptorHints {
    type V = HintsModel;

    open spec fn view(&self) -> HintsModel {
        HintsModel {
            general: lines_model(self.general@),
            usage: lines_model(self.usage@),
            details: lines_model(self.details@),
            specs: lines_model(self.specs@),
        }
    }
}

/// The byte at `k` of the descriptor as sent.
pub open spec fn byte(d: DescriptorModel, k: int) -> int {
    spec_desc_byte(d, k) as int
}

/// `prefix`, a number in decimal, then `suffix`.
pub open spec fn dec_line(prefix: Seq<char>, n: int, suffix: Seq<char>) -> Seq<char> {
    prefix + spec_decimal(n as nat) + suffix
}

/// A BCD release number as `major.minor`, from its high byte and the high
/// nibble of its low byte.
pub open spec fn version_text(low: int, high: int) -> Seq<char> {
    spec_decimal(high as nat) + "."@ + spec_decimal((low / 16) as nat)
}

/// The class line of a device or device qualifier.
pub open spec fn device_class_line(class: u8) -> Seq<char> {
    if class == 0 {
        "Interface Association: Each interface specifies its own class"@
    } else {
        "Device Class: "@ + class_name(class)
    }
}

/// The name of a class code, or "Unknown".
pub open spec fn class_name(class: u8) -> Seq<char> {
    match spec_class_name(class) {
        Some(n) => n,
        None => "Unknown"@,
    }
}

/// Notes on the USB release a device reports.
pub open spec fn usb_release_notes(low: int, high: int) -> Seq<Seq<char>> {
    if high == 1 {
        if low / 16 == 0 {
            seq!["USB 1.0: Original USB specification (1996)"@]
        } else if low / 16 == 1 {
            seq!["USB 1.1: Full-Speed USB at 12 Mbps (1998)"@]
        } else {
            Seq::empty()
        }
    } else if high == 2 {
        seq!["USB 2.0: High-Speed USB at 480 Mbps (2000)"@, "Supports backward compatibility with USB 1.1 devices"@]
    } else if high == 3 {
        seq!["USB 3.0/3.1 Gen 1: SuperSpeed USB at 5 Gbps"@, "Supports backward compatibility with USB 2.0 devices"@]
    } else {
        Seq::empty()
    }
}

/// Hints of a device descriptor.
pub open spec fn spec_device_hints(d: DescriptorModel) -> HintsModel {
    HintsModel {
        general: seq![
            "USB Version: USB "@ + version_text(byte(d, 2), byte(d, 3)),
            device_class_line(spec_desc_byte(d, 4)),
        ],
        usage: Seq::empty(),
        details: seq![
            dec_line("Maximum packet size for endpoint 0: "@, byte(d, 7), " bytes"@),
            "Vendor ID: 0x"@ + spec_hex4((byte(d, 8) + 256 * byte(d, 9)) as u16),
            "Product ID: 0x"@ + spec_hex4((byte(d, 10) + 256 * byte(d, 11)) as u16),
            "Device version: "@ + version_text(byte(d, 12), byte(d, 13)),
            dec_line("Configurations: "@, byte(d, 17), ""@),
        ],
        specs: usb_release_notes(byte(d, 2), byte(d, 3)),
    }
}

/// Hints of a configuration descriptor.
pub open spec fn spec_configuration_hints(d: DescriptorModel) -> HintsModel {
    let attributes = byte(d, 7);
    let powered: Seq<Seq<char>> = if (attributes / 64) % 2 == 1 {
        seq!["Device is self-powered"@]
    } else {
        seq!["Device is bus-powered"@]
    };
    let wakeup: Seq<Seq<char>> = if (attributes / 32) % 2 == 1 { seq!["Remote wakeup supported"@] } else { Seq::empty() };
    HintsModel {
        general: seq![dec_line("Interfaces: "@, byte(d, 4), ""@)],
        usage: seq![dec_line("Power consumption: "@, 2 * byte(d, 8), "mA"@)] + powered + wakeup,
        details: Seq::empty(),
        specs: Seq::empty(),
    }
}

/// Notes on what interfaces of a class are for.
pub open spec fn class_notes(class: int) -> Seq<Seq<char>> {
    if class == 0x03 {
        seq![
            "Human Interface Device (HID) class interfaces are used for input devices like keyboards, mice, and game controllers."@,
            "HID devices use standardized report formats to describe their capabilities and controls."@,
        ]
    } else if class == 0x08 {
        seq![
            "Mass Storage class interfaces implement protocols like SCSI, allowing access to storage media."@,
            "These devices typically use bulk transfers for data and control transfers for commands."@,
        ]
    } else if class == 0x0E {
        seq![
            "Video class interfaces handle video streaming from devices like webcams."@,
            "They often use isochronous transfers for continuous video data."@,
        ]
    } else {
        Seq::empty()
    }
}

/// Hints of an interface descriptor.
pub open spec fn spec_interface_hints(d: DescriptorModel) -> HintsModel {
    let alternate: Seq<Seq<char>> = if byte(d, 3) > 0 {
        seq![dec_line("Alternate Setting: "@, byte(d, 3), ""@)]
    } else {
        Seq::empty()
    };
    HintsModel {
        general: seq![
            dec_line("Interface Number: "@, byte(d, 2), ""@),
            "Class: "@ + class_name(spec_desc_byte(d, 5)),
        ] + alternate,
        usage: Seq::empty(),
        details: if byte(d, 7) > 0 { seq!["Protocol: 0x"@ + spec_hex2(spec_desc_byte(d, 7))] } else { Seq::empty() },
        specs: class_notes(byte(d, 5)),
    }
}

/// Name of an endpoint's transfer type, from the low two bits of its
/// attributes.
pub open spec fn transfer_kind_name(attributes: int) -> Seq<char> {
    let t = attributes % 4;
    if t == 0 { "Control"@ } else if t == 1 { "Isochronous"@ } else if t == 2 { "Bulk"@ } else { "Interrupt"@ }
}

/// The note on an endpoint's transfer type.
pub open spec fn transfer_kind_note(attributes: int) -> Seq<char> {
    let t = attributes % 4;
    if t == 0 {
        "Control endpoints are used for device configuration and control"@
    } else if t == 1 {
        "Isochronous endpoints are used for time-critical data like audio/video"@
    } else if t == 2 {
        "Bulk endpoints are used for large non-time-critical data transfers"@
    } else {
        "Interrupt endpoints are used for small, time-sensitive data like keyboard/mouse input"@
    }
}

/// Hints of an endpoint descriptor.
pub open spec fn spec_endpoint_hints(d: DescriptorModel) -> HintsModel {
    let address = byte(d, 2);
    HintsModel {
        general: seq![
            "Address: 0x"@ + spec_hex2(spec_desc_byte(d, 2)),
            "Direction: "@ + (if address >= 0x80 { "IN"@ } else { "OUT"@ }),
            "Type: "@ + transfer_kind_name(byte(d, 3)),
        ],
        usage: Seq::empty(),
        details: seq![
            dec_line("Max Packet Size: "@, byte(d, 4) + 256 * byte(d, 5), " bytes"@),
            dec_line("Interval: "@, byte(d, 6), " ms"@),
            dec_line("Endpoint Number: "@, address % 16, ""@),
        ],
        specs: seq![transfer_kind_note(byte(d, 3))],
    }
}

/// Hints of a device qualifier descriptor.
pub open spec fn spec_qualifier_hints(d: DescriptorModel) -> HintsModel {
    HintsModel {
        general: seq![
            "USB Version: USB "@ + version_text(byte(d, 2), byte(d, 3)),
            device_class_line(spec_desc_byte(d, 4)),
        ],
        usage: Seq::empty(),
        details: seq![
            dec_line("Max Packet Size (EP0): "@, byte(d, 7), " bytes"@),
            dec_line("Configurations: "@, byte(d, 8), ""@),
        ],
        specs: seq![
            "A device qualifier descriptor describes how a high-speed capable device would operate in full-speed mode"@,
            "This indicates the device is dual-speed capable (high-speed and full-speed)"@,
        ],
    }
}

/// Hints of a HID descriptor, read from the bytes after its header.
pub open spec fn spec_hid_hints(d: DescriptorModel) -> HintsModel {
    let h = d.data;
    HintsModel {
        general: if h.len() >= 6 {
            seq![
                "HID Descriptor Raw Data"@,
                dec_line("HID Version: "@, h[0] as int, "."@ + spec_decimal(h[1] as nat)),
                dec_line("Country Code: "@, h[2] as int, ""@),
            ]
        } else {
            seq!["HID Descriptor Raw Data"@]
        },
        usage: Seq::empty(),
        details: if h.len() >= 6 {
            seq![
                dec_line("Raw Data Size: "@, h.len() as int, " bytes"@),
                dec_line("Number of descriptors: "@, h[3] as int, ""@),
            ]
        } else {
            seq![dec_line("Raw Data Size: "@, h.len() as int, " bytes"@)]
        },
        specs: seq![
            "HID (Human Interface Device) is used for input devices like keyboards, mice, game controllers, etc."@,
            "HID descriptors define how the device communicates its capabilities and controls"@,
        ],
    }
}

/// Hints of a string descriptor.
pub open spec fn spec_string_hints() -> HintsModel {
    HintsModel {
        general: Seq::empty(),
        usage: Seq::empty(),
        details: Seq::empty(),
        specs: seq!["String descriptors provide human-readable information for the device"@],
    }
}

/// Hints of a descriptor of a type without standard fields here.
pub open spec fn spec_unknown_hints(d: DescriptorModel) -> HintsModel {
    HintsModel {
        general: seq!["Type: 0x"@ + spec_hex2(d.descriptor_type)],
        usage: Seq::empty(),
        details: seq![dec_line("Data Length: "@, d.data.len() as int, " bytes"@)],
        specs: seq![
            "This is a vendor-specific or class-specific descriptor not recognized by standard USB specifications"@,
            "It may contain specialized functionality for this particular device"@,
        ],
    }
}

/// The hints of a descriptor, by its type. A standard descriptor shorter
/// than its fields counts as one of unknown type.
pub open spec fn spec_descriptor_hints(d: DescriptorModel) -> HintsModel {
    let t = d.descriptor_type;
    let n = d.data.len();
    if t == 1 && n >= 16 {
        spec_device_hints(d)
    } else if t == 2 && n >= 7 {
        spec_configuration_hints(d)
    } else if t == 4 && n >= 7 {
        spec_interface_hints(d)
    } else if t == 5 && n >= 5 {
        spec_endpoint_hints(d)
    } else if t == 6 && n >= 8 {
        spec_qualifier_hints(d)
    } else if t == 0x21 {
        spec_hid_hints(d)
    } else if t == 3 {
        spec_string_hints()
    } else {
        spec_unknown_hints(d)
    }
}

fn dec_text(prefix: &str, n: u64, suffix: &str) -> (s: String)
    ensures
        s@ == dec_line(prefix@, n as int, suffix@),
{
    let mut s = String::from_str(prefix);
    push_decimal(&mut s, n);
    s.append(suffix);
    s
}

fn push_version(out: &mut String, low: u8, high: u8)
    ensures
        final(out)@ == old(out)@ + version_text(low as int, high as int),
{
    push_decimal(out, high as u64);
    out.append(".");
    push_decimal(out, (low / 16) as u64);
    assert(final(out)@ =~= old(out)@ + version_text(low as int, high as int));
}

fn class_name_text(class: u8) -> (s: String)
    ensures
        s@ == class_name(class),
{
    match get_class_description(class) {
        Some(n) => n,
        None => String::from_str("Unknown"),
    }
}

fn device_class_text(class: u8) -> (s: String)
    ensures
        s@ == device_class_line(class),
{
    if class == 0 {
        String::from_str("Interface Association: Each interface specifies its own class")
    } else {
        let mut s = String::from_str("Device Class: ");
        s.append(class_name_text(class).as_str());
        s
    }
}

fn lines(v: &[&str]) -> (r: Vec<String>)
    ensures
        lines_model(r@) == Seq::new(v@.len(), |i: int| v@[i]@),
{
    let mut r: Vec<String> = Vec::new();
    let mut i: usize = 0;
    while i < v.len()
        invariant
            i <= v@.len(),
            r@.len() == i,
            lines_model(r@) == Seq::new(i as nat, |k: int| v@[k]@),
        decreases v@.len() - i,
    {
        let ghost prev = r@;
        let line = String::from_str(v[i]);
        assert(line@ == v@[i as int]@);
        r.push(line);
        assert forall|k: int| 0 <= k < i + 1 implies #[trigger] lines_model(r@)[k] == v@[k]@ by {
            if k < i {
                assert(r@[k] == prev[k]);
                assert(lines_model(prev)[k] == v@[k]@);
            }
        }
        i += 1;
        assert(lines_model(r@) =~= Seq::new(i as nat, |k: int| v@[k]@));
    }
    r
}

fn push_line(v: &mut Vec<String>, s: String)
    ensures
        lines_model(final(v)@) == lines_model(old(v)@).push(s@),
{
    v.push(s);
    assert(lines_model(final(v)@) =~= lines_model(old(v)@).push(s@));
}

fn device_hints(d: &USBDescriptor) -> (h: DescriptorHints)
    ensures
        h@ == spec_device_hints(d@),
{
    let mut general: Vec<String> = Vec::new();
    let mut version = String::from_str("USB Version: USB ");
    push_version(&mut version, desc_byte(d, 2), desc_byte(d, 3));
    push_line(&mut general, version);
    push_line(&mut general, device_class_text(desc_byte(d, 4)));
    let mut details: Vec<String> = Vec::new();
    push_line(&mut details, dec_text("Maximum packet size for endpoint 0: ", desc_byte(d, 7) as u64, " bytes"));
    let mut vid = String::from_str("Vendor ID: 0x");
    push_hex4(&mut vid, desc_byte(d, 8) as u16 + 256 * (desc_byte(d, 9) as u16));
    push_line(&mut details, vid);
    let mut pid = String::from_str("Product ID: 0x");
    push_hex4(&mut pid, desc_byte(d, 10) as u16 + 256 * (desc_byte(d, 11) as u16));
    push_line(&mut details, pid);
    let mut dev = String::from_str("Device version: ");
    push_version(&mut dev, desc_byte(d, 12), desc_byte(d, 13));
    push_line(&mut details, dev);
    push_line(&mut details, dec_text("Configurations: ", desc_byte(d, 17) as u64, ""));
    let low = desc_byte(d, 2);
    let high = desc_byte(d, 3);
    let specs = if high == 1 {
        if low / 16 == 0 {
            lines(&["USB 1.0: Original USB specification (1996)"])
        } else if low / 16 == 1 {
            lines(&["USB 1.1: Full-Speed USB at 12 Mbps (1998)"])
        } else {
            Vec::new()
        }
    } else if high == 2 {
        lines(&["USB 2.0: High-Speed USB at 480 Mbps (2000)", "Supports backward compatibility with USB 1.1 devices"])
    } else if high == 3 {
        lines(&["USB 3.0/3.1 Gen 1: SuperSpeed USB at 5 Gbps", "Supports backward compatibility with USB 2.0 devices"])
    } else {
        Vec::new()
    };
    let h = DescriptorHints { general, usage: Vec::new(), details, specs };
    assert(lines_model(h.usage@) =~= Seq::<Seq<char>>::empty());
    assert(h@.specs =~= usb_release_notes(byte(d@, 2), byte(d@, 3)));
    assert(h@.general =~= spec_device_hints(d@).general);
    assert(h@.details =~= spec_device_hints(d@).details);
    h
}

fn configuration_hints(d: &USBDescriptor) -> (h: DescriptorHints)
    ensures
        h@ == spec_configuration_hints(d@),
{
    let mut general: Vec<String> = Vec::new();
    push_line(&mut general, dec_text("Interfaces: ", desc_byte(d, 4) as u64, ""));
    let mut usage: Vec<String> = Vec::new();
    push_line(&mut usage, dec_text("Power consumption: ", desc_byte(d, 8) as u64 * 2, "mA"));
    let attributes = desc_byte(d, 7);
    if (attributes / 64) % 2 == 1 {
        push_line(&mut usage, String::from_str("Device is self-powered"));
    } else {
        push_line(&mut usage, String::from_str("Device is bus-powered"));
    }
    if (attributes / 32) % 2 == 1 {
        push_line(&mut usage, String::from_str("Remote wakeup supported"));
    }
    let h = DescriptorHints { general, usage, details: Vec::new(), specs: Vec::new() };
    assert(lines_model(h.details@) =~= Seq::<Seq<char>>::empty());
    assert(lines_model(h.specs@) =~= Seq::<Seq<char>>::empty());
    assert(h@.general =~= spec_configuration_hints(d@).general);
    assert(h@.usage =~= spec_configuration_hints(d@).usage);
    h
}

fn interface_hints(d: &USBDescriptor) -> (h: DescriptorHints)
    ensures
        h@ == spec_interface_hints(d@),
{
    let mut general: Vec<String> = Vec::new();
    push_line(&mut general, dec_text("Interface Number: ", desc_byte(d, 2) as u64, ""));
    let mut class = String::from_str("Class: ");
    class.append(class_name_text(desc_byte(d, 5)).as_str());
    push_line(&mut general, class);
    if desc_byte(d, 3) > 0 {
        push_line(&mut general, dec_text("Alternate Setting: ", desc_byte(d, 3) as u64, ""));
    }
    let mut details: Vec<String> = Vec::new();
    if desc_byte(d, 7) > 0 {
        let mut p = String::from_str("Protocol: 0x");
        push_hex2(&mut p, desc_byte(d, 7));
        push_line(&mut details, p);
    }
    let c = desc_byte(d, 5);
    let specs = if c == 0x03 {
        lines(&[
            "Human Interface Device (HID) class interfaces are used for input devices like keyboards, mice, and game controllers.",
            "HID devices use standardized report formats to describe their capabilities and controls.",
        ])
    } else if c == 0x08 {
        lines(&[
            "Mass Storage class interfaces implement protocols like SCSI, allowing access to storage media.",
            "These devices typically use bulk transfers for data and control transfers for commands.",
        ])
    } else if c == 0x0E {
        lines(&[
            "Video class interfaces handle video streaming from devices like webcams.",
            "They often use isochronous transfers for continuous video data.",
        ])
    } else {
        Vec::new()
    };
    let h = DescriptorHints { general, usage: Vec::new(), details, specs };
    assert(lines_model(h.usage@) =~= Seq::<Seq<char>>::empty());
    assert(h@.general =~= spec_interface_hints(d@).general);
    assert(h@.details =~= spec_interface_hints(d@).details);
    assert(h@.specs =~= spec_interface_hints(d@).specs);
    h
}

fn endpoint_hints(d: &USBDescriptor) -> (h: DescriptorHints)
    ensures
        h@ == spec_endpoint_hints(d@),
{
    let address = desc_byte(d, 2);
    let attributes = desc_byte(d, 3);
    let mut general: Vec<String> = Vec::new();
    let mut a = String::from_str("Address: 0x");
    push_hex2(&mut a, address);
    push_line(&mut general, a);
    push_line(&mut general, String::from_str(if address >= 0x80 { "Direction: IN" } else { "Direction: OUT" }));
    let t = attributes % 4;
    let (kind, note) = if t == 0 {
        ("Type: Control", "Control endpoints are used for device configuration and control")
    } else if t == 1 {
        ("Type: Isochronous", "Isochronous endpoints are used for time-critical data like audio/video")
    } else if t == 2 {
        ("Type: Bulk", "Bulk endpoints are used for large non-time-critical data transfers")
    } else {
        ("Type: Interrupt", "Interrupt endpoints are used for small, time-sensitive data like keyboard/mouse input")
    };
    push_line(&mut general, String::from_str(kind));
    let mut details: Vec<String> = Vec::new();
    let size = desc_byte(d, 4) as u64 + 256 * (desc_byte(d, 5) as u64);
    push_line(&mut details, dec_text("Max Packet Size: ", size, " bytes"));
    push_line(&mut details, dec_text("Interval: ", desc_byte(d, 6) as u64, " ms"));
    push_line(&mut details, dec_text("Endpoint Number: ", (address % 16) as u64, ""));
    let mut specs: Vec<String> = Vec::new();
    push_line(&mut specs, String::from_str(note));
    proof {
        reveal_strlit("Direction: IN");
        reveal_strlit("Direction: OUT");
        reveal_strlit("Type: Control");
        reveal_strlit("Type: Isochronous");
        reveal_strlit("Type: Bulk");
        reveal_strlit("Type: Interrupt");
        reveal_strlit("Direction: ");
        reveal_strlit("Type: ");
        reveal_strlit("IN");
        reveal_strlit("OUT");
        reveal_strlit("Control");
        reveal_strlit("Isochronous");
        reveal_strlit("Bulk");
        reveal_strlit("Interrupt");
        assert("Direction: IN"@ =~= "Direction: "@ + "IN"@);
        assert("Direction: OUT"@ =~= "Direction: "@ + "OUT"@);
        assert("Type: Control"@ =~= "Type: "@ + "Control"@);
        assert("Type: Isochronous"@ =~= "Type: "@ + "Isochronous"@);
        assert("Type: Bulk"@ =~= "Type: "@ + "Bulk"@);
        assert("Type: Interrupt"@ =~= "Type: "@ + "Interrupt"@);
    }
    let h = DescriptorHints { general, usage: Vec::new(), details, specs };
    assert(lines_model(h.usage@) =~= Seq::<Seq<char>>::empty());
    assert(h@.general =~= spec_endpoint_hints(d@).general);
    assert(h@.details =~= spec_endpoint_hints(d@).details);
    assert(h@.specs =~= spec_endpoint_hints(d@).specs);
    h
}

fn qualifier_hints(d: &USBDescriptor) -> (h: DescriptorHints)
    ensures
        h@ == spec_qualifier_hints(d@),
{
    let mut general: Vec<String> = Vec::new();
    let mut version = String::from_str("USB Version: USB ");
    push_version(&mut version, desc_byte(d, 2), desc_byte(d, 3));
    push_line(&mut general, version);
    push_line(&mut general, device_class_text(desc_byte(d, 4)));
    let mut details: Vec<String> = Vec::new();
    push_line(&mut details, dec_text("Max Packet Size (EP0): ", desc_byte(d, 7) as u64, " bytes"));
    push_line(&mut details, dec_text("Configurations: ", desc_byte(d, 8) as u64, ""));
    let specs = lines(&[
        "A device qualifier descriptor describes how a high-speed capable device would operate in full-speed mode",
        "This indicates the device is dual-speed capable (high-speed and full-speed)",
    ]);
    let h = DescriptorHints { general, usage: Vec::new(), details, specs };
    assert(lines_model(h.usage@) =~= Seq::<Seq<char>>::empty());
    assert(h@.general =~= spec_qualifier_hints(d@).general);
    assert(h@.details =~= spec_qualifier_hints(d@).details);
    assert(h@.specs =~= spec_qualifier_hints(d@).specs);
    h
}

fn hid_hints(d: &USBDescriptor) -> (h: DescriptorHints)
    ensures
        h@ == spec_hid_hints(d@),
{
    let mut general: Vec<String> = Vec::new();
    push_line(&mut general, String::from_str("HID Descriptor Raw Data"));
    let mut details: Vec<String> = Vec::new();
    push_line(&mut details, dec_text("Raw Data Size: ", d.data.len() as u64, " bytes"));
    if d.data.len() >= 6 {
        let mut v = String::from_str("HID Version: ");
        push_decimal(&mut v, d.data[0] as u64);
        v.append(".");
        push_decimal(&mut v, d.data[1] as u64);
        assert(v@ =~= dec_line("HID Version: "@, d.data@[0] as int, "."@ + spec_decimal(d.data@[1] as nat)));
        push_line(&mut general, v);
        push_line(&mut general, dec_text("Country Code: ", d.data[2] as u64, ""));
        push_line(&mut details, dec_text("Number of descriptors: ", d.data[3] as u64, ""));
    }
    let specs = lines(&[
        "HID (Human Interface Device) is used for input devices like keyboards, mice, game controllers, etc.",
        "HID descriptors define how the device communicates its capabilities and controls",
    ]);
    let h = DescriptorHints { general, usage: Vec::new(), details, specs };
    assert(lines_model(h.usage@) =~= Seq::<Seq<char>>::empty());
    assert(h@.general =~= spec_hid_hints(d@).general);
    assert(h@.details =~= spec_hid_hints(d@).details);
    assert(h@.specs =~= spec_hid_hints(d@).specs);
    h
}

fn unknown_hints(d: &USBDescriptor) -> (h: DescriptorHints)
    ensures
        h@ == spec_unknown_hints(d@),
{
    let mut general: Vec<String> = Vec::new();
    let mut t = String::from_str("Type: 0x");
    push_hex2(&mut t, d.descriptor_type);
    push_line(&mut general, t);
    let mut details: Vec<String> = Vec::new();
    push_line(&mut details, dec_text("Data Length: ", d.data.len() as u64, " bytes"));
    let specs = lines(&[
        "This is a vendor-specific or class-specific descriptor not recognized by standard USB specifications",
        "It may contain specialized functionality for this particular device",
    ]);
    let h = DescriptorHints { general, usage: Vec::new(), details, specs };
    assert(lines_model(h.usage@) =~= Seq::<Seq<char>>::empty());
    assert(h@.general =~= spec_unknown_hints(d@).general);
    assert(h@.details =~= spec_unknown_hints(d@).details);
    assert(h@.specs =~= spec_unknown_hints(d@).specs);
    h
}

/// The hints the descriptor view shows for a descriptor.
pub fn descriptor_hints(d: &USBDescriptor) -> (h: DescriptorHints)
    ensures
        h@ == spec_descriptor_hints(d@),
{
    let t = d.descriptor_type;
    let n = d.data.len();
    if t == 1 && n >= 16 {
        device_hints(d)
    } else if t == 2 && n >= 7 {
        configuration_hints(d)
    } else if t == 4 && n >= 7 {
        interface_hints(d)
    } else if t == 5 && n >= 5 {
        endpoint_hints(d)
    } else if t == 6 && n >= 8 {
        qualifier_hints(d)
    } else if t == 0x21 {
        hid_hints(d)
    } else if t == 3 {
        let h = DescriptorHints {
            general: Vec::new(),
            usage: Vec::new(),
            details: Vec::new(),
            specs: lines(&["String descriptors provide human-readable information for the device"]),
        };
        assert(lines_model(h.general@) =~= Seq::<Seq<char>>::empty());
        assert(lines_model(h.usage@) =~= Seq::<Seq<char>>::empty());
        assert(lines_model(h.details@) =~= Seq::<Seq<char>>::empty());
        assert(h@.specs =~= spec_string_hints().specs);
        h
    } else {
        unknown_hints(d)
    }
}

/// The hints for the descriptor selected in the descriptor view: `None`
/// when nothing is selected or the selection is past the list.
pub fn selected_descriptor_hints(view: &DescriptorView) -> (h: Option<DescriptorHints>)
    ensures
        match view@.selected {
            Some(i) => if i < view@.descriptors.len() {
                h matches Some(x) && x@ == spec_descriptor_hints(view@.descriptors[i as int])
            } else {
                h is None
            },
            None => h is None,
        },
{
    match view.selected_descriptor() {
        Some(i) => {
            let descriptors = view.descriptors();
            if i < descriptors.len() {
                assert(view@.descriptors[i as int] == descriptors@[i as int]@);
                Some(descriptor_hints(&descriptors[i]))
            } else {
                None
            }
        },
        None => None,
    }
}

} // verus!
