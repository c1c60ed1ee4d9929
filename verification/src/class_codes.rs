//! USB-IF class, subclass and protocol codes and their names.

use vstd::prelude::*;

verus! {

/// Name of a USB class code.
pub open spec fn spec_class_name(code: u8) -> Option<Seq<char>> {
    match code {
        0x00 => Some("Interface Association"@),
        0x01 => Some("Audio"@),
        0x02 => Some("Communications and CDC Control"@),
        0x03 => Some("Human Interface Device (HID)"@),
        0x05 => Some("Physical"@),
        0x06 => Some("Image"@),
        0x07 => Some("Printer"@),
        0x08 => Some("Mass Storage"@),
        0x09 => Some("Hub"@),
        0x0A => Some("CDC-Data"@),
        0x0B => Some("Smart Card"@),
        0x0D => Some("Content Security"@),
        0x0E => Some("Video"@),
        0x0F => Some("Personal Healthcare"@),
        0x10 => Some("Audio/Video Devices"@),
        0x11 => Some("Billboard Device"@),
        0x12 => Some("USB Type-C Bridge"@),
        0xDC => Some("Diagnostic Device"@),
        0xE0 => Some("Wireless Controller"@),
        0xEF => Some("Miscellaneous"@),
        0xFE => Some("Application Specific"@),
        0xFF => Some("Vendor Specific"@),
        _ => None,
    }
}

/// Every entry of the table, in ascending order of code.
pub open spec fn spec_class_table() -> Seq<(u8, Seq<char>)> {
    seq![
        (0x00, "Interface Association"@),
        (0x01, "Audio"@),
        (0x02, "Communications and CDC Control"@),
        (0x03, "Human Interface Device (HID)"@),
        (0x05, "Physical"@),
        (0x06, "Image"@),
        (0x07, "Printer"@),
        (0x08, "Mass Storage"@),
        (0x09, "Hub"@),
        (0x0A, "CDC-Data"@),
        (0x0B, "Smart Card"@),
        (0x0D, "Content Security"@),
        (0x0E, "Video"@),
        (0x0F, "Personal Healthcare"@),
        (0x10, "Audio/Video Devices"@),
        (0x11, "Billboard Device"@),
        (0x12, "USB Type-C Bridge"@),
        (0xDC, "Diagnostic Device"@),
        (0xE0, "Wireless Controller"@),
        (0xEF, "Miscellaneous"@),
        (0xFE, "Application Specific"@),
        (0xFF, "Vendor Specific"@),
    ]
}

/// Name of a subclass within a class.
pub open spec fn spec_subclass_name(class_code: u8, subclass_code: u8) -> Option<Seq<char>> {
    match (class_code, subclass_code) {
        (0x01, 0x01) => Some("Audio Control"@),
        (0x01, 0x02) => Some("Audio Streaming"@),
        (0x01, 0x03) => Some("MIDI Streaming"@),
        (0x02, 0x01) => Some("Direct Line Control Model"@),
        (0x02, 0x02) => Some("Abstract Control Model"@),
        (0x02, 0x03) => Some("Telephone Control Model"@),
        (0x02, 0x04) => Some("Multi-Channel Control Model"@),
        (0x02, 0x05) => Some("CAPI Control Model"@),
        (0x02, 0x06) => Some("Ethernet Networking Control Model"@),
        (0x02, 0x07) => Some("ATM Networking Control Model"@),
        (0x02, 0x08) => Some("Wireless Handset Control Model"@),
        (0x02, 0x09) => Some("Device Management"@),
        (0x02, 0x0A) => Some("Mobile Direct Line Model"@),
        (0x02, 0x0B) => Some("OBEX"@),
        (0x02, 0x0C) => Some("Ethernet Emulation Model"@),
        (0x02, 0x0D) => Some("Network Control Model"@),
        (0x03, 0x00) => Some("No Subclass"@),
        (0x03, 0x01) => Some("Boot Interface Subclass"@),
        (0x08, 0x01) => Some("Reduced Block Commands (RBC)"@),
        (0x08, 0x02) => Some("CD/DVD Devices (MMC-2)"@),
        (0x08, 0x03) => Some("Tape Device"@),
        (0x08, 0x04) => Some("Floppy Disk Drive (UFI)"@),
        (0x08, 0x05) => Some("Removable Media (ATAPI)"@),
        (0x08, 0x06) => Some("SCSI Transparent Command Set"@),
        (0x0E, 0x01) => Some("Video Control"@),
        (0x0E, 0x02) => Some("Video Streaming"@),
        (0x0E, 0x03) => Some("Video Interface Collection"@),
        _ => None,
    }
}

/// Name of a protocol within a class and subclass.
pub open spec fn spec_protocol_name(class_code: u8, subclass_code: u8, protocol_code: u8) -> Option<Seq<char>> {
    match (class_code, subclass_code, protocol_code) {
        (0x03, 0x01, 0x01) => Some("Keyboard"@),
        (0x03, 0x01, 0x02) => Some("Mouse"@),
        (0x08, 0x06, 0x50) => Some("Bulk-Only Transport"@),
        _ => None,
    }
}

/// Model of an optional name.
pub open spec fn name_model(s: Option<String>) -> Option<Seq<char>> {
    match s {
        Some(v) => Some(v@),
        None => None,
    }
}

/// Model of a list of coded names.
pub open spec fn table_model<K>(t: Seq<(K, String)>) -> Seq<(K, Seq<char>)> {
    Seq::new(t.len(), |i: int| (t[i].0, t[i].1@))
}

/// The name of a class code, if the code is assigned.
pub fn get_class_description(class_code: u8) -> (s: Option<String>)
    ensures
        name_model(s) == spec_class_name(class_code),
{
    let code = class_code;
    match code {
        0x00 => Some(String::from_str("Interface Association")),
        0x01 => Some(String::from_str("Audio")),
        0x02 => Some(String::from_str("Communications and CDC Control")),
        0x03 => Some(String::from_str("Human Interface Device (HID)")),
        0x05 => Some(String::from_str("Physical")),
        0x06 => Some(String::from_str("Image")),
        0x07 => Some(String::from_str("Printer")),
        0x08 => Some(String::from_str("Mass Storage")),
        0x09 => Some(String::from_str("Hub")),
        0x0A => Some(String::from_str("CDC-Data")),
        0x0B => Some(String::from_str("Smart Card")),
        0x0D => Some(String::from_str("Content Security")),
        0x0E => Some(String::from_str("Video")),
        0x0F => Some(String::from_str("Personal Healthcare")),
        0x10 => Some(String::from_str("Audio/Video Devices")),
        0x11 => Some(String::from_str("Billboard Device")),
        0x12 => Some(String::from_str("USB Type-C Bridge")),
        0xDC => Some(String::from_str("Diagnostic Device")),
        0xE0 => Some(String::from_str("Wireless Controller")),
        0xEF => Some(String::from_str("Miscellaneous")),
        0xFE => Some(String::from_str("Application Specific")),
        0xFF => Some(String::from_str("Vendor Specific")),
        _ => None,
    }
}

/// The name of a subclass within a class, if it is known.
pub fn get_subclass_description(class_code: u8, subclass_code: u8) -> (s: Option<String>)
    ensures
        name_model(s) == spec_subclass_name(class_code, subclass_code),
{
    match (class_code, subclass_code) {
        (0x01, 0x01) => Some(String::from_str("Audio Control")),
        (0x01, 0x02) => Some(String::from_str("Audio Streaming")),
        (0x01, 0x03) => Some(String::from_str("MIDI Streaming")),
        (0x02, 0x01) => Some(String::from_str("Direct Line Control Model")),
        (0x02, 0x02) => Some(String::from_str("Abstract Control Model")),
        (0x02, 0x03) => Some(String::from_str("Telephone Control Model")),
        (0x02, 0x04) => Some(String::from_str("Multi-Channel Control Model")),
        (0x02, 0x05) => Some(String::from_str("CAPI Control Model")),
        (0x02, 0x06) => Some(String::from_str("Ethernet Networking Control Model")),
        (0x02, 0x07) => Some(String::from_str("ATM Networking Control Model")),
        (0x02, 0x08) => Some(String::from_str("Wireless Handset Control Model")),
        (0x02, 0x09) => Some(String::from_str("Device Management")),
        (0x02, 0x0A) => Some(String::from_str("Mobile Direct Line Model")),
        (0x02, 0x0B) => Some(String::from_str("OBEX")),
        (0x02, 0x0C) => Some(String::from_str("Ethernet Emulation Model")),
        (0x02, 0x0D) => Some(String::from_str("Network Control Model")),
        (0x03, 0x00) => Some(String::from_str("No Subclass")),
        (0x03, 0x01) => Some(String::from_str("Boot Interface Subclass")),
        (0x08, 0x01) => Some(String::from_str("Reduced Block Commands (RBC)")),
        (0x08, 0x02) => Some(String::from_str("CD/DVD Devices (MMC-2)")),
        (0x08, 0x03) => Some(String::from_str("Tape Device")),
        (0x08, 0x04) => Some(String::from_str("Floppy Disk Drive (UFI)")),
        (0x08, 0x05) => Some(String::from_str("Removable Media (ATAPI)")),
        (0x08, 0x06) => Some(String::from_str("SCSI Transparent Command Set")),
        (0x0E, 0x01) => Some(String::from_str("Video Control")),
        (0x0E, 0x02) => Some(String::from_str("Video Streaming")),
        (0x0E, 0x03) => Some(String::from_str("Video Interface Collection")),
        _ => None,
    }
}

/// The name of a protocol within a class and subclass, if it is known.
pub fn get_protocol_description(class_code: u8, subclass_code: u8, protocol_code: u8) -> (s: Option<String>)
    ensures
        name_model(s) == spec_protocol_name(class_code, subclass_code, protocol_code),
{
    match (class_code, subclass_code, protocol_code) {
        (0x03, 0x01, 0x01) => Some(String::from_str("Keyboard")),
        (0x03, 0x01, 0x02) => Some(String::from_str("Mouse")),
        (0x08, 0x06, 0x50) => Some(String::from_str("Bulk-Only Transport")),
        _ => None,
    }
}

/// Every assigned class code with its name, in ascending order of code.
pub fn get_class_codes() -> (r: Vec<(u8, String)>)
    ensures
        table_model(r@) == spec_class_table(),
{
    let mut r: Vec<(u8, String)> = Vec::new();
    r.push((0x00, String::from_str("Interface Association")));
    r.push((0x01, String::from_str("Audio")));
    r.push((0x02, String::from_str("Communications and CDC Control")));
    r.push((0x03, String::from_str("Human Interface Device (HID)")));
    r.push((0x05, String::from_str("Physical")));
    r.push((0x06, String::from_str("Image")));
    r.push((0x07, String::from_str("Printer")));
    r.push((0x08, String::from_str("Mass Storage")));
    r.push((0x09, String::from_str("Hub")));
    r.push((0x0A, String::from_str("CDC-Data")));
    r.push((0x0B, String::from_str("Smart Card")));
    r.push((0x0D, String::from_str("Content Security")));
    r.push((0x0E, String::from_str("Video")));
    r.push((0x0F, String::from_str("Personal Healthcare")));
    r.push((0x10, String::from_str("Audio/Video Devices")));
    r.push((0x11, String::from_str("Billboard Device")));
    r.push((0x12, String::from_str("USB Type-C Bridge")));
    r.push((0xDC, String::from_str("Diagnostic Device")));
    r.push((0xE0, String::from_str("Wireless Controller")));
    r.push((0xEF, String::from_str("Miscellaneous")));
    r.push((0xFE, String::from_str("Application Specific")));
    r.push((0xFF, String::from_str("Vendor Specific")));
    assert(table_model(r@) =~= spec_class_table());
    r
}

} // verus!
