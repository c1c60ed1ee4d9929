//! Names of standard and class-specific USB descriptor types.

use vstd::prelude::*;
use crate::class_codes::table_model;

verus! {

/// Name of a descriptor type code.
pub open spec fn spec_descriptor_type_name(code: u8) -> Option<Seq<char>> {
    match code {
        0x01 => Some("Device"@),
        0x02 => Some("Configuration"@),
        0x03 => Some("String"@),
        0x04 => Some("Interface"@),
        0x05 => Some("Endpoint"@),
        0x06 => Some("Device Qualifier"@),
        0x07 => Some("Other Speed Configuration"@),
        0x08 => Some("Interface Power"@),
        0x09 => Some("OTG"@),
        0x0A => Some("Debug"@),
        0x0B => Some("Interface Association"@),
        0x0C => Some("BOS"@),
        0x0D => Some("Device Capability"@),
        0x0E => Some("Wireless Endpoint Companion"@),
        0x0F => Some("SuperSpeed Endpoint Companion"@),
        0x10 => Some("SuperSpeedPlus Isochronous Endpoint Companion"@),
        0x21 => Some("HID"@),
        0x22 => Some("HID Report"@),
        0x23 => Some("HID Physical"@),
        0x24 => Some("Class Specific Interface"@),
        0x25 => Some("Class Specific Endpoint"@),
        _ => None,
    }
}

/// Every entry of the table, in ascending order of code.
pub open spec fn spec_descriptor_type_table() -> Seq<(u8, Seq<char>)> {
    seq![
        (0x01, "Device"@),
        (0x02, "Configuration"@),
        (0x03, "String"@),
        (0x04, "Interface"@),
        (0x05, "Endpoint"@),
        (0x06, "Device Qualifier"@),
        (0x07, "Other Speed Configuration"@),
        (0x08, "Interface Power"@),
        (0x09, "OTG"@),
        (0x0A, "Debug"@),
        (0x0B, "Interface Association"@),
        (0x0C, "BOS"@),
        (0x0D, "Device Capability"@),
        (0x0E, "Wireless Endpoint Companion"@),
        (0x0F, "SuperSpeed Endpoint Companion"@),
        (0x10, "SuperSpeedPlus Isochronous Endpoint Companion"@),
        (0x21, "HID"@),
        (0x22, "HID Report"@),
        (0x23, "HID Physical"@),
        (0x24, "Class Specific Interface"@),
        (0x25, "Class Specific Endpoint"@),
    ]
}

/// Model of an optional name.
pub open spec fn str_name_model(s: Option<&str>) -> Option<Seq<char>> {
    match s {
        Some(v) => Some(v@),
        None => None,
    }
}

/// The name of a descriptor type code, if it is known.
pub fn get_descriptor_type_name(descriptor_type: u8) -> (s: Option<&'static str>)
    ensures
        str_name_model(s) == spec_descriptor_type_name(descriptor_type),
{
    let code = descriptor_type;
    match code {
        0x01 => Some("Device"),
        0x02 => Some("Configuration"),
        0x03 => Some("String"),
        0x04 => Some("Interface"),
        0x05 => Some("Endpoint"),
        0x06 => Some("Device Qualifier"),
        0x07 => Some("Other Speed Configuration"),
        0x08 => Some("Interface Power"),
        0x09 => Some("OTG"),
        0x0A => Some("Debug"),
        0x0B => Some("Interface Association"),
        0x0C => Some("BOS"),
        0x0D => Some("Device Capability"),
        0x0E => Some("Wireless Endpoint Companion"),
        0x0F => Some("SuperSpeed Endpoint Companion"),
        0x10 => Some("SuperSpeedPlus Isochronous Endpoint Companion"),
        0x21 => Some("HID"),
        0x22 => Some("HID Report"),
        0x23 => Some("HID Physical"),
        0x24 => Some("Class Specific Interface"),
        0x25 => Some("Class Specific Endpoint"),
        _ => None,
    }
}

/// Every known descriptor type code with its name, in ascending order of code.
pub fn get_descriptor_types() -> (r: Vec<(u8, String)>)
    ensures
        table_model(r@) == spec_descriptor_type_table(),
{
    let mut r: Vec<(u8, String)> = Vec::new();
    r.push((0x01, String::from_str("Device")));
    r.push((0x02, String::from_str("Configuration")));
    r.push((0x03, String::from_str("String")));
    r.push((0x04, String::from_str("Interface")));
    r.push((0x05, String::from_str("Endpoint")));
    r.push((0x06, String::from_str("Device Qualifier")));
    r.push((0x07, String::from_str("Other Speed Configuration")));
    r.push((0x08, String::from_str("Interface Power")));
    r.push((0x09, String::from_str("OTG")));
    r.push((0x0A, String::from_str("Debug")));
    r.push((0x0B, String::from_str("Interface Association")));
    r.push((0x0C, String::from_str("BOS")));
    r.push((0x0D, String::from_str("Device Capability")));
    r.push((0x0E, String::from_str("Wireless Endpoint Companion")));
    r.push((0x0F, String::from_str("SuperSpeed Endpoint Companion")));
    r.push((0x10, String::from_str("SuperSpeedPlus Isochronous Endpoint Companion")));
    r.push((0x21, String::from_str("HID")));
    r.push((0x22, String::from_str("HID Report")));
    r.push((0x23, String::from_str("HID Physical")));
    r.push((0x24, String::from_str("Class Specific Interface")));
    r.push((0x25, String::from_str("Class Specific Endpoint")));
    assert(table_model(r@) =~= spec_descriptor_type_table());
    r
}

} // verus!
