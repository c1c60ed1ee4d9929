//! Names of common USB vendor IDs.

use vstd::prelude::*;
use crate::class_codes::{name_model, table_model};

verus! {

/// Name of a vendor ID, for the vendors the table knows.
pub open spec fn spec_vendor_name(code: u16) -> Option<Seq<char>> {
    match code {
        0x0001 => Some("Apple, Inc."@),
        0x0409 => Some("NEC Corporation"@),
        0x045E => Some("Microsoft Corporation"@),
        0x046D => Some("Logitech, Inc."@),
        0x04B0 => Some("Nikon Corporation"@),
        0x04B8 => Some("Seiko Epson Corp."@),
        0x04D8 => Some("Microchip Technology, Inc."@),
        0x04E8 => Some("Samsung Electronics Co., Ltd."@),
        0x04F2 => Some("Chicony Electronics Co., Ltd."@),
        0x0502 => Some("Acer, Inc."@),
        0x0557 => Some("ATEN International Co., Ltd."@),
        0x056A => Some("Wacom Co., Ltd."@),
        0x057C => Some("AVM GmbH"@),
        0x05AC => Some("Apple, Inc."@),
        0x0644 => Some("TEAC Corporation"@),
        0x065A => Some("SiGma Micro"@),
        0x067B => Some("Prolific Technology, Inc."@),
        0x06CB => Some("Synaptics, Inc."@),
        0x07D1 => Some("D-Link Corporation"@),
        0x08BB => Some("Texas Instruments, Inc."@),
        0x0930 => Some("Toshiba Corporation"@),
        0x093A => Some("Pixart Imaging, Inc."@),
        0x0951 => Some("Kingston Technology"@),
        0x09DA => Some("A4Tech Co., Ltd."@),
        0x0A5C => Some("Broadcom Corporation"@),
        0x0A81 => Some("Chesen Electronics Corp."@),
        0x0B05 => Some("ASUSTek Computer, Inc."@),
        0x0BC2 => Some("Seagate Technology LLC"@),
        0x0C45 => Some("Microdia"@),
        0x0CF3 => Some("Qualcomm Atheros Communications"@),
        0x0D8C => Some("C-Media Electronics, Inc."@),
        0x0DB0 => Some("Micro Star International"@),
        0x0E0F => Some("VMware, Inc."@),
        0x0FCA => Some("Research In Motion, Ltd."@),
        0x1004 => Some("LG Electronics, Inc."@),
        0x1022 => Some("Advanced Micro Devices, Inc."@),
        0x103C => Some("Hewlett-Packard Company"@),
        0x10C4 => Some("Silicon Labs"@),
        0x12D1 => Some("Huawei Technologies Co., Ltd."@),
        0x1307 => Some("USBest Technology"@),
        0x13D3 => Some("IMC Networks"@),
        0x13FE => Some("Kingston Technology Company"@),
        0x1410 => Some("Novatel Wireless"@),
        0x152D => Some("JMicron Technology Corp."@),
        0x154B => Some("PNY"@),
        0x17EF => Some("Lenovo"@),
        0x1871 => Some("Avision"@),
        0x18D1 => Some("Google Inc."@),
        0x192F => Some("Sunrise Telecom"@),
        0x19D2 => Some("ZTE WCDMA Technologies MSM"@),
        0x1A40 => Some("Terminus Technology, Inc."@),
        0x1B1C => Some("Corsair"@),
        0x1D50 => Some("Great Scott Gadgets"@),
        0x1D6B => Some("Linux Foundation"@),
        0x2001 => Some("D-Link Corporation"@),
        0x2109 => Some("VIA Labs, Inc."@),
        0x2222 => Some("MacAlly"@),
        0x2232 => Some("Silicon Motion"@),
        0x2537 => Some("Norelsys"@),
        0x4348 => Some("WinChipHead"@),
        0x8086 => Some("Intel Corporation"@),
        _ => None,
    }
}

/// Every entry of the table, in ascending order of code.
pub open spec fn spec_vendor_table() -> Seq<(u16, Seq<char>)> {
    seq![
        (0x0001, "Apple, Inc."@),
        (0x0409, "NEC Corporation"@),
        (0x045E, "Microsoft Corporation"@),
        (0x046D, "Logitech, Inc."@),
        (0x04B0, "Nikon Corporation"@),
        (0x04B8, "Seiko Epson Corp."@),
        (0x04D8, "Microchip Technology, Inc."@),
        (0x04E8, "Samsung Electronics Co., Ltd."@),
        (0x04F2, "Chicony Electronics Co., Ltd."@),
        (0x0502, "Acer, Inc."@),
        (0x0557, "ATEN International Co., Ltd."@),
        (0x056A, "Wacom Co., Ltd."@),
        (0x057C, "AVM GmbH"@),
        (0x05AC, "Apple, Inc."@),
        (0x0644, "TEAC Corporation"@),
        (0x065A, "SiGma Micro"@),
        (0x067B, "Prolific Technology, Inc."@),
        (0x06CB, "Synaptics, Inc."@),
        (0x07D1, "D-Link Corporation"@),
        (0x08BB, "Texas Instruments, Inc."@),
        (0x0930, "Toshiba Corporation"@),
        (0x093A, "Pixart Imaging, Inc."@),
        (0x0951, "Kingston Technology"@),
        (0x09DA, "A4Tech Co., Ltd."@),
        (0x0A5C, "Broadcom Corporation"@),
        (0x0A81, "Chesen Electronics Corp."@),
        (0x0B05, "ASUSTek Computer, Inc."@),
        (0x0BC2, "Seagate Technology LLC"@),
        (0x0C45, "Microdia"@),
        (0x0CF3, "Qualcomm Atheros Communications"@),
        (0x0D8C, "C-Media Electronics, Inc."@),
        (0x0DB0, "Micro Star International"@),
        (0x0E0F, "VMware, Inc."@),
        (0x0FCA, "Research In Motion, Ltd."@),
        (0x1004, "LG Electronics, Inc."@),
        (0x1022, "Advanced Micro Devices, Inc."@),
        (0x103C, "Hewlett-Packard Company"@),
        (0x10C4, "Silicon Labs"@),
        (0x12D1, "Huawei Technologies Co., Ltd."@),
        (0x1307, "USBest Technology"@),
        (0x13D3, "IMC Networks"@),
        (0x13FE, "Kingston Technology Company"@),
        (0x1410, "Novatel Wireless"@),
        (0x152D, "JMicron Technology Corp."@),
        (0x154B, "PNY"@),
        (0x17EF, "Lenovo"@),
        (0x1871, "Avision"@),
        (0x18D1, "Google Inc."@),
        (0x192F, "Sunrise Telecom"@),
        (0x19D2, "ZTE WCDMA Technologies MSM"@),
        (0x1A40, "Terminus Technology, Inc."@),
        (0x1B1C, "Corsair"@),
        (0x1D50, "Great Scott Gadgets"@),
        (0x1D6B, "Linux Foundation"@),
        (0x2001, "D-Link Corporation"@),
        (0x2109, "VIA Labs, Inc."@),
        (0x2222, "MacAlly"@),
        (0x2232, "Silicon Motion"@),
        (0x2537, "Norelsys"@),
        (0x4348, "WinChipHead"@),
        (0x8086, "Intel Corporation"@),
    ]
}

/// The name of a vendor ID, if the table knows it.
pub fn lookup_vendor(vendor_id: u16) -> (s: Option<String>)
    ensures
        name_model(s) == spec_vendor_name(vendor_id),
{
    let code = vendor_id;
    match code {
        0x0001 => Some(String::from_str("Apple, Inc.")),
        0x0409 => Some(String::from_str("NEC Corporation")),
        0x045E => Some(String::from_str("Microsoft Corporation")),
        0x046D => Some(String::from_str("Logitech, Inc.")),
        0x04B0 => Some(String::from_str("Nikon Corporation")),
        0x04B8 => Some(String::from_str("Seiko Epson Corp.")),
        0x04D8 => Some(String::from_str("Microchip Technology, Inc.")),
        0x04E8 => Some(String::from_str("Samsung Electronics Co., Ltd.")),
        0x04F2 => Some(String::from_str("Chicony Electronics Co., Ltd.")),
        0x0502 => Some(String::from_str("Acer, Inc.")),
        0x0557 => Some(String::from_str("ATEN International Co., Ltd.")),
        0x056A => Some(String::from_str("Wacom Co., Ltd.")),
        0x057C => Some(String::from_str("AVM GmbH")),
        0x05AC => Some(String::from_str("Apple, Inc.")),
        0x0644 => Some(String::from_str("TEAC Corporation")),
        0x065A => Some(String::from_str("SiGma Micro")),
        0x067B => Some(String::from_str("Prolific Technology, Inc.")),
        0x06CB => Some(String::from_str("Synaptics, Inc.")),
        0x07D1 => Some(String::from_str("D-Link Corporation")),
        0x08BB => Some(String::from_str("Texas Instruments, Inc.")),
        0x0930 => Some(String::from_str("Toshiba Corporation")),
        0x093A => Some(String::from_str("Pixart Imaging, Inc.")),
        0x0951 => Some(String::from_str("Kingston Technology")),
        0x09DA => Some(String::from_str("A4Tech Co., Ltd.")),
        0x0A5C => Some(String::from_str("Broadcom Corporation")),
        0x0A81 => Some(String::from_str("Chesen Electronics Corp.")),
        0x0B05 => Some(String::from_str("ASUSTek Computer, Inc.")),
        0x0BC2 => Some(String::from_str("Seagate Technology LLC")),
        0x0C45 => Some(String::from_str("Microdia")),
        0x0CF3 => Some(String::from_str("Qualcomm Atheros Communications")),
        0x0D8C => Some(String::from_str("C-Media Electronics, Inc.")),
        0x0DB0 => Some(String::from_str("Micro Star International")),
        0x0E0F => Some(String::from_str("VMware, Inc.")),
        0x0FCA => Some(String::from_str("Research In Motion, Ltd.")),
        0x1004 => Some(String::from_str("LG Electronics, Inc.")),
        0x1022 => Some(String::from_str("Advanced Micro Devices, Inc.")),
        0x103C => Some(String::from_str("Hewlett-Packard Company")),
        0x10C4 => Some(String::from_str("Silicon Labs")),
        0x12D1 => Some(String::from_str("Huawei Technologies Co., Ltd.")),
        0x1307 => Some(String::from_str("USBest Technology")),
        0x13D3 => Some(String::from_str("IMC Networks")),
        0x13FE => Some(String::from_str("Kingston Technology Company")),
        0x1410 => Some(String::from_str("Novatel Wireless")),
        0x152D => Some(String::from_str("JMicron Technology Corp.")),
        0x154B => Some(String::from_str("PNY")),
        0x17EF => Some(String::from_str("Lenovo")),
        0x1871 => Some(String::from_str("Avision")),
        0x18D1 => Some(String::from_str("Google Inc.")),
        0x192F => Some(String::from_str("Sunrise Telecom")),
        0x19D2 => Some(String::from_str("ZTE WCDMA Technologies MSM")),
        0x1A40 => Some(String::from_str("Terminus Technology, Inc.")),
        0x1B1C => Some(String::from_str("Corsair")),
        0x1D50 => Some(String::from_str("Great Scott Gadgets")),
        0x1D6B => Some(String::from_str("Linux Foundation")),
        0x2001 => Some(String::from_str("D-Link Corporation")),
        0x2109 => Some(String::from_str("VIA Labs, Inc.")),
        0x2222 => Some(String::from_str("MacAlly")),
        0x2232 => Some(String::from_str("Silicon Motion")),
        0x2537 => Some(String::from_str("Norelsys")),
        0x4348 => Some(String::from_str("WinChipHead")),
        0x8086 => Some(String::from_str("Intel Corporation")),
        _ => None,
    }
}

/// Every vendor ID the table knows with its name, in ascending order of ID.
pub fn get_vendor_ids() -> (r: Vec<(u16, String)>)
    ensures
        table_model(r@) == spec_vendor_table(),
{
    let mut r: Vec<(u16, String)> = Vec::new();
    r.push((0x0001, String::from_str("Apple, Inc.")));
    r.push((0x0409, String::from_str("NEC Corporation")));
    r.push((0x045E, String::from_str("Microsoft Corporation")));
    r.push((0x046D, String::from_str("Logitech, Inc.")));
    r.push((0x04B0, String::from_str("Nikon Corporation")));
    r.push((0x04B8, String::from_str("Seiko Epson Corp.")));
    r.push((0x04D8, String::from_str("Microchip Technology, Inc.")));
    r.push((0x04E8, String::from_str("Samsung Electronics Co., Ltd.")));
    r.push((0x04F2, String::from_str("Chicony Electronics Co., Ltd.")));
    r.push((0x0502, String::from_str("Acer, Inc.")));
    r.push((0x0557, String::from_str("ATEN International Co., Ltd.")));
    r.push((0x056A, String::from_str("Wacom Co., Ltd.")));
    r.push((0x057C, String::from_str("AVM GmbH")));
    r.push((0x05AC, String::from_str("Apple, Inc.")));
    r.push((0x0644, String::from_str("TEAC Corporation")));
    r.push((0x065A, String::from_str("SiGma Micro")));
    r.push((0x067B, String::from_str("Prolific Technology, Inc.")));
    r.push((0x06CB, String::from_str("Synaptics, Inc.")));
    r.push((0x07D1, String::from_str("D-Link Corporation")));
    r.push((0x08BB, String::from_str("Texas Instruments, Inc.")));
    r.push((0x0930, String::from_str("Toshiba Corporation")));
    r.push((0x093A, String::from_str("Pixart Imaging, Inc.")));
    r.push((0x0951, String::from_str("Kingston Technology")));
    r.push((0x09DA, String::from_str("A4Tech Co., Ltd.")));
    r.push((0x0A5C, String::from_str("Broadcom Corporation")));
    r.push((0x0A81, String::from_str("Chesen Electronics Corp.")));
    r.push((0x0B05, String::from_str("ASUSTek Computer, Inc.")));
    r.push((0x0BC2, String::from_str("Seagate Technology LLC")));
    r.push((0x0C45, String::from_str("Microdia")));
    r.push((0x0CF3, String::from_str("Qualcomm Atheros Communications")));
    r.push((0x0D8C, String::from_str("C-Media Electronics, Inc.")));
    r.push((0x0DB0, String::from_str("Micro Star International")));
    r.push((0x0E0F, String::from_str("VMware, Inc.")));
    r.push((0x0FCA, String::from_str("Research In Motion, Ltd.")));
    r.push((0x1004, String::from_str("LG Electronics, Inc.")));
    r.push((0x1022, String::from_str("Advanced Micro Devices, Inc.")));
    r.push((0x103C, String::from_str("Hewlett-Packard Company")));
    r.push((0x10C4, String::from_str("Silicon Labs")));
    r.push((0x12D1, String::from_str("Huawei Technologies Co., Ltd.")));
    r.push((0x1307, String::from_str("USBest Technology")));
    r.push((0x13D3, String::from_str("IMC Networks")));
    r.push((0x13FE, String::from_str("Kingston Technology Company")));
    r.push((0x1410, String::from_str("Novatel Wireless")));
    r.push((0x152D, String::from_str("JMicron Technology Corp.")));
    r.push((0x154B, String::from_str("PNY")));
    r.push((0x17EF, String::from_str("Lenovo")));
    r.push((0x1871, String::from_str("Avision")));
    r.push((0x18D1, String::from_str("Google Inc.")));
    r.push((0x192F, String::from_str("Sunrise Telecom")));
    r.push((0x19D2, String::from_str("ZTE WCDMA Technologies MSM")));
    r.push((0x1A40, String::from_str("Terminus Technology, Inc.")));
    r.push((0x1B1C, String::from_str("Corsair")));
    r.push((0x1D50, String::from_str("Great Scott Gadgets")));
    r.push((0x1D6B, String::from_str("Linux Foundation")));
    r.push((0x2001, String::from_str("D-Link Corporation")));
    r.push((0x2109, String::from_str("VIA Labs, Inc.")));
    r.push((0x2222, String::from_str("MacAlly")));
    r.push((0x2232, String::from_str("Silicon Motion")));
    r.push((0x2537, String::from_str("Norelsys")));
    r.push((0x4348, String::from_str("WinChipHead")));
    r.push((0x8086, String::from_str("Intel Corporation")));
    assert(table_model(r@) =~= spec_vendor_table());
    r
}

} // verus!
