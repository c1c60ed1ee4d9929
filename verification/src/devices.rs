//! USB devices seen on the host, and the Cynthion analyzers among them.

use vstd::prelude::*;
use crate::class_codes::name_model;
use crate::speed::Speed;
use crate::text::{push_decimal, push_hex4_lower, spec_decimal, spec_hex4_lower};

verus! {

/// Vendor ID of Great Scott Gadgets (Cynthion, GreatFET, GadgetCap).
pub const CYNTHION_VID: u16 = 0x1d50;
/// Product ID of the Cynthion firmware.
pub const CYNTHION_PID: u16 = 0x615b;
/// Product ID of an alternative Cynthion firmware.
pub const ALT_CYNTHION_PID_1: u16 = 0x615c;
/// Product ID of another alternative Cynthion firmware.
pub const ALT_CYNTHION_PID_2: u16 = 0x615d;
/// Product ID of the GreatFET One.
pub const GREATFET_ONE_PID: u16 = 0x60e6;
/// Product ID of GadgetCap.
pub const GADGETCAP_PID: u16 = 0x6018;

/// Model of a device as listed for the user.
pub struct DeviceInfoModel {
    pub vendor_id: u16,
    pub product_id: u16,
    pub manufacturer: Option<Seq<char>>,
    pub product: Option<Seq<char>>,
    pub serial_number: Option<Seq<char>>,
}

/// A USB device as listed for the user.
pub struct USBDeviceInfo {
    pub vendor_id: u16,
    pub product_id: u16,
    pub manufacturer: Option<String>,
    pub product: Option<String>,
    pub serial_number: Option<String>,
}

impl View for USBDeviceInfo {
    type V = DeviceInfoModel;

    open spec fn view(&self) -> DeviceInfoModel {
        DeviceInfoModel {
            vendor_id: self.vendor_id,
            product_id: self.product_id,
            manufacturer: name_model(self.manufacturer),
            product: name_model(self.product),
            serial_number: name_model(self.serial_number),
        }
    }
}

/// A copy of an optional string.
pub fn clone_opt_string(s: &Option<String>) -> (r: Option<String>)
    ensures
        name_model(r) == name_model(*s),
{
    match s {
        Some(v) => Some(v.clone()),
        None => None,
    }
}

/// Whether two optional strings are equal.
pub fn opt_string_eq(a: &Option<String>, b: &Option<String>) -> (r: bool)
    ensures
        r == (name_model(*a) == name_model(*b)),
{
    match (a, b) {
        (Some(x), Some(y)) => *x == *y,
        (None, None) => true,
        _ => false,
    }
}

/// The text of an optional string, or `default`.
pub open spec fn spec_or(s: Option<Seq<char>>, default: Seq<char>) -> Seq<char> {
    match s {
        Some(v) => v,
        None => default,
    }
}

fn str_or<'a>(s: &'a Option<String>, default: &'a str) -> (r: &'a str)
    ensures
        r@ == spec_or(name_model(*s), default@),
{
    match s {
        Some(v) => v.as_str(),
        None => default,
    }
}

/// The line that shows a device: `manufacturer product [serial] (VID:vvvv PID:pppp)`.
pub open spec fn spec_device_info_text(d: DeviceInfoModel) -> Seq<char> {
    spec_or(d.manufacturer, "Unknown"@) + " "@ + spec_or(d.product, "Unknown"@) + " ["@
        + spec_or(d.serial_number, "N/A"@) + "] (VID:"@ + spec_hex4_lower(d.vendor_id) + " PID:"@
        + spec_hex4_lower(d.product_id) + ")"@
}

impl USBDeviceInfo {
    /// A copy of this device entry.
    pub fn clone_info(&self) -> (r: USBDeviceInfo)
        ensures
            r@ == self@,
    {
        USBDeviceInfo {
            vendor_id: self.vendor_id,
            product_id: self.product_id,
            manufacturer: clone_opt_string(&self.manufacturer),
            product: clone_opt_string(&self.product),
            serial_number: clone_opt_string(&self.serial_number),
        }
    }

    /// The line that shows this device to the user.
    pub fn to_display_string(&self) -> (s: String)
        ensures
            s@ == spec_device_info_text(self@),
    {
        let mut s = String::from_str(str_or(&self.manufacturer, "Unknown"));
        s.append(" ");
        s.append(str_or(&self.product, "Unknown"));
        s.append(" [");
        s.append(str_or(&self.serial_number, "N/A"));
        s.append("] (VID:");
        push_hex4_lower(&mut s, self.vendor_id);
        s.append(" PID:");
        push_hex4_lower(&mut s, self.product_id);
        s.append(")");
        assert(s@ =~= spec_device_info_text(self@));
        s
    }
}

/// Whether a device is a Cynthion (any of its firmware IDs) or a GreatFET One.
pub open spec fn spec_is_cynthion(vid: u16, pid: u16) -> bool {
    vid == CYNTHION_VID && (pid == CYNTHION_PID || pid == ALT_CYNTHION_PID_1 || pid == ALT_CYNTHION_PID_2
        || pid == GREATFET_ONE_PID)
}

/// Whether the capture list accepts a device as an analyzer: any device of
/// the Great Scott Gadgets vendor ID (known product or not).
pub open spec fn spec_is_supported_analyzer(vid: u16, pid: u16) -> bool {
    vid == CYNTHION_VID
}

/// Whether a device is accepted as an analyzer by the device list.
pub fn is_supported_device(vid: u16, pid: u16) -> (b: bool)
    ensures
        b == spec_is_supported_analyzer(vid, pid),
{
    if vid == CYNTHION_VID {
        if pid == CYNTHION_PID || pid == ALT_CYNTHION_PID_1 || pid == ALT_CYNTHION_PID_2 {
            return true;
        }
    }
    if vid == CYNTHION_VID && pid == GREATFET_ONE_PID {
        return true;
    }
    if vid == CYNTHION_VID && pid == GADGETCAP_PID {
        return true;
    }
    if vid == CYNTHION_VID {
        return true;
    }
    false
}

/// Model of a list of devices.
pub open spec fn devices_model(v: Seq<USBDeviceInfo>) -> Seq<DeviceInfoModel> {
    Seq::new(v.len(), |i: int| v[i]@)
}

/// The devices listed when no hardware can be scanned: a simulated Cynthion
/// and a simulated GreatFET.
pub open spec fn spec_simulated_devices() -> Seq<DeviceInfoModel> {
    seq![
        DeviceInfoModel {
            vendor_id: CYNTHION_VID,
            product_id: CYNTHION_PID,
            manufacturer: Some("Great Scott Gadgets"@),
            product: Some("Cynthion USB Analyzer [SIMULATED]"@),
            serial_number: Some("SIM12345"@),
        },
        DeviceInfoModel {
            vendor_id: CYNTHION_VID,
            product_id: GREATFET_ONE_PID,
            manufacturer: Some("Great Scott Gadgets"@),
            product: Some("GreatFET [SIMULATED]"@),
            serial_number: Some("SIM98765"@),
        },
    ]
}

/// The devices listed when no hardware can be scanned.
pub fn get_simulated_devices() -> (v: Vec<USBDeviceInfo>)
    ensures
        devices_model(v@) == spec_simulated_devices(),
{
    let mut v: Vec<USBDeviceInfo> = Vec::new();
    v.push(USBDeviceInfo {
        vendor_id: CYNTHION_VID,
        product_id: CYNTHION_PID,
        manufacturer: Some(String::from_str("Great Scott Gadgets")),
        product: Some(String::from_str("Cynthion USB Analyzer [SIMULATED]")),
        serial_number: Some(String::from_str("SIM12345")),
    });
    v.push(USBDeviceInfo {
        vendor_id: CYNTHION_VID,
        product_id: GREATFET_ONE_PID,
        manufacturer: Some(String::from_str("Great Scott Gadgets")),
        product: Some(String::from_str("GreatFET [SIMULATED]")),
        serial_number: Some(String::from_str("SIM98765")),
    });
    assert(devices_model(v@) =~= spec_simulated_devices());
    v
}

/// A Cynthion-compatible device found on the host, with the interface
/// capture uses.
pub struct CynthionDevice {
    pub info: USBDeviceInfo,
    pub interface_number: u8,
    pub alt_setting_number: u8,
    pub supported_speeds: Vec<Speed>,
}

/// Model of a capture device.
pub struct CynthionDeviceModel {
    pub info: DeviceInfoModel,
    pub interface_number: u8,
    pub alt_setting_number: u8,
    pub supported_speeds: Seq<Speed>,
}

impl View for CynthionDevice {
    type V = CynthionDeviceModel;

    open spec fn view(&self) -> CynthionDeviceModel {
        CynthionDeviceModel {
            info: self.info@,
            interface_number: self.interface_number,
            alt_setting_number: self.alt_setting_number,
            supported_speeds: self.supported_speeds@,
        }
    }
}

/// Model of a list of capture devices.
pub open spec fn cynthion_devices_model(v: Seq<CynthionDevice>) -> Seq<CynthionDeviceModel> {
    Seq::new(v.len(), |i: int| v[i]@)
}

/// `product vvvv:pppp (Interface n)`.
pub open spec fn spec_cynthion_description(d: DeviceInfoModel, interface_number: u8) -> Seq<char> {
    spec_or(d.product, "Unknown Device"@) + " "@ + spec_hex4_lower(d.vendor_id) + ":"@
        + spec_hex4_lower(d.product_id) + " (Interface "@ + spec_decimal(interface_number as nat) + ")"@
}

/// The capture device a supported listed device gives: interface 0,
/// alternate setting 0, speeds not yet known.
pub open spec fn spec_capture_device(d: DeviceInfoModel) -> CynthionDeviceModel {
    CynthionDeviceModel { info: d, interface_number: 0, alt_setting_number: 0, supported_speeds: Seq::empty() }
}

/// The capture devices among listed devices: one for each supported
/// device, in the order listed.
pub open spec fn spec_capture_devices(v: Seq<DeviceInfoModel>) -> Seq<CynthionDeviceModel>
    decreases v.len(),
{
    if v.len() == 0 {
        Seq::empty()
    } else {
        let rest = spec_capture_devices(v.drop_last());
        if spec_is_cynthion(v.last().vendor_id, v.last().product_id) {
            rest.push(spec_capture_device(v.last()))
        } else {
            rest
        }
    }
}

impl CynthionDevice {
    /// The capture devices among the devices the host lists, in order:
    /// each supported device, on interface 0, alternate setting 0.
    pub fn from_device_list(infos: &Vec<USBDeviceInfo>) -> (v: Vec<CynthionDevice>)
        ensures
            cynthion_devices_model(v@) == spec_capture_devices(devices_model(infos@)),
    {
        let mut out: Vec<CynthionDevice> = Vec::new();
        let mut i: usize = 0;
        while i < infos.len()
            invariant
                i <= infos@.len(),
                cynthion_devices_model(out@) == spec_capture_devices(devices_model(infos@).take(i as int)),
            decreases infos@.len() - i,
        {
            let ghost before = out@;
            let ghost taken = devices_model(infos@).take(i + 1);
            assert(taken.drop_last() =~= devices_model(infos@).take(i as int));
            assert(taken.last() == infos@[i as int]@);
            match Self::from_device_info(infos[i].clone_info()) {
                Some(d) => {
                    assert(d@.supported_speeds =~= Seq::<Speed>::empty());
                    assert(d@ == spec_capture_device(taken.last()));
                    out.push(d);
                    assert(cynthion_devices_model(out@) =~= cynthion_devices_model(before).push(d@));
                },
                None => {},
            }
            assert(cynthion_devices_model(out@) == spec_capture_devices(taken));
            i += 1;
        }
        assert(devices_model(infos@).take(infos@.len() as int) =~= devices_model(infos@));
        out
    }

    /// Whether a device is a Cynthion or GreatFET One that capture can use.
    pub fn is_supported(vid: u16, pid: u16) -> (b: bool)
        ensures
            b == spec_is_cynthion(vid, pid),
    {
        (vid == CYNTHION_VID && pid == CYNTHION_PID) || (vid == CYNTHION_VID && pid == ALT_CYNTHION_PID_1)
            || (vid == CYNTHION_VID && pid == ALT_CYNTHION_PID_2) || (vid == CYNTHION_VID && pid
            == GREATFET_ONE_PID)
    }

    /// The capture device for a listed device, if it is supported: interface
    /// 0, alternate setting 0, speeds not yet known.
    pub fn from_device_info(info: USBDeviceInfo) -> (d: Option<CynthionDevice>)
        ensures
            d is Some <==> spec_is_cynthion(info.vendor_id, info.product_id),
            d matches Some(dev) ==> dev.info@ == info@ && dev.interface_number == 0
                && dev.alt_setting_number == 0 && dev.supported_speeds@.len() == 0,
    {
        if !Self::is_supported(info.vendor_id, info.product_id) {
            return None;
        }
        Some(CynthionDevice { info, interface_number: 0, alt_setting_number: 0, supported_speeds: Vec::new() })
    }

    /// A copy of the device.
    pub fn clone_device(&self) -> (d: CynthionDevice)
        ensures
            d@ == self@,
    {
        let mut speeds: Vec<Speed> = Vec::new();
        let mut i: usize = 0;
        while i < self.supported_speeds.len()
            invariant
                i <= self.supported_speeds@.len(),
                speeds@ == self.supported_speeds@.subrange(0, i as int),
            decreases self.supported_speeds@.len() - i,
        {
            speeds.push(self.supported_speeds[i]);
            i += 1;
        }
        assert(speeds@ =~= self.supported_speeds@);
        CynthionDevice {
            info: self.info.clone_info(),
            interface_number: self.interface_number,
            alt_setting_number: self.alt_setting_number,
            supported_speeds: speeds,
        }
    }

    /// Vendor ID.
    pub fn vendor_id(&self) -> (v: u16)
        ensures
            v == self.info.vendor_id,
    {
        self.info.vendor_id
    }

    /// Product ID.
    pub fn product_id(&self) -> (v: u16)
        ensures
            v == self.info.product_id,
    {
        self.info.product_id
    }

    /// Manufacturer name, or "Unknown Manufacturer".
    pub fn manufacturer(&self) -> (s: &str)
        ensures
            s@ == spec_or(self.info@.manufacturer, "Unknown Manufacturer"@),
    {
        str_or(&self.info.manufacturer, "Unknown Manufacturer")
    }

    /// Product name, or "Unknown Device".
    pub fn product(&self) -> (s: &str)
        ensures
            s@ == spec_or(self.info@.product, "Unknown Device"@),
    {
        str_or(&self.info.product, "Unknown Device")
    }

    /// Serial number, or "N/A".
    pub fn serial_number(&self) -> (s: &str)
        ensures
            s@ == spec_or(self.info@.serial_number, "N/A"@),
    {
        str_or(&self.info.serial_number, "N/A")
    }

    /// One-line description of the device and its capture interface.
    pub fn get_description(&self) -> (s: String)
        ensures
            s@ == spec_cynthion_description(self.info@, self.interface_number),
    {
        let mut s = String::from_str(str_or(&self.info.product, "Unknown Device"));
        s.append(" ");
        push_hex4_lower(&mut s, self.info.vendor_id);
        s.append(":");
        push_hex4_lower(&mut s, self.info.product_id);
        s.append(" (Interface ");
        push_decimal(&mut s, self.interface_number as u64);
        s.append(")");
        assert(s@ =~= spec_cynthion_description(self.info@, self.interface_number));
        s
    }
}

} // verus!
