//! State of the device list: the devices found, the one selected, the last
//! error to show, and when the list was last refreshed.

use vstd::prelude::*;
use crate::class_codes::name_model;
use crate::devices::{
    clone_opt_string, devices_model, is_supported_device, opt_string_eq, spec_is_supported_analyzer, DeviceInfoModel,
    USBDeviceInfo,
};
use crate::text::{contains_text, spec_contains_text};

verus! {

/// Milliseconds between automatic refreshes of the device list.
pub const AUTO_REFRESH_INTERVAL_MS: u64 = 2000;

/// Model of the device list state.
pub struct DeviceViewModel {
    pub devices: Seq<DeviceInfoModel>,
    pub selected: Option<DeviceInfoModel>,
    pub last_error: Option<Seq<char>>,
    pub last_refresh_ms: u64,
    pub auto_refresh_interval_ms: u64,
}

/// The device list state.
pub struct DeviceView {
    connected_devices: Vec<USBDeviceInfo>,
    selected_device: Option<USBDeviceInfo>,
    last_error: Option<String>,
    last_refresh_ms: u64,
    auto_refresh_interval_ms: u64,
}

/// Model of an optional device.
pub open spec fn device_option_model(d: Option<USBDeviceInfo>) -> Option<DeviceInfoModel> {
    match d {
        Some(v) => Some(v@),
        None => None,
    }
}

impl View for DeviceView {
    type V = DeviceViewModel;

    closed spec fn view(&self) -> DeviceViewModel {
        DeviceViewModel {
            devices: devices_model(self.connected_devices@),
            selected: device_option_model(self.selected_device),
            last_error: name_model(self.last_error),
            last_refresh_ms: self.last_refresh_ms,
            auto_refresh_interval_ms: self.auto_refresh_interval_ms,
        }
    }
}

/// Whether `devices` still holds the selected device (same vendor, product
/// and serial number).
pub open spec fn spec_still_listed(devices: Seq<DeviceInfoModel>, s: DeviceInfoModel) -> bool {
    exists|i: int|
        0 <= i < devices.len() && devices[i].vendor_id == s.vendor_id && devices[i].product_id == s.product_id
            && devices[i].serial_number == s.serial_number
}

/// Index of the first device from `from` on with the vendor and product of `s`.
pub open spec fn spec_first_same_model(devices: Seq<DeviceInfoModel>, s: DeviceInfoModel, from: int) -> Option<int>
    decreases devices.len() - from,
{
    if from < 0 || from >= devices.len() {
        None
    } else if devices[from].vendor_id == s.vendor_id && devices[from].product_id == s.product_id {
        Some(from)
    } else {
        spec_first_same_model(devices, s, from + 1)
    }
}

/// The selected device with its missing names taken from `d`.
pub open spec fn spec_fill_missing(s: DeviceInfoModel, d: DeviceInfoModel) -> DeviceInfoModel {
    DeviceInfoModel {
        vendor_id: s.vendor_id,
        product_id: s.product_id,
        manufacturer: if s.manufacturer is None { d.manufacturer } else { s.manufacturer },
        product: if s.product is None { d.product } else { s.product },
        serial_number: if s.serial_number is None { d.serial_number } else { s.serial_number },
    }
}

/// The selection after a new device list arrives: cleared if the selected
/// device is gone, else completed from the first entry of the same model.
pub open spec fn spec_selection_after_load(devices: Seq<DeviceInfoModel>, selected: Option<DeviceInfoModel>) -> Option<DeviceInfoModel> {
    match selected {
        None => None,
        Some(s) => if !spec_still_listed(devices, s) {
            None
        } else {
            match spec_first_same_model(devices, s, 0) {
                Some(i) => Some(spec_fill_missing(s, devices[i])),
                None => Some(s),
            }
        },
    }
}

/// The state after a device scan ends: a new list replaces the old one and
/// clears the error; a failed scan keeps the state and shows the error only
/// when its text mentions a manual refresh.
pub open spec fn spec_after_load(v: DeviceViewModel, result: Result<Seq<DeviceInfoModel>, Seq<char>>) -> DeviceViewModel {
    match result {
        Ok(devices) => DeviceViewModel {
            devices,
            selected: spec_selection_after_load(devices, v.selected),
            last_error: None,
            ..v
        },
        Err(e) => if spec_contains_text(e, "manually"@) {
            DeviceViewModel { last_error: Some(e), ..v }
        } else {
            v
        },
    }
}

/// Messages the device list handles.
pub enum DeviceMessage {
    RefreshDevices,
    ForceRefreshDevices,
    DeviceSelected(USBDeviceInfo),
    DevicesLoaded(Result<Vec<USBDeviceInfo>, String>),
    CheckAutoRefresh,
    NoOp,
}

/// Work the device list asks for.
#[derive(Clone, Copy, Debug, PartialEq, Eq, Structural)]
pub enum DeviceCommand {
    Nothing,
    /// List the host's USB devices and hand the result back as
    /// `DevicesLoaded`; `force` asks for a refresh that looks for real
    /// hardware.
    ListDevices { force: bool },
}

/// Whether an automatic refresh is due at `now_ms`.
pub open spec fn spec_refresh_due(v: DeviceViewModel, now_ms: u64) -> bool {
    now_ms >= v.last_refresh_ms && now_ms - v.last_refresh_ms >= v.auto_refresh_interval_ms
}

/// The device list after a message handled at `now_ms`, and the work it asks for.
pub open spec fn spec_device_update(v: DeviceViewModel, m: DeviceMessage, now_ms: u64) -> (DeviceViewModel, DeviceCommand) {
    match m {
        DeviceMessage::RefreshDevices => (
            DeviceViewModel { last_refresh_ms: now_ms, ..v },
            DeviceCommand::ListDevices { force: false },
        ),
        DeviceMessage::ForceRefreshDevices => (
            DeviceViewModel { last_refresh_ms: now_ms, ..v },
            DeviceCommand::ListDevices { force: true },
        ),
        DeviceMessage::CheckAutoRefresh => if spec_refresh_due(v, now_ms) {
            (DeviceViewModel { last_refresh_ms: now_ms, ..v }, DeviceCommand::ListDevices { force: false })
        } else {
            (v, DeviceCommand::Nothing)
        },
        DeviceMessage::DeviceSelected(d) => (DeviceViewModel { selected: Some(d@), ..v }, DeviceCommand::Nothing),
        DeviceMessage::DevicesLoaded(r) => (
            spec_after_load(v, match r {
                Ok(d) => Ok(devices_model(d@)),
                Err(e) => Err(e@),
            }),
            DeviceCommand::Nothing,
        ),
        DeviceMessage::NoOp => (v, DeviceCommand::Nothing),
    }
}

/// The text shown for a failed listing: "Failed to list USB devices: " or,
/// for a forced refresh, "Failed to force refresh USB devices: ", then the
/// error.
pub open spec fn spec_list_error_text(force: bool, error: Seq<char>) -> Seq<char> {
    if force {
        "Failed to force refresh USB devices: "@ + error
    } else {
        "Failed to list USB devices: "@ + error
    }
}

/// The text shown for a failed listing.
pub fn list_error_text(force: bool, error: &str) -> (s: String)
    ensures
        s@ == spec_list_error_text(force, error@),
{
    let mut s = if force {
        String::from_str("Failed to force refresh USB devices: ")
    } else {
        String::from_str("Failed to list USB devices: ")
    };
    s.append(error);
    s
}

impl DeviceView {
    /// An empty device list, last refreshed at time 0, refreshing every two
    /// seconds.
    pub fn new() -> (v: DeviceView)
        ensures
            v@ == (DeviceViewModel {
                devices: Seq::empty(),
                selected: None,
                last_error: None,
                last_refresh_ms: 0,
                auto_refresh_interval_ms: AUTO_REFRESH_INTERVAL_MS,
            }),
    {
        let v = DeviceView {
            connected_devices: Vec::new(),
            selected_device: None,
            last_error: None,
            last_refresh_ms: 0,
            auto_refresh_interval_ms: AUTO_REFRESH_INTERVAL_MS,
        };
        assert(devices_model(v.connected_devices@) =~= Seq::<DeviceInfoModel>::empty());
        v
    }

    /// Whether the list marks a device as a compatible analyzer.
    pub fn is_compatible_device(vid: u16, pid: u16) -> (b: bool)
        ensures
            b == spec_is_supported_analyzer(vid, pid),
    {
        is_supported_device(vid, pid)
    }

    /// The devices found by the last successful scan.
    pub fn connected_devices(&self) -> (d: &Vec<USBDeviceInfo>)
        ensures
            devices_model(d@) == self@.devices,
    {
        &self.connected_devices
    }

    /// The selected device.
    pub fn selected_device(&self) -> (d: &Option<USBDeviceInfo>)
        ensures
            device_option_model(*d) == self@.selected,
    {
        &self.selected_device
    }

    /// The error to show, if any.
    pub fn last_error(&self) -> (e: &Option<String>)
        ensures
            name_model(*e) == self@.last_error,
    {
        &self.last_error
    }

    /// Records a refresh the user asked for at `now_ms`.
    pub fn mark_refreshed(&mut self, now_ms: u64)
        ensures
            final(self)@ == (DeviceViewModel { last_refresh_ms: now_ms, ..old(self)@ }),
    {
        self.last_refresh_ms = now_ms;
    }

    /// At `now_ms`, whether an automatic refresh is due (the interval has
    /// passed since the last refresh); if so it is recorded as done now.
    pub fn check_auto_refresh(&mut self, now_ms: u64) -> (due: bool)
        ensures
            due == (now_ms >= old(self)@.last_refresh_ms && now_ms - old(self)@.last_refresh_ms
                >= old(self)@.auto_refresh_interval_ms),
            due ==> final(self)@ == (DeviceViewModel { last_refresh_ms: now_ms, ..old(self)@ }),
            !due ==> final(self)@ == old(self)@,
    {
        if now_ms >= self.last_refresh_ms && now_ms - self.last_refresh_ms >= self.auto_refresh_interval_ms {
            self.last_refresh_ms = now_ms;
            true
        } else {
            false
        }
    }

    /// Selects a device.
    pub fn select_device(&mut self, device: USBDeviceInfo)
        ensures
            final(self)@ == (DeviceViewModel { selected: Some(device@), ..old(self)@ }),
    {
        self.selected_device = Some(device);
    }

    /// The list together with the scan it starts with.
    pub fn with_initial_scan(self) -> (r: (DeviceView, DeviceCommand))
        ensures
            r.0@ == self@,
            r.1 == (DeviceCommand::ListDevices { force: false }),
    {
        (self, DeviceCommand::ListDevices { force: false })
    }

    /// Handles a message at `now_ms` and returns the work it asks for.
    pub fn update(&mut self, message: DeviceMessage, now_ms: u64) -> (c: DeviceCommand)
        ensures
            (final(self)@, c) == spec_device_update(old(self)@, message, now_ms),
    {
        match message {
            DeviceMessage::RefreshDevices => {
                self.mark_refreshed(now_ms);
                DeviceCommand::ListDevices { force: false }
            },
            DeviceMessage::ForceRefreshDevices => {
                self.mark_refreshed(now_ms);
                DeviceCommand::ListDevices { force: true }
            },
            DeviceMessage::CheckAutoRefresh => {
                if self.check_auto_refresh(now_ms) {
                    DeviceCommand::ListDevices { force: false }
                } else {
                    DeviceCommand::Nothing
                }
            },
            DeviceMessage::DeviceSelected(device) => {
                self.select_device(device);
                DeviceCommand::Nothing
            },
            DeviceMessage::DevicesLoaded(result) => {
                self.devices_loaded(result);
                DeviceCommand::Nothing
            },
            DeviceMessage::NoOp => DeviceCommand::Nothing,
        }
    }

    /// Takes in the result of a device scan.
    pub fn devices_loaded(&mut self, result: Result<Vec<USBDeviceInfo>, String>)
        ensures
            final(self)@ == spec_after_load(old(self)@, match result {
                Ok(v) => Ok(devices_model(v@)),
                Err(e) => Err(e@),
            }),
    {
        match result {
            Ok(devices) => {
                let ghost dm = devices_model(devices@);
                let mut keep = false;
                match &self.selected_device {
                    Some(s) => {
                        let mut i: usize = 0;
                        while i < devices.len() && !keep
                            invariant
                                i <= devices@.len(),
                                dm == devices_model(devices@),
                                keep ==> spec_still_listed(dm, s@),
                                !keep ==> forall|k: int| 0 <= k < i ==> !(dm[k].vendor_id == s@.vendor_id
                                    && dm[k].product_id == s@.product_id && dm[k].serial_number == s@.serial_number),
                            decreases devices@.len() - i, if keep { 0int } else { 1int },
                        {
                            let d = &devices[i];
                            if d.vendor_id == s.vendor_id && d.product_id == s.product_id && opt_string_eq(
                                &d.serial_number,
                                &s.serial_number,
                            ) {
                                assert(dm[i as int] == d@);
                                keep = true;
                            } else {
                                i += 1;
                            }
                        }
                        assert(keep == spec_still_listed(dm, s@));
                    },
                    None => {},
                }
                if !keep {
                    self.selected_device = None;
                } else {
                    let ghost s0 = self.selected_device.unwrap()@;
                    let mut i: usize = 0;
                    let mut done = false;
                    while i < devices.len() && !done
                        invariant
                            i <= devices@.len(),
                            dm == devices_model(devices@),
                            self.selected_device is Some,
                            self.last_refresh_ms == old(self).last_refresh_ms,
                            self.auto_refresh_interval_ms == old(self).auto_refresh_interval_ms,
                            !done ==> self.selected_device.unwrap()@ == s0,
                            !done ==> spec_first_same_model(dm, s0, 0) == spec_first_same_model(dm, s0, i as int),
                            done ==> (spec_first_same_model(dm, s0, 0) matches Some(j) && self.selected_device.unwrap()@
                                == spec_fill_missing(s0, dm[j])),
                        decreases devices@.len() - i, if done { 0int } else { 1int },
                    {
                        let d = &devices[i];
                        let sel = self.selected_device.as_mut().unwrap();
                        if d.vendor_id == sel.vendor_id && d.product_id == sel.product_id {
                            assert(dm[i as int] == d@);
                            if sel.manufacturer.is_none() {
                                sel.manufacturer = clone_opt_string(&d.manufacturer);
                            }
                            if sel.product.is_none() {
                                sel.product = clone_opt_string(&d.product);
                            }
                            if sel.serial_number.is_none() {
                                sel.serial_number = clone_opt_string(&d.serial_number);
                            }
                            done = true;
                        } else {
                            i += 1;
                        }
                    }
                    if !done {
                        assert(spec_first_same_model(dm, s0, i as int) == None::<int>);
                    }
                    assert(device_option_model(self.selected_device) == spec_selection_after_load(dm, Some(s0)));
                }
                assert(device_option_model(self.selected_device) == spec_selection_after_load(dm, old(self)@.selected));
                self.connected_devices = devices;
                self.last_error = None;
                assert(self@ == spec_after_load(old(self)@, Ok(dm)));
            },
            Err(error) => {
                if contains_text(error.as_str(), "manually") {
                    self.last_error = Some(error);
                }
            },
        }
    }
}

} // verus!
