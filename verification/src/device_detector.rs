//! Detection of a USB device being enumerated behind the Cynthion, from the
//! control requests that appear in the captured traffic.

use vstd::prelude::*;

verus! {

/// Whether a packet type is one under which a setup packet is looked for.
pub open spec fn spec_is_setup_token(t: u8) -> bool {
    t == 0xD0 || t == 0xC0 || t == 0x80
}

/// Whether the complete packet at `offset` is a standard GET_DESCRIPTOR
/// request for the device descriptor or a standard SET_CONFIGURATION
/// request sent to endpoint 0.
pub open spec fn spec_packet_shows_device(data: Seq<u8>, offset: int) -> bool {
    let t = data[offset];
    let endpoint = data[offset + 1];
    let n = data[offset + 3] as int;
    let bm = data[offset + 4] as int;
    let request = data[offset + 5];
    let value_high = data[offset + 7];
    &&& spec_is_setup_token(t)
    &&& endpoint as int % 128 == 0
    &&& n >= 8
    &&& (bm / 32) % 4 == 0
    &&& ((request == 0x06 && value_high == 1) || request == 0x09)
}

/// Whether any packet framed from `offset` on, while eight bytes remain and
/// the packet's payload is complete, shows a device being enumerated.
pub open spec fn spec_evidence_from(data: Seq<u8>, offset: int) -> bool
    decreases data.len() - offset,
{
    if offset < 0 || offset + 8 > data.len() {
        false
    } else if offset + 4 + data[offset + 3] as int > data.len() {
        false
    } else {
        spec_packet_shows_device(data, offset) || spec_evidence_from(data, offset + 4 + data[offset + 3] as int)
    }
}

/// Whether captured data shows a device being enumerated.
pub open spec fn spec_connection_evidence(data: Seq<u8>) -> bool {
    spec_evidence_from(data, 0)
}

/// Tracks whether a USB device has been seen connecting to the Cynthion.
pub struct UsbDeviceConnectionDetector {
    connected: bool,
}

impl View for UsbDeviceConnectionDetector {
    type V = bool;

    /// Whether a connected device has been detected.
    closed spec fn view(&self) -> bool {
        self.connected
    }
}

/// Whether captured data shows a device being enumerated.
pub fn has_connection_evidence(data: &[u8]) -> (found: bool)
    ensures
        found == spec_connection_evidence(data@),
{
    let mut offset: usize = 0;
    let mut found = false;
    while data.len() - offset >= 8
        invariant
            offset <= data@.len(),
            spec_connection_evidence(data@) == (found || spec_evidence_from(data@, offset as int)),
        decreases data@.len() - offset,
    {
        let packet_type = data[offset];
        let endpoint = data[offset + 1];
        let len = data[offset + 3] as usize;
        if len > data.len() - offset - 4 {
            return found;
        }
        if (packet_type == 0xD0 || packet_type == 0xC0 || packet_type == 0x80) && endpoint % 128 == 0 && len >= 8 {
            let bm = data[offset + 4];
            let request = data[offset + 5];
            let value_high = data[offset + 7];
            let standard = (bm / 32) % 4 == 0;
            if standard && ((request == 0x06 && value_high == 1) || request == 0x09) {
                found = true;
            }
        }
        offset = offset + 4 + len;
    }
    found
}

impl UsbDeviceConnectionDetector {
    /// A detector that has seen no device.
    pub fn new() -> (d: UsbDeviceConnectionDetector)
        ensures
            d@ == false,
    {
        UsbDeviceConnectionDetector { connected: false }
    }

    /// Whether a device has been detected as connected to the Cynthion.
    pub fn is_device_connected(&self) -> (b: bool)
        ensures
            b == self@,
    {
        self.connected
    }

    /// Records whether a device is connected.
    pub fn set_device_connected(&mut self, connected: bool)
        ensures
            final(self)@ == connected,
    {
        self.connected = connected;
    }

    /// Scans captured data for a device being enumerated (a standard
    /// GET_DESCRIPTOR for the device descriptor, or SET_CONFIGURATION, on
    /// endpoint 0) and records a connected device if one is seen. A scan
    /// never clears the connected state.
    pub fn check_for_usb_device_connection(&mut self, data: &[u8])
        ensures
            final(self)@ == (old(self)@ || spec_connection_evidence(data@)),
    {
        if data.len() < 8 {
            return;
        }
        if has_connection_evidence(data) {
            self.set_device_connected(true);
        }
    }
}

} // verus!
