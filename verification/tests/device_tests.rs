use usbfly::control::{
    choose_device_list, failure_is_expected, handle_is_simulation, is_interface_access_error, no_analyzer_error,
    read_error_is_disconnect, request_name, request_timeout_ms, stop_step, transfer_recovery, StopStep,
    TransferRecovery,
};
use usbfly::device_detector::{has_connection_evidence, UsbDeviceConnectionDetector};
use usbfly::device_view::{list_error_text, DeviceCommand, DeviceMessage, DeviceView, AUTO_REFRESH_INTERVAL_MS};
use usbfly::devices::{get_simulated_devices, is_supported_device, CynthionDevice, USBDeviceInfo};

fn info(vid: u16, pid: u16, serial: Option<&str>, product: Option<&str>) -> USBDeviceInfo {
    USBDeviceInfo {
        vendor_id: vid,
        product_id: pid,
        manufacturer: None,
        product: product.map(|s| s.to_string()),
        serial_number: serial.map(|s| s.to_string()),
    }
}

#[test]
fn supported_devices() {
    assert!(is_supported_device(0x1d50, 0x615b));
    assert!(is_supported_device(0x1d50, 0x1234));
    assert!(!is_supported_device(0x046d, 0x615b));
    assert!(CynthionDevice::is_supported(0x1d50, 0x60e6));
    assert!(!CynthionDevice::is_supported(0x1d50, 0x6018));
    assert!(DeviceView::is_compatible_device(0x1d50, 0x6018));
}

#[test]
fn device_display_text() {
    let d = USBDeviceInfo {
        vendor_id: 0x1d50,
        product_id: 0x615b,
        manufacturer: Some("Great Scott Gadgets".to_string()),
        product: Some("Cynthion".to_string()),
        serial_number: None,
    };
    assert_eq!(d.to_display_string(), "Great Scott Gadgets Cynthion [N/A] (VID:1d50 PID:615b)");
}

#[test]
fn cynthion_device_from_info_and_description() {
    assert!(CynthionDevice::from_device_info(info(0x046d, 1, None, None)).is_none());
    let d = CynthionDevice::from_device_info(info(0x1d50, 0x615b, Some("X1"), Some("Cynthion"))).unwrap();
    assert_eq!(d.interface_number, 0);
    assert_eq!(d.vendor_id(), 0x1d50);
    assert_eq!(d.product_id(), 0x615b);
    assert_eq!(d.manufacturer(), "Unknown Manufacturer");
    assert_eq!(d.product(), "Cynthion");
    assert_eq!(d.serial_number(), "X1");
    assert_eq!(d.get_description(), "Cynthion 1d50:615b (Interface 0)");
    let c = d.clone_device();
    assert_eq!(c.get_description(), d.get_description());
}

#[test]
fn simulated_devices_listed() {
    let v = get_simulated_devices();
    assert_eq!(v.len(), 2);
    assert_eq!(v[0].product.as_deref(), Some("Cynthion USB Analyzer [SIMULATED]"));
    assert_eq!(v[1].serial_number.as_deref(), Some("SIM98765"));
}

#[test]
fn device_list_falls_back_to_simulation_only_when_nothing_found() {
    let (v, sim) = choose_device_list(false, false, Vec::new());
    assert!(sim);
    assert_eq!(v.len(), 2);
    let (v, sim) = choose_device_list(false, true, Vec::new());
    assert!(!sim);
    assert!(v.is_empty());
    let (v, sim) = choose_device_list(false, false, vec![info(1, 2, None, None)]);
    assert!(!sim);
    assert_eq!(v.len(), 1);
}

#[test]
fn device_view_refreshes_on_schedule() {
    let mut v = DeviceView::new();
    assert_eq!(AUTO_REFRESH_INTERVAL_MS, 2000);
    assert!(!v.check_auto_refresh(1999));
    assert!(v.check_auto_refresh(2000));
    assert!(!v.check_auto_refresh(3000));
    assert_eq!(v.update(DeviceMessage::CheckAutoRefresh, 4000), DeviceCommand::ListDevices { force: false });
    assert_eq!(v.update(DeviceMessage::CheckAutoRefresh, 4001), DeviceCommand::Nothing);
    assert_eq!(v.update(DeviceMessage::RefreshDevices, 4002), DeviceCommand::ListDevices { force: false });
    assert_eq!(v.update(DeviceMessage::ForceRefreshDevices, 4003), DeviceCommand::ListDevices { force: true });
    assert_eq!(v.update(DeviceMessage::CheckAutoRefresh, 5000), DeviceCommand::Nothing);
    assert_eq!(v.update(DeviceMessage::NoOp, 9000), DeviceCommand::Nothing);
}

#[test]
fn device_view_keeps_selection_only_while_listed() {
    let mut v = DeviceView::new();
    v.select_device(info(0x1d50, 0x615b, Some("A"), None));
    v.devices_loaded(Ok(vec![info(0x1d50, 0x615b, Some("A"), Some("Cynthion"))]));
    let sel = v.selected_device().as_ref().unwrap();
    assert_eq!(sel.product.as_deref(), Some("Cynthion"));
    assert_eq!(v.connected_devices().len(), 1);
    v.devices_loaded(Ok(vec![info(0x1d50, 0x615b, Some("B"), None)]));
    assert!(v.selected_device().is_none());
}

#[test]
fn device_view_shows_only_manual_refresh_errors() {
    let mut v = DeviceView::new();
    v.devices_loaded(Err("Failed to list USB devices: boom".to_string()));
    assert!(v.last_error().is_none());
    v.devices_loaded(Err("refresh requested manually failed".to_string()));
    assert_eq!(v.last_error().as_deref(), Some("refresh requested manually failed"));
    v.devices_loaded(Ok(Vec::new()));
    assert!(v.last_error().is_none());
    let (v2, c) = DeviceView::new().with_initial_scan();
    assert_eq!(c, DeviceCommand::ListDevices { force: false });
    assert!(v2.connected_devices().is_empty());
    assert_eq!(list_error_text(false, "x"), "Failed to list USB devices: x");
    assert_eq!(list_error_text(true, "y"), "Failed to force refresh USB devices: y");
}

#[test]
fn detector_sees_device_enumeration() {
    let get_device_descriptor = [0xD0, 0x00, 0x00, 0x08, 0x80, 0x06, 0x00, 0x01, 0x00, 0x00, 0x12, 0x00];
    assert!(has_connection_evidence(&get_device_descriptor));
    let set_configuration = [0xD0, 0x00, 0x00, 0x08, 0x00, 0x09, 0x01, 0x00, 0x00, 0x00, 0x00, 0x00];
    assert!(has_connection_evidence(&set_configuration));
    let string_request = [0xD0, 0x00, 0x00, 0x08, 0x80, 0x06, 0x00, 0x03, 0x00, 0x00, 0x12, 0x00];
    assert!(!has_connection_evidence(&string_request));
    let other_endpoint = [0xD0, 0x01, 0x00, 0x08, 0x80, 0x06, 0x00, 0x01, 0x00, 0x00, 0x12, 0x00];
    assert!(!has_connection_evidence(&other_endpoint));
    let mut d = UsbDeviceConnectionDetector::new();
    assert!(!d.is_device_connected());
    d.check_for_usb_device_connection(&string_request);
    assert!(!d.is_device_connected());
    d.check_for_usb_device_connection(&get_device_descriptor);
    assert!(d.is_device_connected());
    d.check_for_usb_device_connection(&string_request);
    assert!(d.is_device_connected());
    d.set_device_connected(false);
    assert!(!d.is_device_connected());
}

#[test]
fn vendor_request_names_and_timeouts() {
    assert_eq!(request_name(1, 3), "START_CAPTURE");
    assert_eq!(request_name(1, 2), "STOP_CAPTURE");
    assert_eq!(request_name(0xFF, 0), "FULL_DEVICE_RESET");
    assert_eq!(request_name(9, 0), "UNKNOWN");
    assert_eq!(request_timeout_ms(1, 3), 3000);
    assert_eq!(request_timeout_ms(0xFF, 0), 5000);
    assert_eq!(request_timeout_ms(1, 2), 1000);
    assert!(failure_is_expected(0xFF, "Operation timed out: timeout"));
    assert!(failure_is_expected(0xFF, "Broken pipe"));
    assert!(!failure_is_expected(1, "timeout"));
}

#[test]
fn simulation_and_disconnect_checks() {
    assert!(!handle_is_simulation(true, 0x1d50));
    assert!(handle_is_simulation(true, 0x1234));
    assert!(!handle_is_simulation(false, 0x1234));
    assert!(read_error_is_disconnect("No such device (it may have been disconnected)"));
    assert!(read_error_is_disconnect("operation timed out"));
    assert!(!read_error_is_disconnect("overflow"));
}

#[test]
fn transfer_recovery_by_error_kind() {
    assert_eq!(transfer_recovery("timeout", 4, 64, false), TransferRecovery::Resubmit(64));
    assert_eq!(transfer_recovery("timeout", 5, 64, false), TransferRecovery::Abort);
    assert_eq!(transfer_recovery("broken pipe", 2, 64, false), TransferRecovery::Resubmit(64));
    assert_eq!(transfer_recovery("endpoint stalled", 3, 64, false), TransferRecovery::Abort);
    assert_eq!(transfer_recovery("resource busy", 9, 64, false), TransferRecovery::Resubmit(32));
    assert_eq!(transfer_recovery("resource busy", 10, 64, false), TransferRecovery::Abort);
    assert_eq!(transfer_recovery("timeout", 1, 64, true), TransferRecovery::Abort);
    assert_eq!(transfer_recovery("other", 1, 64, false), TransferRecovery::Abort);
}

#[test]
fn stop_steps() {
    assert_eq!(stop_step(1, true), StopStep::SendAgain);
    assert_eq!(stop_step(2, true), StopStep::Stopped);
    assert_eq!(stop_step(1, false), StopStep::SendAgain);
    assert_eq!(stop_step(3, false), StopStep::Failed);
}

#[test]
fn no_analyzer_error_texts() {
    assert_eq!(
        no_analyzer_error(false, None, true),
        "No USB devices found. Check if USB is working properly on your system."
    );
    assert_eq!(
        no_analyzer_error(true, None, false),
        "No compatible USB analyzer devices found. Make sure your Cynthion device is connected."
    );
    assert_eq!(
        no_analyzer_error(true, Some("Access denied"), true),
        "USB permission error: Access denied. Try running with sudo or add udev rules for USB access."
    );
    assert_eq!(
        no_analyzer_error(true, Some("Access denied"), false),
        "USB permission error: Access denied. You might need administrator privileges to access USB devices."
    );
    assert!(is_interface_access_error("LIBUSB_ERROR_ACCESS from libusb"));
    assert!(is_interface_access_error("EBUSY"));
    assert!(!is_interface_access_error("not found"));
}

#[test]
fn capture_devices_keep_supported_in_order() {
    let listed = vec![
        info(0x046d, 0xc52b, None, Some("Mouse")),
        info(0x1d50, 0x60e6, Some("G1"), Some("GreatFET")),
        info(0x1d50, 0x6018, None, None),
        info(0x1d50, 0x615b, Some("C1"), Some("Cynthion")),
    ];
    let v = CynthionDevice::from_device_list(&listed);
    assert_eq!(v.len(), 2);
    assert_eq!(v[0].product_id(), 0x60e6);
    assert_eq!(v[0].serial_number(), "G1");
    assert_eq!(v[1].product_id(), 0x615b);
    assert_eq!(v[1].interface_number, 0);
    assert_eq!(v[1].alt_setting_number, 0);
    assert!(v[1].supported_speeds.is_empty());
    assert!(CynthionDevice::from_device_list(&vec![]).is_empty());
}
