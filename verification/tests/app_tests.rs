use usbfly::app_state::{poll_delay_ms, poll_step, Command, DeviceOp, Message, ReadError, ReadOutcome, Tab, USBflyApp};
use usbfly::devices::{CynthionDevice, USBDeviceInfo};
use usbfly::speed::Speed;
use usbfly::traffic::TrafficMessage;

fn cynthion() -> CynthionDevice {
    CynthionDevice::from_device_info(USBDeviceInfo {
        vendor_id: 0x1d50,
        product_id: 0x615b,
        manufacturer: None,
        product: Some("Cynthion".to_string()),
        serial_number: None,
    })
    .unwrap()
}

fn connected_app(simulation: bool) -> USBflyApp {
    let (mut app, _) = USBflyApp::new();
    app.update(Message::DevicesFound(vec![cynthion()]), 0);
    app.update(Message::ConnectionEstablished { simulation }, 0);
    app
}

fn device_descriptor() -> Vec<u8> {
    vec![18, 1, 0x00, 0x02, 0, 0, 0, 64, 0x50, 0x1d, 0x5b, 0x61, 0x00, 0x01, 1, 2, 3, 1]
}

#[test]
fn app_starts_listing_and_scanning() {
    let (app, cmds) = USBflyApp::new();
    assert_eq!(cmds.len(), 2);
    assert!(matches!(cmds[0], Command::ListDevices { force: false }));
    assert!(matches!(cmds[1], Command::ScanDevices { during_connect: false }));
    assert_eq!(app.active_tab(), Tab::Devices);
    assert!(app.dark_mode());
    assert_eq!(app.selected_speed(), Speed::High);
    assert!(!app.has_connection());
    assert!(!app.subscription_active());
    assert_eq!(app.title(), "USBfly - USB Analysis for Cynthion");
}

#[test]
fn connect_scans_first_then_opens_first_device() {
    let (mut app, _) = USBflyApp::new();
    let cmds = app.update(Message::Connect, 0);
    assert!(matches!(cmds[..], [Command::ScanDevices { during_connect: true }]));
    app.update(Message::ScanFinished { during_connect: true, found: Err("no bus".to_string()) }, 0);
    assert_eq!(app.error_message().as_deref(), Some("Device scan failed: no bus"));
    app.update(Message::ScanFinished { during_connect: false, found: Ok(vec![cynthion()]) }, 0);
    assert_eq!(app.available_devices().len(), 1);
    let cmds = app.update(Message::Connect, 0);
    assert_eq!(cmds.len(), 1);
    match &cmds[0] {
        Command::OpenDevice { device, speed } => {
            assert_eq!(device.get_description(), "Cynthion 1d50:615b (Interface 0)");
            assert_eq!(*speed, Speed::High);
        },
        _ => panic!("expected an open request"),
    }
}

#[test]
fn connection_established_syncs_speeds() {
    let app = connected_app(false);
    assert!(app.has_connection());
    assert!(app.is_connected());
    assert!(app.subscription_active());
    assert!(app.error_message().is_none());
    assert_eq!(app.current_speed(), app.selected_speed());
    assert_eq!(app.decoder_speed(), app.selected_speed());
}

#[test]
fn start_capture_runs_on_device_and_reports() {
    let mut app = connected_app(false);
    let cmds = app.update(Message::StartCapture, 0);
    assert!(matches!(cmds[..], [Command::RunOnDevice { op: DeviceOp::StartCapture(Speed::High), call: true }]));
    assert!(app.traffic_view().is_capture_active());
    let cmds = app.update(Message::DeviceOpFinished { op: DeviceOp::StartCapture(Speed::High), result: Err("stall".to_string()) }, 0);
    match &cmds[..] {
        [Command::Deliver { delay_ms: 0, message: Message::CaptureError(e) }] => assert_eq!(e, "Failed to start capture: stall"),
        _ => panic!("expected a capture error"),
    }
    app.update(Message::CaptureError("Failed to start capture: stall".to_string()), 0);
    assert!(!app.traffic_view().is_capture_active());
    assert_eq!(app.error_message().as_deref(), Some("Capture error: Failed to start capture: stall"));
    let cmds = app.update(Message::DeviceOpFinished { op: DeviceOp::StartCapture(Speed::High), result: Ok(()) }, 0);
    assert!(matches!(cmds[..], [Command::Deliver { delay_ms: 0, message: Message::CaptureStarted }]));
    app.update(Message::CaptureStarted, 0);
    assert!(app.error_message().is_none());
}

#[test]
fn simulated_connection_skips_device_calls() {
    let mut app = connected_app(true);
    let cmds = app.update(Message::StartCapture, 0);
    assert!(matches!(cmds[..], [Command::RunOnDevice { op: DeviceOp::StartCapture(_), call: false }]));
    let cmds = app.update(Message::DeviceOpFinished { op: DeviceOp::StartCapture(Speed::High), result: Ok(()) }, 0);
    assert!(matches!(cmds[..], [Command::Deliver { delay_ms: 100, message: Message::CaptureStarted }]));
    let cmds = app.update(Message::DeviceOpFinished { op: DeviceOp::FetchData, result: Ok(()) }, 0);
    match &cmds[..] {
        [Command::Deliver { delay_ms: 150, message: Message::USBDataReceived(d) }] => assert!(d.is_empty()),
        _ => panic!("expected an empty buffer"),
    }
}

#[test]
fn commands_without_connection() {
    let (mut app, _) = USBflyApp::new();
    assert!(app.update(Message::StartCapture, 0).is_empty());
    assert_eq!(app.error_message().as_deref(), Some("No device connected"));
    assert!(app.update(Message::FetchCaptureData, 0).is_empty());
    assert!(app.update(Message::Disconnect, 0).is_empty());
    assert!(app.update(Message::ChangeUsbSpeed(Speed::Full), 0).is_empty());
    assert_eq!(app.status_message().as_deref(), Some("Cannot change device speed: No active connection"));
    assert_eq!(app.current_speed(), Speed::Full);
}

#[test]
fn received_data_fills_views() {
    let mut app = connected_app(false);
    app.update(Message::USBDataReceived(vec![1, 2, 3]), 5);
    assert!(app.traffic_view().traffic_data().is_empty());
    app.update(Message::USBDataReceived(device_descriptor()), 7);
    assert_eq!(app.traffic_view().traffic_data().len(), 1);
    assert_eq!(app.traffic_view().traffic_data()[0].timestamp_micros, 7);
    assert_eq!(app.descriptor_view().descriptors().len(), 1);
}

#[test]
fn save_hands_out_captured_buffers() {
    let mut app = connected_app(false);
    assert!(app.update(Message::SaveCapture, 0).is_empty());
    app.update(Message::USBDataReceived(device_descriptor()), 1);
    let cmds = app.update(Message::SaveCapture, 0);
    let items = match cmds.into_iter().next() {
        Some(Command::SaveTraffic(items)) => items,
        _ => panic!("expected a save"),
    };
    assert_eq!(items.len(), 1);
    let (mut other, _) = USBflyApp::new();
    other.update(Message::TrafficViewMessage(TrafficMessage::LoadData(items)), 0);
    assert_eq!(other.traffic_view().traffic_data().len(), 1);
    assert_eq!(other.traffic_view().traffic_data()[0].raw_data, device_descriptor());
    assert_eq!(other.traffic_view().selected_item(), Some(0));
}

#[test]
fn speed_change_stops_capture_and_reconnects() {
    let mut app = connected_app(false);
    app.update(Message::StartCapture, 0);
    let cmds = app.update(Message::ChangeUsbSpeed(Speed::Full), 0);
    assert!(matches!(
        cmds[..],
        [Command::StopCaptureRetrying { attempts: 3 }, Command::Deliver { delay_ms: 0, message: Message::ReconnectWithSpeed(Speed::Full) }]
    ));
    assert_eq!(app.status_message().as_deref(), Some("Changing device speed to Full..."));
    assert!(!app.traffic_view().is_capture_active());
    let cmds = app.update(Message::ReconnectWithSpeed(Speed::Full), 0);
    assert_eq!(cmds.len(), 4);
    assert_eq!(app.selected_speed(), Speed::Full);
    assert_eq!(app.status_message().as_deref(), Some("Reconnecting to apply Full device speed setting..."));
    match &cmds[1] {
        Command::Deliver { delay_ms: 800, message: Message::UpdateStatusMessage(t) } => {
            assert_eq!(t, "Reconnecting with Full device speed...")
        },
        _ => panic!("expected a status update"),
    }
    match &cmds[3] {
        Command::Deliver { delay_ms: 2500, message: Message::UpdateStatusMessage(t) } => {
            assert_eq!(t, "Device speed changed to Full")
        },
        _ => panic!("expected the final status"),
    }
    app.update(Message::StartCapture, 0);
    let cmds = app.update(Message::ReconnectWithSpeed(Speed::Low), 0);
    assert_eq!(cmds.len(), 5);
    assert!(matches!(cmds[3], Command::Deliver { delay_ms: 1500, message: Message::StartCapture }));
}

#[test]
fn traffic_speed_dialog_forwards_change_when_connected() {
    let mut app = connected_app(false);
    let cmds = app.update(Message::TrafficViewMessage(TrafficMessage::ChangeSpeed(Speed::Low)), 0);
    assert!(matches!(cmds[..], [Command::Deliver { delay_ms: 0, message: Message::ChangeUsbSpeed(Speed::Low) }]));
    let (mut idle, _) = USBflyApp::new();
    assert!(idle.update(Message::TrafficViewMessage(TrafficMessage::ChangeSpeed(Speed::Low)), 0).is_empty());
}

#[test]
fn disconnect_releases_and_clears() {
    let mut app = connected_app(false);
    app.update(Message::StartCapture, 0);
    let cmds = app.update(Message::Disconnect, 0);
    assert!(matches!(cmds[..], [Command::ReleaseDevice { stop_capture_first: true }]));
    assert!(!app.traffic_view().is_capture_active());
    app.update(Message::DisconnectCompleted, 0);
    assert!(!app.has_connection());
    assert!(!app.subscription_active());
}

#[test]
fn possible_failure_messages() {
    let mut app = connected_app(false);
    app.update(Message::ConnectionPossiblyFailed, 0);
    assert_eq!(app.error_message().as_deref(), Some("USB read errors detected, but connection still active."));
    app.update(Message::DisconnectCompleted, 0);
    app.update(Message::ConnectionPossiblyFailed, 0);
    assert_eq!(app.error_message().as_deref(), Some("Connection lost. Please reconnect."));
    app.update(Message::DeviceAccessFailed(DeviceOp::FetchData), 0);
    assert_eq!(app.error_message().as_deref(), Some("Connection lost. Please reconnect."));
    app.update(Message::DeviceAccessFailed(DeviceOp::StopCapture), 0);
    assert_eq!(app.error_message().as_deref(), Some("Failed to access USB device"));
}

#[test]
fn traffic_reads_become_messages() {
    let app = connected_app(false);
    let mut app = app;
    let cmds = app.update(Message::TrafficRead(Ok(vec![])), 0);
    assert!(matches!(cmds[..], [Command::Deliver { delay_ms: 0, message: Message::TrafficViewMessage(TrafficMessage::NoOp) }]));
    let cmds = app.update(Message::TrafficRead(Err(ReadError::Task("join".to_string()))), 0);
    match &cmds[..] {
        [Command::Deliver { message: Message::CaptureError(e), .. }] => assert_eq!(e, "Thread error: join"),
        _ => panic!("expected a capture error"),
    }
    let cmds = app.update(Message::ProcessingCapture, 0);
    assert!(matches!(cmds[..], [Command::ReadTraffic]));
    let cmds = app.update(Message::FetchCaptureData, 0);
    assert!(matches!(cmds[..], [Command::RunOnDevice { op: DeviceOp::FetchData, call: false }]));
    let cmds = app.update(Message::DeviceOpFinished { op: DeviceOp::FetchData, result: Ok(()) }, 0);
    assert!(matches!(cmds[..], [Command::Deliver { delay_ms: 150, message: Message::ProcessingCapture }]));
}

#[test]
fn subscription_backoff_and_failure_reporting() {
    assert_eq!(poll_delay_ms(0), 0);
    assert_eq!(poll_delay_ms(3), 30);
    assert_eq!(poll_delay_ms(50), 500);
    assert_eq!(poll_delay_ms(4000), 500);
    let (m, r) = poll_step(7, ReadOutcome::Data(vec![1, 2]));
    assert_eq!(r, 0);
    assert!(matches!(m, Message::USBDataReceived(ref d) if d == &vec![1, 2]));
    let (m, r) = poll_step(9, ReadOutcome::Failed("timeout".to_string()));
    assert_eq!(r, 10);
    assert!(matches!(m, Message::USBDataReceived(ref d) if d.is_empty()));
    let (m, r) = poll_step(10, ReadOutcome::Failed("timeout".to_string()));
    assert_eq!(r, 11);
    assert!(matches!(m, Message::ConnectionPossiblyFailed));
    let (m, r) = poll_step(10, ReadOutcome::Failed("Connection busy - will retry".to_string()));
    assert_eq!(r, 11);
    assert!(matches!(m, Message::USBDataReceived(_)));
    let (_, r) = poll_step(2, ReadOutcome::Panicked);
    assert_eq!(r, 7);
    let (_, r) = poll_step(2, ReadOutcome::TaskFailed("x".to_string()));
    assert_eq!(r, 3);
    let (_, r) = poll_step(u32::MAX, ReadOutcome::Data(vec![]));
    assert_eq!(r, 0);
    let (_, r) = poll_step(u32::MAX - 1, ReadOutcome::Failed("timeout".to_string()));
    assert_eq!(r, u32::MAX);
}

#[test]
fn tabs_and_dark_mode() {
    let (mut app, _) = USBflyApp::new();
    app.update(Message::TabSelected(Tab::Descriptors), 0);
    assert_eq!(app.active_tab(), Tab::Descriptors);
    app.update(Message::ToggleDarkMode(false), 0);
    assert!(!app.dark_mode());
    assert!(!app.traffic_view().dark_mode());
    assert!(!app.descriptor_view().dark_mode());
    app.update(Message::UpdateStatusMessage("hello".to_string()), 0);
    assert_eq!(app.status_message().as_deref(), Some("hello"));
    app.update(Message::ClearCapture, 0);
    assert!(app.traffic_view().traffic_data().is_empty());
    let cmds = app.update(Message::LoadCapture, 0);
    assert!(matches!(cmds[..], [Command::LoadTraffic]));
}

#[test]
fn connected_only_while_holding_a_connection() {
    let mut app = connected_app(false);
    let steps = vec![
        Message::ConnectionPossiblyFailed,
        Message::Disconnect,
        Message::DisconnectCompleted,
        Message::ConnectionPossiblyFailed,
        Message::Disconnect,
        Message::ConnectionEstablished { simulation: false },
        Message::StartCapture,
        Message::DisconnectCompleted,
    ];
    for m in steps {
        app.update(m, 0);
        assert!(!app.is_connected() || app.has_connection());
    }
}

#[test]
fn detector_resets_on_capture_and_sees_enumeration() {
    let mut app = connected_app(false);
    app.update(Message::StartCapture, 0);
    assert!(!app.device_detected());
    let mut data = vec![0x80, 0x00, 0x00, 0x08, 0x80, 0x06, 0x00, 0x01, 0x00, 0x00, 0x12, 0x00];
    data.resize(128, 0);
    app.update(Message::USBDataReceived(data), 3);
    assert!(app.device_detected());
    assert_eq!(app.traffic_view().traffic_data().len(), 1);
    assert_eq!(app.descriptor_view().descriptors().len(), 1);
    assert!(!app.traffic_view().root_nodes().is_empty());
}
