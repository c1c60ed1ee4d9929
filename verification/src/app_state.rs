//! The application: its state, and how it answers each message with a new
//! state and the work it hands to the runtime (opening the device, sending
//! capture requests, reading traffic, timers, files). The runtime performs
//! each command and hands its outcome back as a message.

use vstd::prelude::*;
use crate::class_codes::name_model;
use crate::decode::{process_transactions, spec_process_transactions};
use crate::descriptor::{
    decode_descriptors, spec_descriptor_update, spec_descriptors_update, spec_frame_descriptors, DescriptorMessage,
    DescriptorView, DescriptorViewModel,
};
use crate::device_detector::{spec_connection_evidence, UsbDeviceConnectionDetector};
use crate::device_view::{spec_device_update, DeviceCommand, DeviceMessage, DeviceView, DeviceViewModel};
use crate::devices::{cynthion_devices_model, CynthionDevice, CynthionDeviceModel};
use crate::speed::Speed;
use crate::text::{contains_text, spec_contains_text};
use crate::traffic::{
    items_model, spec_add_packet, spec_add_transactions, spec_cleared_tree, spec_empty_tree, spec_traffic_update,
    TrafficItem, TrafficItemModel, TrafficMessage, TrafficView, TrafficViewModel,
};

verus! {

/// The tab shown.
#[derive(Clone, Copy, Debug, PartialEq, Eq, Structural)]
pub enum Tab {
    Devices,
    Traffic,
    Descriptors,
}

/// A request made on the open device.
#[derive(Clone, Copy, Debug, PartialEq, Eq, Structural)]
pub enum DeviceOp {
    StartCapture(Speed),
    StopCapture,
    ClearBuffer,
    FetchData,
}

/// Why reading captured traffic failed: the device reported an error, or
/// the task that read it failed.
pub enum ReadError {
    Device(String),
    Task(String),
}

/// Outcome of one read of the traffic subscription.
pub enum ReadOutcome {
    Data(Vec<u8>),
    Failed(String),
    Panicked,
    TaskFailed(String),
}

/// Messages the application handles.
pub enum Message {
    Connect,
    Disconnect,
    DisconnectCompleted,
    DevicesFound(Vec<CynthionDevice>),
    /// The result of a scan for capture devices; `during_connect` tells a
    /// scan started by `Connect` from the first one.
    ScanFinished { during_connect: bool, found: Result<Vec<CynthionDevice>, String> },
    /// The device was opened; `simulation` is whether its handle works in
    /// simulation mode.
    ConnectionEstablished { simulation: bool },
    ConnectionFailed(String),
    ConnectionPossiblyFailed,
    TabSelected(Tab),
    DeviceViewMessage(DeviceMessage),
    TrafficViewMessage(TrafficMessage),
    DescriptorViewMessage(DescriptorMessage),
    USBDataReceived(Vec<u8>),
    SaveCapture,
    LoadCapture,
    ClearCapture,
    ToggleDarkMode(bool),
    StartCapture,
    StopCapture,
    FetchCaptureData,
    ClearCaptureBuffer,
    CaptureStarted,
    ProcessingCapture,
    CaptureStopped,
    CaptureError(String),
    ChangeUsbSpeed(Speed),
    ReconnectWithSpeed(Speed),
    UpdateStatusMessage(String),
    /// The device handle could not be taken for `op`.
    DeviceAccessFailed(DeviceOp),
    /// A request on the device finished.
    DeviceOpFinished { op: DeviceOp, result: Result<(), String> },
    /// A read of captured traffic finished.
    TrafficRead(Result<Vec<u8>, ReadError>),
}

/// Work the application hands to the runtime, performed in order.
pub enum Command {
    /// List the host's USB devices; the result comes back as a device-list
    /// `DevicesLoaded`.
    ListDevices { force: bool },
    /// Scan for capture devices; the result comes back as `ScanFinished`
    /// with the same `during_connect`.
    ScanDevices { during_connect: bool },
    /// Open `device` after 100 ms (once more after 300 ms if that fails) and
    /// set its speed; comes back as `ConnectionEstablished` or
    /// `ConnectionFailed`.
    OpenDevice { device: CynthionDevice, speed: Speed },
    /// Stop capture first (best effort) if asked, then release the device;
    /// comes back as `DisconnectCompleted`.
    ReleaseDevice { stop_capture_first: bool },
    /// Take the device handle and, if `call`, make the request; comes back
    /// as `DeviceOpFinished`, or `DeviceAccessFailed` if the handle could
    /// not be taken.
    RunOnDevice { op: DeviceOp, call: bool },
    /// Stop capture, up to `attempts` times, pausing 300 ms times the
    /// attempt number after each failure.
    StopCaptureRetrying { attempts: u32 },
    /// Read captured traffic; comes back as `TrafficRead`.
    ReadTraffic,
    /// Ask for a file and write the items to it.
    SaveTraffic(Vec<TrafficItem>),
    /// Ask for a file and hand its items back as a traffic `LoadData`.
    LoadTraffic,
    /// Hand `message` back after `delay_ms` milliseconds.
    Deliver { delay_ms: u64, message: Message },
}

/// Model of the application state.
pub struct AppModel {
    pub connection: bool,
    pub simulation: bool,
    pub available_devices: Seq<CynthionDeviceModel>,
    pub active_tab: Tab,
    pub device_view: DeviceViewModel,
    pub traffic_view: TrafficViewModel,
    pub descriptor_view: DescriptorViewModel,
    pub device_detected: bool,
    pub connected: bool,
    pub error_message: Option<Seq<char>>,
    pub status_message: Option<Seq<char>>,
    pub dark_mode: bool,
    pub current_speed: Speed,
    pub decoder_speed: Speed,
    pub selected_speed: Speed,
}

/// The application state.
pub struct USBflyApp {
    connection: bool,
    simulation: bool,
    available_devices: Vec<CynthionDevice>,
    active_tab: Tab,
    device_view: DeviceView,
    traffic_view: TrafficView,
    descriptor_view: DescriptorView,
    detector: UsbDeviceConnectionDetector,
    connected: bool,
    error_message: Option<String>,
    status_message: Option<String>,
    dark_mode: bool,
    current_speed: Speed,
    decoder_speed: Speed,
    selected_speed: Speed,
}

impl View for USBflyApp {
    type V = AppModel;

    closed spec fn view(&self) -> AppModel {
        AppModel {
            connection: self.connection,
            simulation: self.simulation,
            available_devices: cynthion_devices_model(self.available_devices@),
            active_tab: self.active_tab,
            device_view: self.device_view@,
            traffic_view: self.traffic_view@,
            descriptor_view: self.descriptor_view@,
            device_detected: self.detector@,
            connected: self.connected,
            error_message: name_model(self.error_message),
            status_message: name_model(self.status_message),
            dark_mode: self.dark_mode,
            current_speed: self.current_speed,
            decoder_speed: self.decoder_speed,
            selected_speed: self.selected_speed,
        }
    }
}

/// `prefix`, the speed's name, then `suffix`.
pub open spec fn spec_speed_text(prefix: Seq<char>, s: Speed, suffix: Seq<char>) -> Seq<char> {
    prefix + s.spec_name() + suffix
}

/// The state after a buffer of captured data arrives at `now_micros`. Data
/// that frames no descriptor changes nothing. Otherwise the buffer joins the
/// traffic list and its descriptors the descriptor view; with a device
/// connection its transactions join the traffic tree and the detector looks
/// for a device being enumerated.
pub open spec fn spec_data_received(m: AppModel, data: Seq<u8>, now_micros: u64) -> AppModel {
    let descs = spec_frame_descriptors(data, 0);
    if descs.len() == 0 {
        m
    } else {
        let tv1 = spec_add_packet(
            m.traffic_view,
            TrafficItemModel { timestamp_micros: now_micros, raw_data: data, descriptors: descs },
        );
        let tv2 = if m.connection {
            TrafficViewModel { tree: spec_add_transactions(tv1.tree, spec_process_transactions(data)), ..tv1 }
        } else {
            tv1
        };
        AppModel {
            traffic_view: tv2,
            device_detected: if m.connection { m.device_detected || spec_connection_evidence(data) } else { m.device_detected },
            descriptor_view: spec_descriptors_update(m.descriptor_view, descs),
            ..m
        }
    }
}

/// The traffic view with capture marked running or not.
pub open spec fn with_capture(m: AppModel, active: bool) -> AppModel {
    AppModel { traffic_view: TrafficViewModel { capture_active: active, ..m.traffic_view }, ..m }
}

/// The state after a message handled at `now_micros`.
pub open spec fn spec_app_step(m: AppModel, msg: Message, now_micros: u64) -> AppModel {
    match msg {
        Message::Connect => m,
        Message::Disconnect => if m.connection { with_capture(m, false) } else { AppModel { connected: false, ..m } },
        Message::DisconnectCompleted => AppModel { connection: false, connected: false, ..m },
        Message::DevicesFound(d) => AppModel { available_devices: cynthion_devices_model(d@), ..m },
        Message::ScanFinished { during_connect, found } => match found {
            Ok(d) => AppModel { available_devices: cynthion_devices_model(d@), ..m },
            Err(e) => if during_connect {
                AppModel { error_message: Some("Device scan failed: "@ + e@), ..m }
            } else {
                AppModel { available_devices: Seq::empty(), ..m }
            },
        },
        Message::ConnectionEstablished { simulation } => AppModel {
            connection: true,
            simulation,
            connected: true,
            error_message: None,
            current_speed: m.selected_speed,
            decoder_speed: m.selected_speed,
            ..m
        },
        Message::ConnectionFailed(e) => AppModel { error_message: Some(e@), ..m },
        Message::ConnectionPossiblyFailed => if !m.connection {
            AppModel { connected: false, error_message: Some("Connection lost. Please reconnect."@), ..m }
        } else {
            AppModel { error_message: Some("USB read errors detected, but connection still active."@), ..m }
        },
        Message::TabSelected(t) => AppModel { active_tab: t, ..m },
        Message::DeviceViewMessage(dm) => AppModel {
            device_view: spec_device_update(m.device_view, dm, (now_micros / 1000) as u64).0,
            ..m
        },
        Message::TrafficViewMessage(tm) => AppModel { traffic_view: spec_traffic_update(m.traffic_view, tm), ..m },
        Message::DescriptorViewMessage(dm) => AppModel {
            descriptor_view: spec_descriptor_update(m.descriptor_view, dm),
            ..m
        },
        Message::USBDataReceived(data) => spec_data_received(m, data@, now_micros),
        Message::SaveCapture => m,
        Message::LoadCapture => m,
        Message::ClearCapture => AppModel {
            traffic_view: TrafficViewModel { items: Seq::empty(), selected: None, tree: spec_cleared_tree(), ..m.traffic_view },
            descriptor_view: DescriptorViewModel {
                descriptors: Seq::empty(),
                selected: None,
                decoded: Seq::empty(),
                dark_mode: m.descriptor_view.dark_mode,
            },
            ..m
        },
        Message::ToggleDarkMode(b) => AppModel {
            dark_mode: b,
            traffic_view: TrafficViewModel { dark_mode: b, ..m.traffic_view },
            descriptor_view: DescriptorViewModel { dark_mode: b, ..m.descriptor_view },
            ..m
        },
        Message::StartCapture => if m.connection {
            with_capture(
                AppModel {
                    current_speed: m.selected_speed,
                    decoder_speed: m.selected_speed,
                    device_detected: m.device_detected && m.simulation,
                    ..m
                },
                true,
            )
        } else {
            AppModel { error_message: Some("No device connected"@), ..m }
        },
        Message::StopCapture => if m.connection {
            with_capture(m, false)
        } else {
            AppModel { error_message: Some("No device connected"@), ..m }
        },
        Message::FetchCaptureData => m,
        Message::ClearCaptureBuffer => if m.connection {
            m
        } else {
            AppModel {
                traffic_view: TrafficViewModel { items: Seq::empty(), selected: None, tree: spec_empty_tree(), ..m.traffic_view },
                ..m
            }
        },
        Message::CaptureStarted => AppModel { error_message: None, ..m },
        Message::ProcessingCapture => m,
        Message::CaptureStopped => AppModel { error_message: None, ..m },
        Message::CaptureError(e) => with_capture(AppModel { error_message: Some("Capture error: "@ + e@), ..m }, false),
        Message::ChangeUsbSpeed(s) => if m.connection {
            with_capture(
                AppModel {
                    status_message: Some(spec_speed_text("Changing device speed to "@, s, "..."@)),
                    current_speed: s,
                    decoder_speed: s,
                    ..m
                },
                false,
            )
        } else {
            AppModel {
                status_message: Some("Cannot change device speed: No active connection"@),
                current_speed: s,
                decoder_speed: s,
                ..m
            }
        },
        Message::ReconnectWithSpeed(s) => AppModel {
            status_message: Some(spec_speed_text("Reconnecting to apply "@, s, " device speed setting..."@)),
            decoder_speed: s,
            selected_speed: s,
            ..m
        },
        Message::UpdateStatusMessage(t) => AppModel { status_message: Some(t@), ..m },
        Message::DeviceAccessFailed(op) => if op is FetchData {
            m
        } else {
            AppModel { error_message: Some("Failed to access USB device"@), ..m }
        },
        Message::DeviceOpFinished { .. } => m,
        Message::TrafficRead(_) => m,
    }
}

/// Whether `c` hands back `msg` after `delay` milliseconds.
pub open spec fn delivers(c: Command, delay: u64, msg: Message) -> bool {
    c == (Command::Deliver { delay_ms: delay, message: msg })
}

/// Whether `c` hands back a capture error with text `text` right away.
pub open spec fn delivers_capture_error(c: Command, text: Seq<char>) -> bool {
    c matches Command::Deliver { delay_ms, message: Message::CaptureError(e) } && delay_ms == 0 && e@ == text
}

/// Whether `c` hands back a status text `text` after `delay` milliseconds.
pub open spec fn delivers_status(c: Command, delay: u64, text: Seq<char>) -> bool {
    c matches Command::Deliver { delay_ms, message: Message::UpdateStatusMessage(t) } && delay_ms == delay && t@ == text
}

/// The work handed out for a message handled in state `m`.
pub open spec fn spec_app_commands(m: AppModel, msg: Message, now_micros: u64, cmds: Seq<Command>) -> bool {
    match msg {
        Message::Connect => if m.available_devices.len() == 0 {
            cmds == seq![Command::ScanDevices { during_connect: true }]
        } else {
            cmds.len() == 1 && (cmds[0] matches Command::OpenDevice { device, speed } && device@ == m.available_devices[0]
                && speed == m.selected_speed)
        },
        Message::Disconnect => if m.connection {
            cmds == seq![Command::ReleaseDevice { stop_capture_first: m.traffic_view.capture_active }]
        } else {
            cmds.len() == 0
        },
        Message::DeviceViewMessage(dm) => match spec_device_update(m.device_view, dm, (now_micros / 1000) as u64).1 {
            DeviceCommand::ListDevices { force } => cmds == seq![Command::ListDevices { force }],
            DeviceCommand::Nothing => cmds.len() == 0,
        },
        Message::TrafficViewMessage(tm) => if tm is ChangeSpeed && m.connected {
            cmds.len() == 1 && delivers(cmds[0], 0, Message::ChangeUsbSpeed(tm->ChangeSpeed_0))
        } else {
            cmds.len() == 0
        },
        Message::SaveCapture => if m.traffic_view.items.len() == 0 {
            cmds.len() == 0
        } else {
            cmds.len() == 1 && (cmds[0] matches Command::SaveTraffic(items) && items_model(items@) == m.traffic_view.items)
        },
        Message::LoadCapture => cmds == seq![Command::LoadTraffic],
        Message::StartCapture => if m.connection {
            cmds == seq![Command::RunOnDevice { op: DeviceOp::StartCapture(m.selected_speed), call: !m.simulation }]
        } else {
            cmds.len() == 0
        },
        Message::StopCapture => if m.connection {
            cmds == seq![Command::RunOnDevice { op: DeviceOp::StopCapture, call: !m.simulation }]
        } else {
            cmds.len() == 0
        },
        Message::FetchCaptureData => if m.connection {
            cmds == seq![Command::RunOnDevice { op: DeviceOp::FetchData, call: false }]
        } else {
            cmds.len() == 0
        },
        Message::ClearCaptureBuffer => if m.connection {
            cmds == seq![Command::RunOnDevice { op: DeviceOp::ClearBuffer, call: true }]
        } else {
            cmds.len() == 0
        },
        Message::ProcessingCapture => cmds == seq![Command::ReadTraffic],
        Message::ChangeUsbSpeed(s) => if !m.connection {
            cmds.len() == 0
        } else if m.traffic_view.capture_active {
            cmds.len() == 2 && cmds[0] == (Command::StopCaptureRetrying { attempts: 3 })
                && delivers(cmds[1], 0, Message::ReconnectWithSpeed(s))
        } else {
            cmds.len() == 1 && delivers(cmds[0], 0, Message::ReconnectWithSpeed(s))
        },
        Message::ReconnectWithSpeed(s) => {
            let restart: Seq<Command> = if m.traffic_view.capture_active {
                seq![Command::Deliver { delay_ms: 1500, message: Message::StartCapture }]
            } else {
                Seq::empty()
            };
            &&& cmds.len() == 4 + restart.len()
            &&& delivers(cmds[0], 0, Message::Disconnect)
            &&& delivers_status(cmds[1], 800, spec_speed_text("Reconnecting with "@, s, " device speed..."@))
            &&& delivers(cmds[2], 1000, Message::Connect)
            &&& cmds.subrange(3, 3 + restart.len() as int) == restart
            &&& delivers_status(cmds[3 + restart.len() as int], 2500, spec_speed_text("Device speed changed to "@, s, ""@))
        },
        Message::DeviceOpFinished { op, result } => match op {
            DeviceOp::StartCapture(_) => match result {
                Ok(_) => cmds.len() == 1 && delivers(cmds[0], if m.simulation { 100 } else { 0 }, Message::CaptureStarted),
                Err(e) => cmds.len() == 1 && delivers_capture_error(cmds[0], "Failed to start capture: "@ + e@),
            },
            DeviceOp::StopCapture => match result {
                Ok(_) => cmds.len() == 1 && delivers(cmds[0], if m.simulation { 100 } else { 0 }, Message::CaptureStopped),
                Err(e) => cmds.len() == 1 && delivers_capture_error(cmds[0], "Failed to stop capture: "@ + e@),
            },
            DeviceOp::ClearBuffer => match result {
                Ok(_) => cmds.len() == 1 && delivers(
                    cmds[0],
                    if m.simulation { 50 } else { 0 },
                    Message::TrafficViewMessage(TrafficMessage::ClearTraffic),
                ),
                Err(e) => cmds.len() == 1 && delivers_capture_error(cmds[0], "Failed to clear buffer: "@ + e@),
            },
            DeviceOp::FetchData => cmds.len() == 1 && if m.simulation {
                cmds[0] matches Command::Deliver { delay_ms, message: Message::USBDataReceived(d) } && delay_ms == 150
                    && d@.len() == 0
            } else {
                delivers(cmds[0], 150, Message::ProcessingCapture)
            },
        },
        Message::TrafficRead(r) => cmds.len() == 1 && match r {
            Ok(d) => if d@.len() == 0 {
                delivers(cmds[0], 0, Message::TrafficViewMessage(TrafficMessage::NoOp))
            } else {
                cmds[0] matches Command::Deliver { delay_ms, message: Message::USBDataReceived(x) } && delay_ms == 0
                    && x@ == d@
            },
            Err(ReadError::Device(e)) => delivers_capture_error(cmds[0], "Traffic capture error: "@ + e@),
            Err(ReadError::Task(e)) => delivers_capture_error(cmds[0], "Thread error: "@ + e@),
        },
        _ => cmds.len() == 0,
    }
}

/// `prefix` followed by `rest`.
fn joined(prefix: &str, rest: &str) -> (s: String)
    ensures
        s@ == prefix@ + rest@,
{
    let mut s = String::from_str(prefix);
    s.append(rest);
    s
}

/// `prefix`, the speed's name, then `suffix`.
fn speed_text(prefix: &str, s: Speed, suffix: &str) -> (t: String)
    ensures
        t@ == spec_speed_text(prefix@, s, suffix@),
{
    let mut t = String::from_str(prefix);
    t.append(s.name());
    t.append(suffix);
    t
}

/// A message handing back a capture error with text `prefix` then `e`.
fn capture_error(prefix: &str, e: &str) -> (c: Command)
    ensures
        delivers_capture_error(c, prefix@ + e@),
{
    Command::Deliver { delay_ms: 0, message: Message::CaptureError(joined(prefix, e)) }
}

/// Milliseconds the traffic subscription waits before a read after
/// `retries` failed reads in a row: none after a success, else ten per
/// failure, at most 500.
pub open spec fn spec_poll_delay_ms(retries: u32) -> int {
    if retries == 0 {
        0
    } else if retries * 10 < 500 {
        retries * 10
    } else {
        500
    }
}

/// Milliseconds the traffic subscription waits before a read.
pub fn poll_delay_ms(retries: u32) -> (ms: u64)
    ensures
        ms == spec_poll_delay_ms(retries),
{
    if retries == 0 {
        0
    } else if retries < 50 {
        retries as u64 * 10
    } else {
        500
    }
}

/// What the traffic subscription hands on after a read, and the count of
/// failed reads in a row that follows. Data resets the count. A failure
/// adds one; once the count passes ten, a failure that is not a busy handle
/// reports a possibly failed connection. A panic in the read adds five and
/// a failed task one; both, like an ordinary failure, hand on an empty
/// buffer.
pub fn poll_step(retries: u32, outcome: ReadOutcome) -> (r: (Message, u32))
    requires
        match outcome {
            ReadOutcome::Data(_) => true,
            ReadOutcome::Panicked => retries <= u32::MAX - 5,
            _ => retries < u32::MAX,
        },
    ensures
        match outcome {
            ReadOutcome::Data(d) => r.1 == 0 && (r.0 matches Message::USBDataReceived(x) && x@ == d@),
            ReadOutcome::Failed(e) => r.1 == retries + 1 && if retries + 1 > 10 && !spec_contains_text(e@, "busy"@) {
                r.0 is ConnectionPossiblyFailed
            } else {
                r.0 matches Message::USBDataReceived(x) && x@.len() == 0
            },
            ReadOutcome::Panicked => r.1 == retries + 5 && (r.0 matches Message::USBDataReceived(x) && x@.len() == 0),
            ReadOutcome::TaskFailed(_) => r.1 == retries + 1 && (r.0 matches Message::USBDataReceived(x) && x@.len() == 0),
        },
{
    match outcome {
        ReadOutcome::Data(d) => (Message::USBDataReceived(d), 0),
        ReadOutcome::Failed(e) => {
            let n = retries + 1;
            if n > 10 && !contains_text(e.as_str(), "busy") {
                (Message::ConnectionPossiblyFailed, n)
            } else {
                (Message::USBDataReceived(Vec::new()), n)
            }
        },
        ReadOutcome::Panicked => (Message::USBDataReceived(Vec::new()), retries + 5),
        ReadOutcome::TaskFailed(_) => (Message::USBDataReceived(Vec::new()), retries + 1),
    }
}

/// The state a new application starts in: no device, the devices tab, dark
/// mode, high speed everywhere.
pub open spec fn spec_initial_app() -> AppModel {
    AppModel {
        connection: false,
        simulation: false,
        available_devices: Seq::empty(),
        active_tab: Tab::Devices,
        device_view: DeviceViewModel {
            devices: Seq::empty(),
            selected: None,
            last_error: None,
            last_refresh_ms: 0,
            auto_refresh_interval_ms: crate::device_view::AUTO_REFRESH_INTERVAL_MS,
        },
        traffic_view: TrafficViewModel {
            items: Seq::empty(),
            selected: None,
            filter: Seq::empty(),
            auto_scroll: true,
            tree: spec_empty_tree(),
            dark_mode: true,
            capture_active: false,
            speed_selection_open: false,
        },
        descriptor_view: DescriptorViewModel {
            descriptors: Seq::empty(),
            selected: None,
            decoded: Seq::empty(),
            dark_mode: true,
        },
        device_detected: false,
        connected: false,
        error_message: None,
        status_message: None,
        dark_mode: true,
        current_speed: Speed::High,
        decoder_speed: Speed::High,
        selected_speed: Speed::High,
    }
}

/// Whether a message is one about connecting and disconnecting.
pub open spec fn is_connection_message(msg: Message) -> bool {
    msg is Connect || msg is Disconnect || msg is DisconnectCompleted || msg is DevicesFound || msg is ScanFinished || msg is ConnectionEstablished || msg is ConnectionFailed || msg is ConnectionPossiblyFailed
}

/// Whether a message is one about the tabs and the views' own messages.
pub open spec fn is_views_message(msg: Message) -> bool {
    msg is TabSelected || msg is DeviceViewMessage || msg is TrafficViewMessage || msg is DescriptorViewMessage
}

/// Whether a message is one about captured data, saved captures and the
/// look of the views.
pub open spec fn is_data_message(msg: Message) -> bool {
    msg is USBDataReceived || msg is SaveCapture || msg is LoadCapture || msg is ClearCapture || msg is ToggleDarkMode
}

/// Whether a message is one about capture requests and their notices.
pub open spec fn is_capture_message(msg: Message) -> bool {
    msg is StartCapture || msg is StopCapture || msg is FetchCaptureData || msg is ClearCaptureBuffer || msg is CaptureStarted || msg is ProcessingCapture || msg is CaptureStopped || msg is CaptureError
}

/// Whether a message is one about speed changes, status texts and the outcomes of device requests.
pub open spec fn is_outcome_message(msg: Message) -> bool {
    msg is ChangeUsbSpeed || msg is ReconnectWithSpeed || msg is UpdateStatusMessage || msg is DeviceAccessFailed || msg is DeviceOpFinished || msg is TrafficRead
}

fn is_connection(m: &Message) -> (b: bool)
    ensures
        b == is_connection_message(*m),
{
    match m {
        Message::Connect | Message::Disconnect | Message::DisconnectCompleted | Message::DevicesFound(_)
        | Message::ScanFinished { .. } | Message::ConnectionEstablished { .. } | Message::ConnectionFailed(_)
        | Message::ConnectionPossiblyFailed => true,
        _ => false,
    }
}

fn is_view(m: &Message) -> (b: bool)
    ensures
        b == is_views_message(*m),
{
    match m {
        Message::TabSelected(_) | Message::DeviceViewMessage(_) | Message::TrafficViewMessage(_)
        | Message::DescriptorViewMessage(_) => true,
        _ => false,
    }
}

fn is_data(m: &Message) -> (b: bool)
    ensures
        b == is_data_message(*m),
{
    match m {
        Message::USBDataReceived(_) | Message::SaveCapture | Message::LoadCapture | Message::ClearCapture
        | Message::ToggleDarkMode(_) => true,
        _ => false,
    }
}

fn is_capture(m: &Message) -> (b: bool)
    ensures
        b == is_capture_message(*m),
{
    match m {
        Message::StartCapture | Message::StopCapture | Message::FetchCaptureData | Message::ClearCaptureBuffer
        | Message::CaptureStarted | Message::ProcessingCapture | Message::CaptureStopped | Message::CaptureError(_) => true,
        _ => false,
    }
}

impl USBflyApp {
    /// The internal invariant: that of the traffic view.
    pub closed spec fn wf(&self) -> bool {
        self.traffic_view.wf()
    }

    /// A new application and the work it starts with: listing the host's
    /// devices and scanning for capture devices.
    pub fn new() -> (r: (USBflyApp, Vec<Command>))
        ensures
            r.0.wf(),
            r.0@ == spec_initial_app(),
            r.1@ == seq![Command::ListDevices { force: false }, Command::ScanDevices { during_connect: false }],
    {
        let (device_view, device_command) = DeviceView::new().with_initial_scan();
        let app = USBflyApp {
            connection: false,
            simulation: false,
            available_devices: Vec::new(),
            active_tab: Tab::Devices,
            device_view,
            traffic_view: TrafficView::new(),
            descriptor_view: DescriptorView::new(),
            detector: UsbDeviceConnectionDetector::new(),
            connected: false,
            error_message: None,
            status_message: None,
            dark_mode: true,
            current_speed: Speed::High,
            decoder_speed: Speed::High,
            selected_speed: Speed::High,
        };
        assert(cynthion_devices_model(app.available_devices@) =~= Seq::<CynthionDeviceModel>::empty());
        let mut commands: Vec<Command> = Vec::new();
        match device_command {
            DeviceCommand::ListDevices { force } => commands.push(Command::ListDevices { force }),
            DeviceCommand::Nothing => {},
        }
        commands.push(Command::ScanDevices { during_connect: false });
        (app, commands)
    }

    /// The window title.
    pub fn title(&self) -> (s: String)
        ensures
            s@ == "USBfly - USB Analysis for Cynthion"@,
    {
        String::from_str("USBfly - USB Analysis for Cynthion")
    }

    /// The tab shown.
    pub fn active_tab(&self) -> (t: Tab)
        ensures
            t == self@.active_tab,
    {
        self.active_tab
    }

    /// Whether a device connection is held.
    pub fn has_connection(&self) -> (b: bool)
        ensures
            b == self@.connection,
    {
        self.connection
    }

    /// Whether the application counts itself connected.
    pub fn is_connected(&self) -> (b: bool)
        ensures
            b == self@.connected,
    {
        self.connected
    }

    /// Whether the traffic subscription runs: a connection is held and the
    /// application counts itself connected.
    pub fn subscription_active(&self) -> (b: bool)
        ensures
            b == (self@.connection && self@.connected),
    {
        self.connection && self.connected
    }

    /// The error shown, if any.
    pub fn error_message(&self) -> (e: &Option<String>)
        ensures
            name_model(*e) == self@.error_message,
    {
        &self.error_message
    }

    /// The status shown, if any.
    pub fn status_message(&self) -> (e: &Option<String>)
        ensures
            name_model(*e) == self@.status_message,
    {
        &self.status_message
    }

    /// Whether dark mode is on.
    pub fn dark_mode(&self) -> (b: bool)
        ensures
            b == self@.dark_mode,
    {
        self.dark_mode
    }

    /// The speed the connection was made or capture started with.
    pub fn current_speed(&self) -> (s: Speed)
        ensures
            s == self@.current_speed,
    {
        self.current_speed
    }

    /// The speed chosen for the next connection or capture.
    pub fn selected_speed(&self) -> (s: Speed)
        ensures
            s == self@.selected_speed,
    {
        self.selected_speed
    }

    /// The speed captured data is decoded for.
    pub fn decoder_speed(&self) -> (s: Speed)
        ensures
            s == self@.decoder_speed,
    {
        self.decoder_speed
    }

    /// Whether a device has been seen connecting behind the analyzer.
    pub fn device_detected(&self) -> (b: bool)
        ensures
            b == self@.device_detected,
    {
        self.detector.is_device_connected()
    }

    /// The capture devices found by the last scan.
    pub fn available_devices(&self) -> (d: &Vec<CynthionDevice>)
        ensures
            cynthion_devices_model(d@) == self@.available_devices,
    {
        &self.available_devices
    }

    /// The device list.
    pub fn device_view(&self) -> (v: &DeviceView)
        ensures
            v@ == self@.device_view,
    {
        &self.device_view
    }

    /// The traffic view.
    pub fn traffic_view(&self) -> (v: &TrafficView)
        ensures
            v@ == self@.traffic_view,
    {
        &self.traffic_view
    }

    /// The descriptor view.
    pub fn descriptor_view(&self) -> (v: &DescriptorView)
        ensures
            v@ == self@.descriptor_view,
    {
        &self.descriptor_view
    }

    fn on_connect(&self) -> (cmds: Vec<Command>)
        ensures
            spec_app_commands(self@, Message::Connect, 0, cmds@),
    {
        let mut cmds: Vec<Command> = Vec::new();
        if self.available_devices.len() == 0 {
            cmds.push(Command::ScanDevices { during_connect: true });
        } else {
            let device = self.available_devices[0].clone_device();
            proof {
                assert(cynthion_devices_model(self.available_devices@)[0] == self.available_devices@[0]@);
            }
            cmds.push(Command::OpenDevice { device, speed: self.selected_speed });
        }
        cmds
    }

    fn on_disconnect(&mut self) -> (cmds: Vec<Command>)
        requires
            old(self).wf(),
        ensures
            final(self).wf(),
            final(self)@ == spec_app_step(old(self)@, Message::Disconnect, 0),
            spec_app_commands(old(self)@, Message::Disconnect, 0, cmds@),
    {
        let mut cmds: Vec<Command> = Vec::new();
        if self.connection {
            let was_active = self.traffic_view.is_capture_active();
            if was_active {
                self.traffic_view.set_capture_active(false);
            }
            cmds.push(Command::ReleaseDevice { stop_capture_first: was_active });
        } else {
            self.connection = false;
            self.connected = false;
        }
        cmds
    }

    fn on_data(&mut self, data: Vec<u8>, now_micros: u64)
        requires
            old(self).wf(),
        ensures
            final(self).wf(),
            final(self)@ == spec_data_received(old(self)@, data@, now_micros),
    {
        match decode_descriptors(data.as_slice()) {
            Some(decoded) => {
                let ghost descs = decoded@;
                let raw = crate::bytes::copy_range(data.as_slice(), 0, data.len());
                assert(data@.subrange(0, data@.len() as int) =~= data@);
                self.traffic_view.add_packet(raw, decoded.clone_data(), now_micros);
                if self.connection {
                    self.detector.check_for_usb_device_connection(data.as_slice());
                    self.traffic_view.add_transactions(process_transactions(data.as_slice()));
                }
                let ghost tv = self.traffic_view@;
                self.descriptor_view.update_descriptors(decoded);
                proof {
                    let m = old(self)@;
                    let tv1 = spec_add_packet(
                        m.traffic_view,
                        TrafficItemModel { timestamp_micros: now_micros, raw_data: data@, descriptors: descs },
                    );
                    assert(descs == spec_frame_descriptors(data@, 0));
                    if m.connection {
                        assert(tv == (TrafficViewModel { tree: spec_add_transactions(tv1.tree, spec_process_transactions(data@)), ..tv1 }));
                    } else {
                        assert(tv == tv1);
                    }
                    assert(self.descriptor_view@ == spec_descriptors_update(m.descriptor_view, descs));
                }
            },
            None => {},
        }
    }

    fn on_device_op_finished(&self, op: DeviceOp, result: Result<(), String>) -> (cmds: Vec<Command>)
        ensures
            spec_app_commands(self@, Message::DeviceOpFinished { op, result }, 0, cmds@),
    {
        let mut cmds: Vec<Command> = Vec::new();
        match op {
            DeviceOp::StartCapture(_) => match result {
                Ok(_) => cmds.push(Command::Deliver {
                    delay_ms: if self.simulation { 100 } else { 0 },
                    message: Message::CaptureStarted,
                }),
                Err(e) => cmds.push(capture_error("Failed to start capture: ", e.as_str())),
            },
            DeviceOp::StopCapture => match result {
                Ok(_) => cmds.push(Command::Deliver {
                    delay_ms: if self.simulation { 100 } else { 0 },
                    message: Message::CaptureStopped,
                }),
                Err(e) => cmds.push(capture_error("Failed to stop capture: ", e.as_str())),
            },
            DeviceOp::ClearBuffer => match result {
                Ok(_) => cmds.push(Command::Deliver {
                    delay_ms: if self.simulation { 50 } else { 0 },
                    message: Message::TrafficViewMessage(TrafficMessage::ClearTraffic),
                }),
                Err(e) => cmds.push(capture_error("Failed to clear buffer: ", e.as_str())),
            },
            DeviceOp::FetchData => {
                if self.simulation {
                    cmds.push(Command::Deliver { delay_ms: 150, message: Message::USBDataReceived(Vec::new()) });
                } else {
                    cmds.push(Command::Deliver { delay_ms: 150, message: Message::ProcessingCapture });
                }
            },
        }
        cmds
    }

    fn on_traffic_read(&self, r: Result<Vec<u8>, ReadError>) -> (cmds: Vec<Command>)
        ensures
            spec_app_commands(self@, Message::TrafficRead(r), 0, cmds@),
    {
        let mut cmds: Vec<Command> = Vec::new();
        match r {
            Ok(d) => {
                if d.len() == 0 {
                    cmds.push(Command::Deliver { delay_ms: 0, message: Message::TrafficViewMessage(TrafficMessage::NoOp) });
                } else {
                    cmds.push(Command::Deliver { delay_ms: 0, message: Message::USBDataReceived(d) });
                }
            },
            Err(ReadError::Device(e)) => cmds.push(capture_error("Traffic capture error: ", e.as_str())),
            Err(ReadError::Task(e)) => cmds.push(capture_error("Thread error: ", e.as_str())),
        }
        cmds
    }

    fn on_change_speed(&mut self, speed: Speed) -> (cmds: Vec<Command>)
        requires
            old(self).wf(),
        ensures
            final(self).wf(),
            final(self)@ == spec_app_step(old(self)@, Message::ChangeUsbSpeed(speed), 0),
            spec_app_commands(old(self)@, Message::ChangeUsbSpeed(speed), 0, cmds@),
    {
        let mut cmds: Vec<Command> = Vec::new();
        self.status_message = Some(speed_text("Changing device speed to ", speed, "..."));
        self.current_speed = speed;
        self.decoder_speed = speed;
        if self.connection {
            let was_active = self.traffic_view.is_capture_active();
            if was_active {
                self.traffic_view.set_capture_active(false);
                cmds.push(Command::StopCaptureRetrying { attempts: 3 });
            }
            cmds.push(Command::Deliver { delay_ms: 0, message: Message::ReconnectWithSpeed(speed) });
        } else {
            self.status_message = Some(String::from_str("Cannot change device speed: No active connection"));
        }
        cmds
    }

    fn on_reconnect(&mut self, speed: Speed) -> (cmds: Vec<Command>)
        requires
            old(self).wf(),
        ensures
            final(self).wf(),
            final(self)@ == spec_app_step(old(self)@, Message::ReconnectWithSpeed(speed), 0),
            spec_app_commands(old(self)@, Message::ReconnectWithSpeed(speed), 0, cmds@),
    {
        self.status_message = Some(speed_text("Reconnecting to apply ", speed, " device speed setting..."));
        self.decoder_speed = speed;
        self.selected_speed = speed;
        let was_active = self.traffic_view.is_capture_active();
        let mut cmds: Vec<Command> = Vec::new();
        cmds.push(Command::Deliver { delay_ms: 0, message: Message::Disconnect });
        cmds.push(Command::Deliver {
            delay_ms: 800,
            message: Message::UpdateStatusMessage(speed_text("Reconnecting with ", speed, " device speed...")),
        });
        cmds.push(Command::Deliver { delay_ms: 1000, message: Message::Connect });
        if was_active {
            cmds.push(Command::Deliver { delay_ms: 1500, message: Message::StartCapture });
        }
        cmds.push(Command::Deliver {
            delay_ms: 2500,
            message: Message::UpdateStatusMessage(speed_text("Device speed changed to ", speed, "")),
        });
        proof {
            let restart: Seq<Command> = if was_active {
                seq![Command::Deliver { delay_ms: 1500, message: Message::StartCapture }]
            } else {
                Seq::empty()
            };
            assert(cmds@.subrange(3, 3 + restart.len() as int) =~= restart);
        }
        cmds
    }

    #[verifier::spinoff_prover]
    fn update_connection(&mut self, message: Message, now_micros: u64) -> (cmds: Vec<Command>)
        requires
            old(self).wf(),
            is_connection_message(message),
        ensures
            final(self).wf(),
            final(self)@ == spec_app_step(old(self)@, message, now_micros),
            spec_app_commands(old(self)@, message, now_micros, cmds@),
    {
        match message {
            Message::Connect => self.on_connect(),
            Message::Disconnect => self.on_disconnect(),
            Message::DisconnectCompleted => {
                self.connection = false;
                self.connected = false;
                Vec::new()
            },
            Message::DevicesFound(devices) => {
                self.available_devices = devices;
                Vec::new()
            },
            Message::ScanFinished { during_connect, found } => {
                match found {
                    Ok(devices) => {
                        self.available_devices = devices;
                    },
                    Err(e) => {
                        if during_connect {
                            self.error_message = Some(joined("Device scan failed: ", e.as_str()));
                        } else {
                            self.available_devices = Vec::new();
                            assert(cynthion_devices_model(self.available_devices@) =~= Seq::<CynthionDeviceModel>::empty());
                        }
                    },
                }
                Vec::new()
            },
            Message::ConnectionEstablished { simulation } => {
                self.connection = true;
                self.simulation = simulation;
                self.connected = true;
                self.error_message = None;
                self.current_speed = self.selected_speed;
                self.decoder_speed = self.selected_speed;
                Vec::new()
            },
            Message::ConnectionFailed(e) => {
                self.error_message = Some(e);
                Vec::new()
            },
            Message::ConnectionPossiblyFailed => {
                if !self.connection {
                    self.connected = false;
                    self.error_message = Some(String::from_str("Connection lost. Please reconnect."));
                } else {
                    self.error_message = Some(String::from_str("USB read errors detected, but connection still active."));
                }
                Vec::new()
            },
            _ => Vec::new(),
        }
    }

    #[verifier::spinoff_prover]
    fn update_views(&mut self, message: Message, now_micros: u64) -> (cmds: Vec<Command>)
        requires
            old(self).wf(),
            is_views_message(message),
        ensures
            final(self).wf(),
            final(self)@ == spec_app_step(old(self)@, message, now_micros),
            spec_app_commands(old(self)@, message, now_micros, cmds@),
    {
        match message {
            Message::TabSelected(tab) => {
                self.active_tab = tab;
                Vec::new()
            },
            Message::DeviceViewMessage(dm) => {
                let mut cmds: Vec<Command> = Vec::new();
                match self.device_view.update(dm, now_micros / 1000) {
                    DeviceCommand::ListDevices { force } => cmds.push(Command::ListDevices { force }),
                    DeviceCommand::Nothing => {},
                }
                cmds
            },
            Message::TrafficViewMessage(tm) => {
                let change = match &tm {
                    TrafficMessage::ChangeSpeed(speed) => Some(*speed),
                    _ => None,
                };
                self.traffic_view.update(tm);
                let mut cmds: Vec<Command> = Vec::new();
                match change {
                    Some(speed) => {
                        if self.connected {
                            cmds.push(Command::Deliver { delay_ms: 0, message: Message::ChangeUsbSpeed(speed) });
                        }
                    },
                    None => {},
                }
                cmds
            },
            Message::DescriptorViewMessage(dm) => {
                self.descriptor_view.update(dm);
                Vec::new()
            },
            _ => Vec::new(),
        }
    }

    #[verifier::spinoff_prover]
    fn update_data(&mut self, message: Message, now_micros: u64) -> (cmds: Vec<Command>)
        requires
            old(self).wf(),
            is_data_message(message),
        ensures
            final(self).wf(),
            final(self)@ == spec_app_step(old(self)@, message, now_micros),
            spec_app_commands(old(self)@, message, now_micros, cmds@),
    {
        match message {
            Message::USBDataReceived(data) => {
                self.on_data(data, now_micros);
                Vec::new()
            },
            Message::SaveCapture => {
                let mut cmds: Vec<Command> = Vec::new();
                match self.traffic_view.get_traffic_data() {
                    Some(items) => cmds.push(Command::SaveTraffic(items)),
                    None => {},
                }
                cmds
            },
            Message::LoadCapture => {
                let mut cmds: Vec<Command> = Vec::new();
                cmds.push(Command::LoadTraffic);
                cmds
            },
            Message::ClearCapture => {
                self.traffic_view.clear();
                self.descriptor_view.clear();
                Vec::new()
            },
            Message::ToggleDarkMode(enabled) => {
                self.dark_mode = enabled;
                self.traffic_view.update(TrafficMessage::ToggleDarkMode(enabled));
                self.descriptor_view.update(DescriptorMessage::ToggleDarkMode(enabled));
                Vec::new()
            },
            _ => Vec::new(),
        }
    }

    #[verifier::spinoff_prover]
    fn update_capture(&mut self, message: Message, now_micros: u64) -> (cmds: Vec<Command>)
        requires
            old(self).wf(),
            is_capture_message(message),
        ensures
            final(self).wf(),
            final(self)@ == spec_app_step(old(self)@, message, now_micros),
            spec_app_commands(old(self)@, message, now_micros, cmds@),
    {
        match message {
            Message::StartCapture => {
                let mut cmds: Vec<Command> = Vec::new();
                if self.connection {
                    let speed = self.selected_speed;
                    self.current_speed = speed;
                    self.decoder_speed = speed;
                    self.traffic_view.set_capture_active(true);
                    if !self.simulation {
                        self.detector.set_device_connected(false);
                    }
                    cmds.push(Command::RunOnDevice { op: DeviceOp::StartCapture(speed), call: !self.simulation });
                } else {
                    self.error_message = Some(String::from_str("No device connected"));
                }
                cmds
            },
            Message::StopCapture => {
                let mut cmds: Vec<Command> = Vec::new();
                if self.connection {
                    self.traffic_view.set_capture_active(false);
                    cmds.push(Command::RunOnDevice { op: DeviceOp::StopCapture, call: !self.simulation });
                } else {
                    self.error_message = Some(String::from_str("No device connected"));
                }
                cmds
            },
            Message::FetchCaptureData => {
                let mut cmds: Vec<Command> = Vec::new();
                if self.connection {
                    cmds.push(Command::RunOnDevice { op: DeviceOp::FetchData, call: false });
                }
                cmds
            },
            Message::ClearCaptureBuffer => {
                let mut cmds: Vec<Command> = Vec::new();
                if self.connection {
                    cmds.push(Command::RunOnDevice { op: DeviceOp::ClearBuffer, call: true });
                } else {
                    self.traffic_view.clear_traffic();
                }
                cmds
            },
            Message::CaptureStarted => {
                self.error_message = None;
                Vec::new()
            },
            Message::ProcessingCapture => {
                let mut cmds: Vec<Command> = Vec::new();
                cmds.push(Command::ReadTraffic);
                cmds
            },
            Message::CaptureStopped => {
                self.error_message = None;
                Vec::new()
            },
            Message::CaptureError(e) => {
                self.error_message = Some(joined("Capture error: ", e.as_str()));
                self.traffic_view.set_capture_active(false);
                Vec::new()
            },
            _ => Vec::new(),
        }
    }

    #[verifier::spinoff_prover]
    fn update_outcome(&mut self, message: Message, now_micros: u64) -> (cmds: Vec<Command>)
        requires
            old(self).wf(),
            is_outcome_message(message),
        ensures
            final(self).wf(),
            final(self)@ == spec_app_step(old(self)@, message, now_micros),
            spec_app_commands(old(self)@, message, now_micros, cmds@),
    {
        match message {
            Message::ChangeUsbSpeed(speed) => self.on_change_speed(speed),
            Message::ReconnectWithSpeed(speed) => self.on_reconnect(speed),
            Message::UpdateStatusMessage(text) => {
                self.status_message = Some(text);
                Vec::new()
            },
            Message::DeviceAccessFailed(op) => {
                match op {
                    DeviceOp::FetchData => {},
                    _ => {
                        self.error_message = Some(String::from_str("Failed to access USB device"));
                    },
                }
                Vec::new()
            },
            Message::DeviceOpFinished { op, result } => self.on_device_op_finished(op, result),
            Message::TrafficRead(r) => self.on_traffic_read(r),

            _ => Vec::new(),
        }
    }

    /// Handles a message at `now_micros` (the clock, in microseconds) and
    /// returns the work to perform, in order.
    pub fn update(&mut self, message: Message, now_micros: u64) -> (cmds: Vec<Command>)
        requires
            old(self).wf(),
        ensures
            final(self).wf(),
            final(self)@ == spec_app_step(old(self)@, message, now_micros),
            spec_app_commands(old(self)@, message, now_micros, cmds@),
    {
        if is_connection(&message) {
            self.update_connection(message, now_micros)
        } else if is_view(&message) {
            self.update_views(message, now_micros)
        } else if is_data(&message) {
            self.update_data(message, now_micros)
        } else if is_capture(&message) {
            self.update_capture(message, now_micros)
        } else {
            self.update_outcome(message, now_micros)
        }
    }

}

} // verus!
