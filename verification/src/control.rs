//! Decisions around the Cynthion's vendor control requests, its transfer
//! errors and the device list, taken on plain values that the I/O layer
//! hands in.

use vstd::prelude::*;
use crate::devices::{devices_model, get_simulated_devices, spec_simulated_devices, DeviceInfoModel, USBDeviceInfo, CYNTHION_VID};
use crate::text::{contains_text, spec_contains_text};

verus! {

/// Name of a vendor request as it is logged: request 1 starts capture when
/// bit 0 of its value is set and stops it otherwise.
pub open spec fn spec_request_name(request: u8, value: u8) -> Seq<char> {
    if request == 1 {
        if value % 2 == 1 { "START_CAPTURE"@ } else { "STOP_CAPTURE"@ }
    } else if request == 2 {
        "ENABLE_DEVICE_DETECTION"@
    } else if request == 3 {
        "SET_MONITORING_MODE"@
    } else if request == 4 {
        "ENABLE_DETAILED_CAPTURE"@
    } else if request == 5 {
        "DEVICE_PREP"@
    } else if request == 0xFF {
        "FULL_DEVICE_RESET"@
    } else {
        "UNKNOWN"@
    }
}

/// Name of a vendor request.
pub fn request_name(request: u8, value: u8) -> (s: &'static str)
    ensures
        s@ == spec_request_name(request, value),
{
    assert((value & 0x01 != 0) == (value % 2 == 1)) by (bit_vector);
    match request {
        1 => if value & 0x01 != 0 { "START_CAPTURE" } else { "STOP_CAPTURE" },
        2 => "ENABLE_DEVICE_DETECTION",
        3 => "SET_MONITORING_MODE",
        4 => "ENABLE_DETAILED_CAPTURE",
        5 => "DEVICE_PREP",
        0xFF => "FULL_DEVICE_RESET",
        _ => "UNKNOWN",
    }
}

/// Timeout of a vendor request: 3 s to start capture, 5 s for a full reset,
/// 1 s otherwise.
pub open spec fn spec_request_timeout_ms(request: u8, value: u8) -> u64 {
    if request == 1 && value % 2 == 1 {
        3000
    } else if request == 0xFF {
        5000
    } else {
        1000
    }
}

/// Timeout of a vendor request, in milliseconds.
pub fn request_timeout_ms(request: u8, value: u8) -> (ms: u64)
    ensures
        ms == spec_request_timeout_ms(request, value),
{
    assert((value & 0x01 != 0) == (value % 2 == 1)) by (bit_vector);
    if request == 1 && value & 0x01 != 0 {
        3000
    } else if request == 0xFF {
        5000
    } else {
        1000
    }
}

/// Whether a failed request counts as done: a full reset whose error text
/// mentions a timeout or a pipe error, since the device drops off the bus
/// while it resets.
pub open spec fn spec_failure_is_expected(request: u8, error_text: Seq<char>) -> bool {
    request == 0xFF && (spec_contains_text(error_text, "timeout"@) || spec_contains_text(error_text, "pipe"@))
}

/// Whether a failed request counts as done.
pub fn failure_is_expected(request: u8, error_text: &str) -> (b: bool)
    ensures
        b == spec_failure_is_expected(request, error_text@),
{
    request == 0xFF && (contains_text(error_text, "timeout") || contains_text(error_text, "pipe"))
}

/// Whether a handle is in simulation mode: only when the simulation setting
/// is on and the device is not a Great Scott Gadgets device.
pub open spec fn spec_handle_simulation(simulation_enabled: bool, vendor_id: u16) -> bool {
    vendor_id != CYNTHION_VID && simulation_enabled
}

/// Whether a handle is in simulation mode.
pub fn handle_is_simulation(simulation_enabled: bool, vendor_id: u16) -> (b: bool)
    ensures
        b == spec_handle_simulation(simulation_enabled, vendor_id),
{
    if vendor_id == CYNTHION_VID {
        return false;
    }
    simulation_enabled
}

/// Whether a bulk read error means the device is gone.
pub open spec fn spec_read_error_is_disconnect(error_text: Seq<char>) -> bool {
    spec_contains_text(error_text, "No such device"@) || spec_contains_text(error_text, "not found"@)
        || spec_contains_text(error_text, "disconnected"@) || spec_contains_text(error_text, "timed out"@)
}

/// Whether a bulk read error means the device is gone.
pub fn read_error_is_disconnect(error_text: &str) -> (b: bool)
    ensures
        b == spec_read_error_is_disconnect(error_text@),
{
    contains_text(error_text, "No such device") || contains_text(error_text, "not found") || contains_text(
        error_text,
        "disconnected",
    ) || contains_text(error_text, "timed out")
}

/// Why no analyzer could be connected, from what the host shows: no USB
/// device at all; devices that open but none compatible; or a first device
/// that does not open (a permission problem), with advice for Linux or for
/// other systems.
pub open spec fn spec_no_analyzer_error(any_device: bool, open_error: Option<Seq<char>>, linux: bool) -> Seq<char> {
    if !any_device {
        "No USB devices found. Check if USB is working properly on your system."@
    } else {
        match open_error {
            None => "No compatible USB analyzer devices found. Make sure your Cynthion device is connected."@,
            Some(e) => if linux {
                "USB permission error: "@ + e + ". Try running with sudo or add udev rules for USB access."@
            } else {
                "USB permission error: "@ + e + ". You might need administrator privileges to access USB devices."@
            },
        }
    }
}

/// Why no analyzer could be connected; `open_error` is the error from
/// opening the first device, if it failed.
pub fn no_analyzer_error(any_device: bool, open_error: Option<&str>, linux: bool) -> (s: String)
    ensures
        s@ == spec_no_analyzer_error(any_device, match open_error {
            Some(e) => Some(e@),
            None => None,
        }, linux),
{
    if !any_device {
        return String::from_str("No USB devices found. Check if USB is working properly on your system.");
    }
    match open_error {
        None => String::from_str("No compatible USB analyzer devices found. Make sure your Cynthion device is connected."),
        Some(e) => {
            let mut s = String::from_str("USB permission error: ");
            s.append(e);
            if linux {
                s.append(". Try running with sudo or add udev rules for USB access.");
            } else {
                s.append(". You might need administrator privileges to access USB devices.");
            }
            s
        },
    }
}

/// Whether claiming the interface failed with an access error that macOS
/// reports for an interface it will not hand over; the connection then
/// goes on without a handle.
pub open spec fn spec_is_interface_access_error(error_text: Seq<char>) -> bool {
    spec_contains_text(error_text, "USBInterfaceOpen"@) || spec_contains_text(error_text, "EACCES"@)
        || spec_contains_text(error_text, "EPERM"@) || spec_contains_text(error_text, "EBUSY"@)
        || spec_contains_text(error_text, "IOReturn"@) || spec_contains_text(error_text, "libusb"@)
}

/// Whether claiming the interface failed with an interface access error.
pub fn is_interface_access_error(error_text: &str) -> (b: bool)
    ensures
        b == spec_is_interface_access_error(error_text@),
{
    contains_text(error_text, "USBInterfaceOpen") || contains_text(error_text, "EACCES") || contains_text(
        error_text,
        "EPERM",
    ) || contains_text(error_text, "EBUSY") || contains_text(error_text, "IOReturn") || contains_text(
        error_text,
        "libusb",
    )
}

/// What the transfer queue does after a failed transfer.
#[derive(Clone, Copy, Debug, PartialEq, Eq, Structural)]
pub enum TransferRecovery {
    /// Submit a new transfer of this many bytes and go on.
    Resubmit(usize),
    /// Give up with the error.
    Abort,
}

/// Recovery after a failed transfer, from the error's text, the number of
/// failed transfers so far (this one included) and whether shutdown has
/// begun: timeouts are retried up to 4 failures, pipe or endpoint errors up
/// to 2, busy or resource errors up to 9 with half-size transfers.
pub open spec fn spec_transfer_recovery(error_text: Seq<char>, errors: u64, transfer_length: usize, stopping: bool) -> TransferRecovery {
    if stopping {
        TransferRecovery::Abort
    } else if spec_contains_text(error_text, "timeout"@) {
        if errors < 5 { TransferRecovery::Resubmit(transfer_length) } else { TransferRecovery::Abort }
    } else if spec_contains_text(error_text, "pipe"@) || spec_contains_text(error_text, "endpoint"@) {
        if errors < 3 { TransferRecovery::Resubmit(transfer_length) } else { TransferRecovery::Abort }
    } else if spec_contains_text(error_text, "busy"@) || spec_contains_text(error_text, "resource"@) {
        if errors < 10 { TransferRecovery::Resubmit((transfer_length / 2) as usize) } else { TransferRecovery::Abort }
    } else {
        TransferRecovery::Abort
    }
}

/// Recovery after a failed transfer; `error_text` is the error's text in
/// lower case.
pub fn transfer_recovery(error_text: &str, errors: u64, transfer_length: usize, stopping: bool) -> (r: TransferRecovery)
    ensures
        r == spec_transfer_recovery(error_text@, errors, transfer_length, stopping),
{
    if stopping {
        TransferRecovery::Abort
    } else if contains_text(error_text, "timeout") {
        if errors < 5 { TransferRecovery::Resubmit(transfer_length) } else { TransferRecovery::Abort }
    } else if contains_text(error_text, "pipe") || contains_text(error_text, "endpoint") {
        if errors < 3 { TransferRecovery::Resubmit(transfer_length) } else { TransferRecovery::Abort }
    } else if contains_text(error_text, "busy") || contains_text(error_text, "resource") {
        if errors < 10 { TransferRecovery::Resubmit(transfer_length / 2) } else { TransferRecovery::Abort }
    } else {
        TransferRecovery::Abort
    }
}

/// What the transfer queue does after a completion.
#[derive(Clone, Copy, Debug, PartialEq, Eq, Structural)]
pub enum QueueAction {
    /// Submit a transfer of this many bytes and go on.
    Submit(usize),
    /// Go on without submitting.
    Wait,
    /// Every cancelled transfer has come back: processing ends cleanly.
    Done,
    /// Processing ends with the transfer's error.
    Fail,
}

/// Model of the transfer queue's bookkeeping.
pub struct TransferStateModel {
    pub transfer_length: usize,
    pub errors: u64,
    pub stopping: bool,
    pub forwarded: Seq<Seq<u8>>,
}

/// The transfer queue's bookkeeping: the size of a transfer, the failed
/// transfers so far, whether a stop was asked for, and (as ghost state) the
/// data handed on so far, in order.
pub struct TransferState {
    transfer_length: usize,
    errors: u64,
    stopping: bool,
    forwarded: Ghost<Seq<Seq<u8>>>,
}

impl View for TransferState {
    type V = TransferStateModel;

    closed spec fn view(&self) -> TransferStateModel {
        TransferStateModel {
            transfer_length: self.transfer_length,
            errors: self.errors,
            stopping: self.stopping,
            forwarded: self.forwarded@,
        }
    }
}

/// The action a failure leads to, by its recovery.
pub open spec fn spec_recovery_action(r: TransferRecovery) -> QueueAction {
    match r {
        TransferRecovery::Resubmit(n) => QueueAction::Submit(n),
        TransferRecovery::Abort => QueueAction::Fail,
    }
}

/// A completion with `data`: the data is handed on as it is and recorded;
/// a full-size transfer follows unless a stop was asked for.
pub open spec fn spec_on_data(s: TransferStateModel, data: Seq<u8>) -> (TransferStateModel, Seq<u8>, QueueAction) {
    (
        TransferStateModel { forwarded: s.forwarded.push(data), ..s },
        data,
        if s.stopping { QueueAction::Wait } else { QueueAction::Submit(s.transfer_length) },
    )
}

impl TransferState {
    /// Bookkeeping for transfers of `transfer_length` bytes, before any
    /// completion.
    pub fn new(transfer_length: usize) -> (s: TransferState)
        ensures
            s@ == (TransferStateModel { transfer_length, errors: 0, stopping: false, forwarded: Seq::empty() }),
    {
        TransferState { transfer_length, errors: 0, stopping: false, forwarded: Ghost(Seq::empty()) }
    }

    /// Whether a transfer must be submitted because none is pending and no
    /// stop was asked for.
    pub fn needs_transfer(&self, pending: usize) -> (b: bool)
        ensures
            b == (pending == 0 && !self@.stopping),
    {
        pending == 0 && !self.stopping
    }

    /// Records that a stop was asked for; the queue then cancels every
    /// pending transfer.
    pub fn request_stop(&mut self)
        ensures
            final(self)@ == (TransferStateModel { stopping: true, ..old(self)@ }),
    {
        self.stopping = true;
    }

    /// After a transfer that completed with `data`: the data, unchanged and
    /// whatever its length (zero-length packets included), is what to hand
    /// on, and it joins the record of forwarded data; a new transfer of full
    /// size keeps the queue filled unless a stop was asked for.
    pub fn on_data(&mut self, data: Vec<u8>) -> (r: (Vec<u8>, QueueAction))
        ensures
            (final(self)@, r.0@, r.1) == spec_on_data(old(self)@, data@),
    {
        proof {
            self.forwarded@ = self.forwarded@.push(data@);
        }
        let a = if self.stopping { QueueAction::Wait } else { QueueAction::Submit(self.transfer_length) };
        (data, a)
    }

    /// After a failed transfer whose error text, in lower case, is
    /// `error_text`: the failure is counted and recovered from as
    /// `transfer_recovery` says.
    pub fn on_error(&mut self, error_text: &str) -> (a: QueueAction)
        requires
            old(self)@.errors < u64::MAX,
        ensures
            final(self)@ == (TransferStateModel { errors: (old(self)@.errors + 1) as u64, ..old(self)@ }),
            a == spec_recovery_action(spec_transfer_recovery(
                error_text@,
                (old(self)@.errors + 1) as u64,
                old(self)@.transfer_length,
                old(self)@.stopping,
            )),
    {
        self.errors = self.errors + 1;
        match transfer_recovery(error_text, self.errors, self.transfer_length, self.stopping) {
            TransferRecovery::Resubmit(n) => QueueAction::Submit(n),
            TransferRecovery::Abort => QueueAction::Fail,
        }
    }

    /// After a transfer that came back cancelled, with `pending` transfers
    /// still out: during a stop, processing ends once none is pending; a
    /// cancellation without a stop is a failure like any other.
    pub fn on_cancelled(&mut self, pending: usize, error_text: &str) -> (a: QueueAction)
        requires
            old(self)@.errors < u64::MAX,
        ensures
            old(self)@.stopping ==> final(self)@ == old(self)@
                && a == (if pending == 0 { QueueAction::Done } else { QueueAction::Wait }),
            !old(self)@.stopping ==> final(self)@ == (TransferStateModel { errors: (old(self)@.errors + 1) as u64, ..old(self)@ })
                && a == spec_recovery_action(spec_transfer_recovery(
                    error_text@,
                    (old(self)@.errors + 1) as u64,
                    old(self)@.transfer_length,
                    false,
                )),
    {
        if self.stopping {
            if pending == 0 { QueueAction::Done } else { QueueAction::Wait }
        } else {
            self.on_error(error_text)
        }
    }

    /// Whether a stop was asked for.
    pub fn is_stopping(&self) -> (b: bool)
        ensures
            b == self@.stopping,
    {
        self.stopping
    }

    /// Failed transfers so far.
    pub fn errors(&self) -> (n: u64)
        ensures
            n == self@.errors,
    {
        self.errors
    }
}

/// What sending the stop command does next.
#[derive(Clone, Copy, Debug, PartialEq, Eq, Structural)]
pub enum StopStep {
    /// Send the stop command again (after a short pause).
    SendAgain,
    /// Stopping succeeded.
    Stopped,
    /// Stopping failed.
    Failed,
}

/// After stop attempt `attempt` (1 to 3) succeeded or failed: a first
/// success is confirmed by a second send; a later success ends; a failure is
/// retried until the third attempt.
pub open spec fn spec_stop_step(attempt: u32, ok: bool) -> StopStep {
    if ok {
        if attempt == 1 { StopStep::SendAgain } else { StopStep::Stopped }
    } else if attempt < 3 {
        StopStep::SendAgain
    } else {
        StopStep::Failed
    }
}

/// What sending the stop command does next.
pub fn stop_step(attempt: u32, ok: bool) -> (s: StopStep)
    requires
        1 <= attempt <= 3,
    ensures
        s == spec_stop_step(attempt, ok),
{
    if ok {
        if attempt == 1 { StopStep::SendAgain } else { StopStep::Stopped }
    } else if attempt < 3 {
        StopStep::SendAgain
    } else {
        StopStep::Failed
    }
}

/// Where stopping capture on a connection stands.
#[derive(Clone, Copy, Debug, PartialEq, Eq, Structural)]
pub enum StopPhase {
    /// Nothing done yet.
    Begin,
    /// The transfer queue, if any, is shut down; the connection is checked.
    Check,
    /// Stop send number `n` (1 to 3) was made; its result is due.
    Sent(u32),
    /// A pause before stop send number `n` (2 or 3).
    Paused(u32),
    /// Finished, successfully or not.
    Finished(bool),
}

/// What stopping capture on a connection does next.
#[derive(Clone, Copy, Debug, PartialEq, Eq, Structural)]
pub enum StopAction {
    /// Shut the transfer queue down.
    ShutdownQueue,
    /// Send the stop command, and report whether it was sent.
    SendStop,
    /// Wait this many milliseconds.
    Pause(u64),
    /// Stopping is over: `true` for success.
    Finish(bool),
}

/// Model of a stop sequence: whether the connection has a transfer queue,
/// whether it is active, and the phase.
pub struct StopModel {
    pub has_queue: bool,
    pub active: bool,
    pub phase: StopPhase,
}

/// Whether a model is one a stop sequence can be in.
pub open spec fn spec_stop_valid(m: StopModel) -> bool {
    match m.phase {
        StopPhase::Sent(n) => 1 <= n <= 3,
        StopPhase::Paused(n) => 2 <= n <= 3,
        _ => true,
    }
}

/// One step of stopping capture; `last_ok` is whether the last stop send
/// succeeded. The transfer queue is shut down first, if there is one. An
/// inactive connection then finishes successfully with nothing sent. Else
/// the stop command is sent as [`spec_stop_step`] says: a first success is
/// confirmed by a second send after 50 ms, a failure is retried after
/// 100 ms, and the third failure ends it.
pub open spec fn spec_stop_next(m: StopModel, last_ok: bool) -> (StopModel, StopAction) {
    match m.phase {
        StopPhase::Begin => if m.has_queue {
            (StopModel { phase: StopPhase::Check, ..m }, StopAction::ShutdownQueue)
        } else {
            spec_stop_check(m)
        },
        StopPhase::Check => spec_stop_check(m),
        StopPhase::Sent(n) => match spec_stop_step(n, last_ok) {
            StopStep::SendAgain => (
                StopModel { phase: StopPhase::Paused((n + 1) as u32), ..m },
                StopAction::Pause(if last_ok { 50 } else { 100 }),
            ),
            StopStep::Stopped => (StopModel { phase: StopPhase::Finished(true), ..m }, StopAction::Finish(true)),
            StopStep::Failed => (StopModel { phase: StopPhase::Finished(false), ..m }, StopAction::Finish(false)),
        },
        StopPhase::Paused(n) => (StopModel { phase: StopPhase::Sent(n), ..m }, StopAction::SendStop),
        StopPhase::Finished(b) => (m, StopAction::Finish(b)),
    }
}

/// The check of the connection: inactive finishes at once, active sends.
pub open spec fn spec_stop_check(m: StopModel) -> (StopModel, StopAction) {
    if !m.active {
        (StopModel { phase: StopPhase::Finished(true), ..m }, StopAction::Finish(true))
    } else {
        (StopModel { phase: StopPhase::Sent(1), ..m }, StopAction::SendStop)
    }
}

/// Stopping capture on a connection, one action at a time.
pub struct StopSequence {
    has_queue: bool,
    active: bool,
    phase: StopPhase,
}

impl View for StopSequence {
    type V = StopModel;

    closed spec fn view(&self) -> StopModel {
        StopModel { has_queue: self.has_queue, active: self.active, phase: self.phase }
    }
}

impl StopSequence {
    /// A stop sequence for a connection with or without a transfer queue,
    /// active or not.
    pub fn new(has_queue: bool, active: bool) -> (s: StopSequence)
        ensures
            s@ == (StopModel { has_queue, active, phase: StopPhase::Begin }),
            spec_stop_valid(s@),
    {
        StopSequence { has_queue, active, phase: StopPhase::Begin }
    }

    fn check(&mut self) -> (a: StopAction)
        ensures
            (final(self)@, a) == spec_stop_check(old(self)@),
    {
        if !self.active {
            self.phase = StopPhase::Finished(true);
            StopAction::Finish(true)
        } else {
            self.phase = StopPhase::Sent(1);
            StopAction::SendStop
        }
    }

    /// The next action; `last_ok` is whether the last stop send succeeded.
    pub fn next_action(&mut self, last_ok: bool) -> (a: StopAction)
        requires
            spec_stop_valid(old(self)@),
        ensures
            spec_stop_valid(final(self)@),
            (final(self)@, a) == spec_stop_next(old(self)@, last_ok),
    {
        match self.phase {
            StopPhase::Begin => {
                if self.has_queue {
                    self.phase = StopPhase::Check;
                    StopAction::ShutdownQueue
                } else {
                    self.check()
                }
            },
            StopPhase::Check => self.check(),
            StopPhase::Sent(n) => match stop_step(n, last_ok) {
                StopStep::SendAgain => {
                    self.phase = StopPhase::Paused(n + 1);
                    StopAction::Pause(if last_ok { 50 } else { 100 })
                },
                StopStep::Stopped => {
                    self.phase = StopPhase::Finished(true);
                    StopAction::Finish(true)
                },
                StopStep::Failed => {
                    self.phase = StopPhase::Finished(false);
                    StopAction::Finish(false)
                },
            },
            StopPhase::Paused(n) => {
                self.phase = StopPhase::Sent(n);
                StopAction::SendStop
            },
            StopPhase::Finished(b) => StopAction::Finish(b),
        }
    }
}

/// What a retried device operation does next.
#[derive(Clone, Copy, Debug, PartialEq, Eq, Structural)]
pub enum RetryStep {
    /// Wait this many milliseconds, then make the next attempt.
    Attempt { pause_ms: u64 },
    /// The last attempt succeeded.
    Succeeded,
    /// The last attempt failed and no attempt is left.
    GaveUp,
}

/// Opening a device: wait 100 ms before the first attempt; after a failed
/// first attempt wait 300 ms and try once more. `attempt` is the number of
/// attempts made so far and `ok` whether the last one succeeded.
pub open spec fn spec_open_step(attempt: u32, ok: bool) -> RetryStep {
    if attempt == 0 {
        RetryStep::Attempt { pause_ms: 100 }
    } else if ok {
        RetryStep::Succeeded
    } else if attempt == 1 {
        RetryStep::Attempt { pause_ms: 300 }
    } else {
        RetryStep::GaveUp
    }
}

/// What opening a device does next.
pub fn open_step(attempt: u32, ok: bool) -> (s: RetryStep)
    requires
        attempt <= 2,
    ensures
        s == spec_open_step(attempt, ok),
{
    if attempt == 0 {
        RetryStep::Attempt { pause_ms: 100 }
    } else if ok {
        RetryStep::Succeeded
    } else if attempt == 1 {
        RetryStep::Attempt { pause_ms: 300 }
    } else {
        RetryStep::GaveUp
    }
}

/// Stopping capture before a speed change, with up to `attempts` attempts:
/// the first is made at once; after failed attempt `k` the next follows
/// after `300 * k` ms; a success ends it, and so does the last failure.
pub open spec fn spec_stop_retry_step(attempt: u32, attempts: u32, ok: bool) -> RetryStep {
    if attempt == 0 {
        RetryStep::Attempt { pause_ms: 0 }
    } else if ok {
        RetryStep::Succeeded
    } else if attempt < attempts {
        RetryStep::Attempt { pause_ms: (300 * attempt) as u64 }
    } else {
        RetryStep::GaveUp
    }
}

/// What stopping capture with retries does next; `attempt` is the number
/// of attempts made so far and `ok` whether the last one succeeded.
pub fn stop_retry_step(attempt: u32, attempts: u32, ok: bool) -> (s: RetryStep)
    requires
        1 <= attempts,
        attempt <= attempts,
    ensures
        s == spec_stop_retry_step(attempt, attempts, ok),
{
    if attempt == 0 {
        RetryStep::Attempt { pause_ms: 0 }
    } else if ok {
        RetryStep::Succeeded
    } else if attempt < attempts {
        RetryStep::Attempt { pause_ms: 300 * attempt as u64 }
    } else {
        RetryStep::GaveUp
    }
}

/// The device list shown after a scan: the scanned devices when a Cynthion
/// was among them, when hardware mode is forced, or when any device was
/// found; otherwise the simulated devices, and simulation is switched on.
pub open spec fn spec_device_list_choice(found_cynthion: bool, force_hardware: bool, scanned: Seq<DeviceInfoModel>) -> (bool, bool) {
    if found_cynthion || force_hardware || scanned.len() > 0 {
        (true, false)
    } else {
        (false, true)
    }
}

/// The device list shown after a scan, and whether simulation is switched on.
pub fn choose_device_list(found_cynthion: bool, force_hardware: bool, scanned: Vec<USBDeviceInfo>) -> (r: (Vec<USBDeviceInfo>, bool))
    ensures
        ({
            let (use_scanned, enable_simulation) = spec_device_list_choice(found_cynthion, force_hardware, devices_model(scanned@));
            &&& r.1 == enable_simulation
            &&& use_scanned ==> devices_model(r.0@) == devices_model(scanned@)
            &&& !use_scanned ==> devices_model(r.0@) == spec_simulated_devices()
        }),
{
    if found_cynthion {
        return (scanned, false);
    }
    if force_hardware {
        return (scanned, false);
    }
    if scanned.len() > 0 {
        (scanned, false)
    } else {
        (get_simulated_devices(), true)
    }
}

} // verus!
