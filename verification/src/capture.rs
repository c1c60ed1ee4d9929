//! The sequence of vendor requests that starts capture on a Cynthion.
//!
//! The I/O layer runs a [`CaptureStarter`]: it performs each action the
//! starter returns and, for a write, reports whether it succeeded on the
//! next call. Writes before the first start request are sent for their
//! effect; their results do not change the sequence.

use vstd::prelude::*;
use crate::devices::CYNTHION_VID;
use crate::speed::{capture_backoff_ms, capture_speed_candidates, spec_capture_backoff_ms, spec_capture_speed_candidates, Speed, State};

verus! {

/// Number of rounds of start attempts.
pub const MAX_CAPTURE_ATTEMPTS: u32 = 6;

/// One step of starting capture.
#[derive(Clone, Copy, Debug, PartialEq, Eq, Structural)]
pub enum CaptureAction {
    /// Send vendor request `request` with `value` to the capture interface.
    Write { request: u8, value: u8 },
    /// Wait this many milliseconds.
    Sleep(u64),
    /// Create the transfer queue that receives captured data.
    CreateQueue,
    /// Start processing transfers in the background.
    StartProcessing,
    /// Starting ended: capture runs (`true`) or every attempt failed.
    Finish(bool),
}

/// Where the starter is.
#[derive(Clone, Copy, Debug, PartialEq, Eq, Structural)]
pub enum StartPhase {
    /// Step `k` of the preparation before the first round.
    Setup(u8),
    /// Step `k` of the reset before a later round.
    Reset(u8),
    /// About to send the start request with candidate speed `i`.
    Try(usize),
    /// The start request with candidate speed `i` was sent; its result comes next.
    Await(usize),
    /// Every candidate of this round failed.
    Backoff,
    /// Step `k` after a start request succeeded.
    Started(u8),
    /// Finished with the given outcome.
    Done(bool),
}

/// Model of a starter.
pub struct StarterModel {
    pub speed: Speed,
    pub candidates: Seq<Speed>,
    pub phase: StartPhase,
    pub attempt: u32,
}

/// The control byte that stops capture.
pub open spec fn spec_stop_value() -> u8 {
    2
}

/// The control byte that starts capture at `s`.
pub open spec fn spec_start_value(s: Speed) -> u8 {
    (1 + 2 * s.spec_value()) as u8
}

/// The preparation before the first round: stop any capture, reset the
/// device, enable device detection, set the monitoring mode, with a pause
/// after each, then create the transfer queue.
pub open spec fn spec_setup_action(k: u8) -> CaptureAction {
    if k == 0 {
        CaptureAction::Write { request: 1, value: spec_stop_value() }
    } else if k == 1 {
        CaptureAction::Sleep(500)
    } else if k == 2 {
        CaptureAction::Write { request: 0xFF, value: 0 }
    } else if k == 3 {
        CaptureAction::Sleep(2000)
    } else if k == 4 {
        CaptureAction::Write { request: 2, value: 1 }
    } else if k == 5 {
        CaptureAction::Sleep(300)
    } else if k == 6 {
        CaptureAction::Write { request: 3, value: 3 }
    } else if k == 7 {
        CaptureAction::Sleep(300)
    } else {
        CaptureAction::CreateQueue
    }
}

/// The reset before round `attempt`: stop capture, pause, reset the device,
/// pause 500 ms per round, enable device detection, pause.
pub open spec fn spec_reset_action(k: u8, attempt: u32) -> CaptureAction {
    if k == 0 {
        CaptureAction::Write { request: 1, value: spec_stop_value() }
    } else if k == 1 {
        CaptureAction::Sleep(300)
    } else if k == 2 {
        CaptureAction::Write { request: 0xFF, value: 0 }
    } else if k == 3 {
        CaptureAction::Sleep((500 * attempt) as u64)
    } else if k == 4 {
        CaptureAction::Write { request: 2, value: 1 }
    } else {
        CaptureAction::Sleep(200)
    }
}

/// One step of the starter: the next model and the action to perform.
/// `last_ok` is whether the last write succeeded; only the result of a
/// start request is used.
pub open spec fn spec_starter_next(m: StarterModel, last_ok: bool) -> (StarterModel, CaptureAction) {
    match m.phase {
        StartPhase::Setup(k) => {
            let next = if k < 8 { StartPhase::Setup((k + 1) as u8) } else { StartPhase::Try(0) };
            (StarterModel { phase: next, ..m }, spec_setup_action(k))
        },
        StartPhase::Reset(k) => {
            let next = if k < 5 { StartPhase::Reset((k + 1) as u8) } else { StartPhase::Try(0) };
            (StarterModel { phase: next, ..m }, spec_reset_action(k, m.attempt))
        },
        StartPhase::Try(i) => (
            StarterModel { phase: StartPhase::Await(i), ..m },
            CaptureAction::Write { request: 1, value: spec_start_value(m.candidates[i as int]) },
        ),
        StartPhase::Await(i) => if last_ok {
            (StarterModel { phase: StartPhase::Started(0), ..m }, CaptureAction::StartProcessing)
        } else {
            let next = if i + 1 < m.candidates.len() { StartPhase::Try((i + 1) as usize) } else { StartPhase::Backoff };
            (StarterModel { phase: next, ..m }, CaptureAction::Sleep(200))
        },
        StartPhase::Backoff => if m.attempt < MAX_CAPTURE_ATTEMPTS {
            (
                StarterModel { phase: StartPhase::Reset(0), attempt: (m.attempt + 1) as u32, ..m },
                CaptureAction::Sleep(spec_capture_backoff_ms(m.attempt as nat) as u64),
            )
        } else {
            (StarterModel { phase: StartPhase::Done(false), ..m }, CaptureAction::Finish(false))
        },
        StartPhase::Started(k) => if k == 0 {
            (StarterModel { phase: StartPhase::Started(1), ..m }, CaptureAction::Sleep(500))
        } else {
            (StarterModel { phase: StartPhase::Done(true), ..m }, CaptureAction::Finish(true))
        },
        StartPhase::Done(b) => (m, CaptureAction::Finish(b)),
    }
}

/// Whether a model is one the starter can be in.
pub open spec fn spec_starter_valid(m: StarterModel) -> bool {
    &&& m.candidates == spec_capture_speed_candidates(m.speed)
    &&& 1 <= m.attempt <= MAX_CAPTURE_ATTEMPTS
    &&& match m.phase {
        StartPhase::Setup(k) => k <= 8 && m.attempt == 1,
        StartPhase::Reset(k) => k <= 5 && m.attempt >= 2,
        StartPhase::Try(i) => i < m.candidates.len(),
        StartPhase::Await(i) => i < m.candidates.len(),
        StartPhase::Started(k) => k <= 1,
        _ => true,
    }
}

/// An upper bound on the steps left before the starter is done.
pub open spec fn spec_steps_left(m: StarterModel) -> int {
    let base = 20 * (MAX_CAPTURE_ATTEMPTS - m.attempt) + 4;
    let n = m.candidates.len() as int;
    match m.phase {
        StartPhase::Setup(k) => base + 20 + (9 - k),
        StartPhase::Reset(k) => base + 10 + (6 - k),
        StartPhase::Try(i) => base + 2 * (n - i) + 1,
        StartPhase::Await(i) => base + 2 * (n - i),
        StartPhase::Backoff => base,
        StartPhase::Started(k) => 3 - k,
        StartPhase::Done(_) => 0,
    }
}

/// Drives the requests that start capture.
pub struct CaptureStarter {
    speed: Speed,
    candidates: Vec<Speed>,
    phase: StartPhase,
    attempt: u32,
}

impl View for CaptureStarter {
    type V = StarterModel;

    closed spec fn view(&self) -> StarterModel {
        StarterModel { speed: self.speed, candidates: self.candidates@, phase: self.phase, attempt: self.attempt }
    }
}

/// Whether capture starts right away on a device (a Great Scott Gadgets
/// device), rather than waiting for one to connect.
pub fn capture_starts_now(vendor_id: u16) -> (b: bool)
    ensures
        b == (vendor_id == CYNTHION_VID),
{
    vendor_id == CYNTHION_VID
}

/// What a device handle holds for capture before any request is sent: the
/// receiving end of the data channel, a sender kept back for a device that
/// is not connected yet, and whether capture starts once it connects.
/// (Resetting connection detection belongs to the application state, which
/// clears it whenever it asks the device to start capture.)
pub struct CaptureArming {
    pub receiver_ready: bool,
    pub pending_sender: bool,
    pub capture_on_connect: bool,
}

impl CaptureArming {
    /// A handle that has not been asked to capture.
    pub fn new() -> (a: CaptureArming)
        ensures
            !a.receiver_ready,
            !a.pending_sender,
            !a.capture_on_connect,
    {
        CaptureArming { receiver_ready: false, pending_sender: false, capture_on_connect: false }
    }

    /// Starting capture on a device with `vendor_id`: a fresh data channel
    /// is made and its receiver kept. On a Great Scott Gadgets device the
    /// start requests follow at once (the result is `true`) and nothing else
    /// changes here; on any other device no request is sent, the sender is
    /// kept back and capture is marked to start once a device connects.
    pub fn begin(&mut self, vendor_id: u16) -> (now: bool)
        ensures
            now == (vendor_id == CYNTHION_VID),
            final(self).receiver_ready,
            now ==> final(self).pending_sender == old(self).pending_sender
                && final(self).capture_on_connect == old(self).capture_on_connect,
            !now ==> final(self).pending_sender && final(self).capture_on_connect,
    {
        self.receiver_ready = true;
        let now = capture_starts_now(vendor_id);
        if !now {
            self.pending_sender = true;
            self.capture_on_connect = true;
        }
        now
    }
}

impl CaptureStarter {
    /// A starter for capture at `speed`, before its first step.
    pub fn new(speed: Speed) -> (s: CaptureStarter)
        ensures
            s@ == (StarterModel {
                speed,
                candidates: spec_capture_speed_candidates(speed),
                phase: StartPhase::Setup(0),
                attempt: 1,
            }),
            spec_starter_valid(s@),
    {
        CaptureStarter { speed, candidates: capture_speed_candidates(speed), phase: StartPhase::Setup(0), attempt: 1 }
    }

    /// The next action; `last_ok` is whether the last write succeeded.
    pub fn next_action(&mut self, last_ok: bool) -> (a: CaptureAction)
        requires
            spec_starter_valid(old(self)@),
        ensures
            spec_starter_valid(final(self)@),
            (final(self)@, a) == spec_starter_next(old(self)@, last_ok),
    {
        match self.phase {
            StartPhase::Setup(k) => {
                let a = match k {
                    0 => CaptureAction::Write { request: 1, value: State::new(false, Speed::High).0 },
                    1 => CaptureAction::Sleep(500),
                    2 => CaptureAction::Write { request: 0xFF, value: 0 },
                    3 => CaptureAction::Sleep(2000),
                    4 => CaptureAction::Write { request: 2, value: 1 },
                    5 => CaptureAction::Sleep(300),
                    6 => CaptureAction::Write { request: 3, value: 3 },
                    7 => CaptureAction::Sleep(300),
                    _ => CaptureAction::CreateQueue,
                };
                self.phase = if k < 8 { StartPhase::Setup(k + 1) } else { StartPhase::Try(0) };
                a
            },
            StartPhase::Reset(k) => {
                let a = match k {
                    0 => CaptureAction::Write { request: 1, value: State::new(false, Speed::High).0 },
                    1 => CaptureAction::Sleep(300),
                    2 => CaptureAction::Write { request: 0xFF, value: 0 },
                    3 => CaptureAction::Sleep(500 * self.attempt as u64),
                    4 => CaptureAction::Write { request: 2, value: 1 },
                    _ => CaptureAction::Sleep(200),
                };
                self.phase = if k < 5 { StartPhase::Reset(k + 1) } else { StartPhase::Try(0) };
                a
            },
            StartPhase::Try(i) => {
                self.phase = StartPhase::Await(i);
                CaptureAction::Write { request: 1, value: State::new(true, self.candidates[i]).0 }
            },
            StartPhase::Await(i) => {
                if last_ok {
                    self.phase = StartPhase::Started(0);
                    CaptureAction::StartProcessing
                } else {
                    self.phase = if i + 1 < self.candidates.len() { StartPhase::Try(i + 1) } else { StartPhase::Backoff };
                    CaptureAction::Sleep(200)
                }
            },
            StartPhase::Backoff => {
                if self.attempt < MAX_CAPTURE_ATTEMPTS {
                    let ms = capture_backoff_ms(self.attempt);
                    self.attempt = self.attempt + 1;
                    self.phase = StartPhase::Reset(0);
                    CaptureAction::Sleep(ms)
                } else {
                    self.phase = StartPhase::Done(false);
                    CaptureAction::Finish(false)
                }
            },
            StartPhase::Started(k) => {
                if k == 0 {
                    self.phase = StartPhase::Started(1);
                    CaptureAction::Sleep(500)
                } else {
                    self.phase = StartPhase::Done(true);
                    CaptureAction::Finish(true)
                }
            },
            StartPhase::Done(b) => CaptureAction::Finish(b),
        }
    }
}

} // verus!
