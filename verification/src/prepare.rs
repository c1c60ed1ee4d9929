//! The sequence that prepares a Cynthion for capture and starts its
//! transfer queue when traffic is first read: stop any capture, read the
//! supported speeds, reset, enable device detection and monitoring,
//! configure the best speed, then start capture at High, Auto or Full
//! speed. Each request has a fallback that is sent when it fails.
//!
//! The I/O layer runs a [`QueueStarter`]: it performs each action and
//! reports how it went on the next call.

use vstd::prelude::*;
use crate::speed::{
    alternative_speeds, fallback_supported_speeds, select_best_speed, spec_alternative_speeds, spec_best_speed,
    Speed, State, TestConfig,
};

verus! {

/// One step of preparing the device and starting its queue.
#[derive(Clone, Copy, Debug, PartialEq, Eq, Structural)]
pub enum PrepAction {
    /// Send vendor request `request` with `value`.
    Write { request: u8, value: u8 },
    /// Wait this many milliseconds.
    Sleep(u64),
    /// Ask the device for the speeds it supports.
    QuerySpeeds,
    /// Create the transfer queue.
    CreateQueue,
    /// Start processing transfers in the background.
    StartProcessing,
    /// Done: capture runs (`true`) or no speed started it.
    Finish(bool),
}

/// How the last action went.
pub enum StepOutcome {
    /// It completed (a write was accepted, a wait passed).
    Done,
    /// A write or the speed query failed.
    Failed,
    /// The speed query answered with these speeds.
    Speeds(Vec<Speed>),
}

/// Model of an outcome.
pub enum OutcomeModel {
    Done,
    Failed,
    Speeds(Seq<Speed>),
}

impl View for StepOutcome {
    type V = OutcomeModel;

    open spec fn view(&self) -> OutcomeModel {
        match self {
            StepOutcome::Done => OutcomeModel::Done,
            StepOutcome::Failed => OutcomeModel::Failed,
            StepOutcome::Speeds(v) => OutcomeModel::Speeds(v@),
        }
    }
}

/// Where the starter is. Phases named `…Check` look at how the last
/// request went.
#[derive(Clone, Copy, Debug, PartialEq, Eq, Structural)]
pub enum PrepPhase {
    Stop,
    StopCheck,
    StopWait,
    Query,
    QueryCheck,
    FallbackCheck,
    ResetPrepWait(Speed),
    Reset(Speed),
    ResetCheck(Speed),
    ResetWait(Speed),
    Detect(Speed),
    DetectCheck(Speed),
    DetectWait(Speed),
    Monitor(Speed),
    MonitorCheck(Speed),
    SpeedConfig(Speed),
    /// The speed configuration was sent with the best speed and then with
    /// the first `tried` alternatives.
    SpeedCheck(Speed, usize),
    CreateQueue,
    /// About to send the start request with start speed `i`.
    Try(usize),
    TryCheck(usize),
    Fail,
    Process,
    ProcessWait,
    Finished(bool),
}

/// The speeds capture is started with, in order.
pub open spec fn spec_start_speeds() -> Seq<Speed> {
    seq![Speed::High, Speed::Auto, Speed::Full]
}

/// The control byte that stops capture.
pub open spec fn spec_stop_byte() -> u8 {
    2
}

/// The control byte that starts capture at `s`.
pub open spec fn spec_start_byte(s: Speed) -> u8 {
    (1 + 2 * s.spec_value()) as u8
}

/// The speed-configuration byte for `s`.
pub open spec fn spec_config_byte(s: Speed) -> u8 {
    (1 + 2 * s.spec_value()) as u8
}

/// Whether an outcome is a failure.
pub open spec fn failed(o: OutcomeModel) -> bool {
    o is Failed
}

/// The action after the speed configuration was tried: the next alternative
/// speed after a failure, else a pause before creating the queue.
pub open spec fn spec_speed_check(best: Speed, tried: usize, o: OutcomeModel) -> (PrepPhase, PrepAction) {
    let alts = spec_alternative_speeds(best);
    if failed(o) && tried < alts.len() {
        (
            PrepPhase::SpeedCheck(best, (tried + 1) as usize),
            PrepAction::Write { request: 0x0A, value: spec_config_byte(alts[tried as int]) },
        )
    } else {
        (PrepPhase::CreateQueue, PrepAction::Sleep(200))
    }
}

/// One step: the next phase and the action to perform, given how the last
/// action went.
pub open spec fn spec_prep_next(p: PrepPhase, o: OutcomeModel) -> (PrepPhase, PrepAction) {
    match p {
        PrepPhase::Stop => (PrepPhase::StopCheck, PrepAction::Write { request: 1, value: spec_stop_byte() }),
        PrepPhase::StopCheck => if failed(o) {
            (PrepPhase::StopWait, PrepAction::Write { request: 1, value: 0 })
        } else {
            (PrepPhase::Query, PrepAction::Sleep(800))
        },
        PrepPhase::StopWait => (PrepPhase::Query, PrepAction::Sleep(800)),
        PrepPhase::Query => (PrepPhase::QueryCheck, PrepAction::QuerySpeeds),
        PrepPhase::QueryCheck => match o {
            OutcomeModel::Speeds(v) => (
                PrepPhase::ResetPrepWait(spec_best_speed(v)),
                PrepAction::Write { request: 4, value: 0 },
            ),
            _ => (PrepPhase::FallbackCheck, PrepAction::Write { request: 2, value: 0 }),
        },
        PrepPhase::FallbackCheck => {
            let speeds = if failed(o) { seq![Speed::High] } else { seq![Speed::Auto, Speed::High] };
            (PrepPhase::ResetPrepWait(spec_best_speed(speeds)), PrepAction::Write { request: 4, value: 0 })
        },
        PrepPhase::ResetPrepWait(b) => (PrepPhase::Reset(b), PrepAction::Sleep(200)),
        PrepPhase::Reset(b) => (PrepPhase::ResetCheck(b), PrepAction::Write { request: 0xFF, value: 0 }),
        PrepPhase::ResetCheck(b) => if failed(o) {
            (PrepPhase::ResetWait(b), PrepAction::Write { request: 0x0F, value: 1 })
        } else {
            (PrepPhase::Detect(b), PrepAction::Sleep(2500))
        },
        PrepPhase::ResetWait(b) => (PrepPhase::Detect(b), PrepAction::Sleep(2500)),
        PrepPhase::Detect(b) => (PrepPhase::DetectCheck(b), PrepAction::Write { request: 2, value: 3 }),
        PrepPhase::DetectCheck(b) => if failed(o) {
            (PrepPhase::DetectWait(b), PrepAction::Write { request: 2, value: 1 })
        } else {
            (PrepPhase::Monitor(b), PrepAction::Sleep(300))
        },
        PrepPhase::DetectWait(b) => (PrepPhase::Monitor(b), PrepAction::Sleep(300)),
        PrepPhase::Monitor(b) => (PrepPhase::MonitorCheck(b), PrepAction::Write { request: 3, value: 3 }),
        PrepPhase::MonitorCheck(b) => if failed(o) {
            (PrepPhase::SpeedConfig(b), PrepAction::Write { request: 3, value: 1 })
        } else {
            (PrepPhase::SpeedCheck(b, 0), PrepAction::Write { request: 0x0A, value: spec_config_byte(b) })
        },
        PrepPhase::SpeedConfig(b) => (PrepPhase::SpeedCheck(b, 0), PrepAction::Write { request: 0x0A, value: spec_config_byte(b) }),
        PrepPhase::SpeedCheck(b, tried) => spec_speed_check(b, tried, o),
        PrepPhase::CreateQueue => (PrepPhase::Try(0), PrepAction::CreateQueue),
        PrepPhase::Try(i) => (
            PrepPhase::TryCheck(i),
            PrepAction::Write { request: 1, value: spec_start_byte(spec_start_speeds()[i as int]) },
        ),
        PrepPhase::TryCheck(i) => if !failed(o) {
            (PrepPhase::Process, PrepAction::Sleep(500))
        } else if i + 1 < 3 {
            (PrepPhase::Try((i + 1) as usize), PrepAction::Sleep(300))
        } else {
            (PrepPhase::Fail, PrepAction::Sleep(300))
        },
        PrepPhase::Fail => (PrepPhase::Finished(false), PrepAction::Finish(false)),
        PrepPhase::Process => (PrepPhase::ProcessWait, PrepAction::StartProcessing),
        PrepPhase::ProcessWait => (PrepPhase::Finished(true), PrepAction::Sleep(500)),
        PrepPhase::Finished(b) => (p, PrepAction::Finish(b)),
    }
}

/// Whether a phase is one the starter can be in.
pub open spec fn spec_prep_valid(p: PrepPhase) -> bool {
    match p {
        PrepPhase::SpeedCheck(b, tried) => tried <= spec_alternative_speeds(b).len(),
        PrepPhase::Try(i) => i < 3,
        PrepPhase::TryCheck(i) => i < 3,
        _ => true,
    }
}

/// An upper bound on the steps left before the starter is finished.
pub open spec fn spec_prep_steps_left(p: PrepPhase) -> int {
    match p {
        PrepPhase::Stop => 60,
        PrepPhase::StopCheck => 59,
        PrepPhase::StopWait => 58,
        PrepPhase::Query => 57,
        PrepPhase::QueryCheck => 56,
        PrepPhase::FallbackCheck => 55,
        PrepPhase::ResetPrepWait(_) => 54,
        PrepPhase::Reset(_) => 53,
        PrepPhase::ResetCheck(_) => 52,
        PrepPhase::ResetWait(_) => 51,
        PrepPhase::Detect(_) => 50,
        PrepPhase::DetectCheck(_) => 49,
        PrepPhase::DetectWait(_) => 48,
        PrepPhase::Monitor(_) => 47,
        PrepPhase::MonitorCheck(_) => 46,
        PrepPhase::SpeedConfig(_) => 45,
        PrepPhase::SpeedCheck(_, tried) => 44 - tried,
        PrepPhase::CreateQueue => 20,
        PrepPhase::Try(i) => 19 - 3 * i,
        PrepPhase::TryCheck(i) => 18 - 3 * i,
        PrepPhase::Fail => 2,
        PrepPhase::Process => 3,
        PrepPhase::ProcessWait => 2,
        PrepPhase::Finished(_) => 0,
    }
}

/// Drives the requests that prepare the device and start its queue.
pub struct QueueStarter {
    phase: PrepPhase,
}

impl View for QueueStarter {
    type V = PrepPhase;

    closed spec fn view(&self) -> PrepPhase {
        self.phase
    }
}

fn stop_byte() -> (b: u8)
    ensures
        b == spec_stop_byte(),
{
    State::new(false, Speed::High).0
}

fn start_byte(s: Speed) -> (b: u8)
    ensures
        b == spec_start_byte(s),
{
    State::new(true, s).0
}

fn config_byte(s: Speed) -> (b: u8)
    ensures
        b == spec_config_byte(s),
{
    TestConfig::new(Some(s)).0
}

fn start_speed(i: usize) -> (s: Speed)
    requires
        i < 3,
    ensures
        s == spec_start_speeds()[i as int],
{
    if i == 0 {
        Speed::High
    } else if i == 1 {
        Speed::Auto
    } else {
        Speed::Full
    }
}

impl QueueStarter {
    /// A starter before its first step.
    pub fn new() -> (s: QueueStarter)
        ensures
            s@ == PrepPhase::Stop,
    {
        QueueStarter { phase: PrepPhase::Stop }
    }

    /// The next action, given how the last action went (the first call
    /// ignores it).
    pub fn next_action(&mut self, last: &StepOutcome) -> (a: PrepAction)
        requires
            spec_prep_valid(old(self)@),
        ensures
            spec_prep_valid(final(self)@),
            (final(self)@, a) == spec_prep_next(old(self)@, last@),
    {
        let is_failed = match last {
            StepOutcome::Failed => true,
            _ => false,
        };
        let (next, action) = match self.phase {
            PrepPhase::Stop => (PrepPhase::StopCheck, PrepAction::Write { request: 1, value: stop_byte() }),
            PrepPhase::StopCheck => if is_failed {
                (PrepPhase::StopWait, PrepAction::Write { request: 1, value: 0 })
            } else {
                (PrepPhase::Query, PrepAction::Sleep(800))
            },
            PrepPhase::StopWait => (PrepPhase::Query, PrepAction::Sleep(800)),
            PrepPhase::Query => (PrepPhase::QueryCheck, PrepAction::QuerySpeeds),
            PrepPhase::QueryCheck => match last {
                StepOutcome::Speeds(v) => (
                    PrepPhase::ResetPrepWait(select_best_speed(v.as_slice())),
                    PrepAction::Write { request: 4, value: 0 },
                ),
                _ => (PrepPhase::FallbackCheck, PrepAction::Write { request: 2, value: 0 }),
            },
            PrepPhase::FallbackCheck => {
                let speeds = fallback_supported_speeds(!is_failed);
                (PrepPhase::ResetPrepWait(select_best_speed(speeds.as_slice())), PrepAction::Write { request: 4, value: 0 })
            },
            PrepPhase::ResetPrepWait(b) => (PrepPhase::Reset(b), PrepAction::Sleep(200)),
            PrepPhase::Reset(b) => (PrepPhase::ResetCheck(b), PrepAction::Write { request: 0xFF, value: 0 }),
            PrepPhase::ResetCheck(b) => if is_failed {
                (PrepPhase::ResetWait(b), PrepAction::Write { request: 0x0F, value: 1 })
            } else {
                (PrepPhase::Detect(b), PrepAction::Sleep(2500))
            },
            PrepPhase::ResetWait(b) => (PrepPhase::Detect(b), PrepAction::Sleep(2500)),
            PrepPhase::Detect(b) => (PrepPhase::DetectCheck(b), PrepAction::Write { request: 2, value: 3 }),
            PrepPhase::DetectCheck(b) => if is_failed {
                (PrepPhase::DetectWait(b), PrepAction::Write { request: 2, value: 1 })
            } else {
                (PrepPhase::Monitor(b), PrepAction::Sleep(300))
            },
            PrepPhase::DetectWait(b) => (PrepPhase::Monitor(b), PrepAction::Sleep(300)),
            PrepPhase::Monitor(b) => (PrepPhase::MonitorCheck(b), PrepAction::Write { request: 3, value: 3 }),
            PrepPhase::MonitorCheck(b) => if is_failed {
                (PrepPhase::SpeedConfig(b), PrepAction::Write { request: 3, value: 1 })
            } else {
                (PrepPhase::SpeedCheck(b, 0), PrepAction::Write { request: 0x0A, value: config_byte(b) })
            },
            PrepPhase::SpeedConfig(b) => (PrepPhase::SpeedCheck(b, 0), PrepAction::Write {
                request: 0x0A,
                value: config_byte(b),
            }),
            PrepPhase::SpeedCheck(b, tried) => {
                let alts = alternative_speeds(b);
                if is_failed && tried < alts.len() {
                    (PrepPhase::SpeedCheck(b, tried + 1), PrepAction::Write { request: 0x0A, value: config_byte(alts[tried]) })
                } else {
                    (PrepPhase::CreateQueue, PrepAction::Sleep(200))
                }
            },
            PrepPhase::CreateQueue => (PrepPhase::Try(0), PrepAction::CreateQueue),
            PrepPhase::Try(i) => (PrepPhase::TryCheck(i), PrepAction::Write { request: 1, value: start_byte(start_speed(i)) }),
            PrepPhase::TryCheck(i) => if !is_failed {
                (PrepPhase::Process, PrepAction::Sleep(500))
            } else if i + 1 < 3 {
                (PrepPhase::Try(i + 1), PrepAction::Sleep(300))
            } else {
                (PrepPhase::Fail, PrepAction::Sleep(300))
            },
            PrepPhase::Fail => (PrepPhase::Finished(false), PrepAction::Finish(false)),
            PrepPhase::Process => (PrepPhase::ProcessWait, PrepAction::StartProcessing),
            PrepPhase::ProcessWait => (PrepPhase::Finished(true), PrepAction::Sleep(500)),
            PrepPhase::Finished(b) => (PrepPhase::Finished(b), PrepAction::Finish(b)),
        };
        self.phase = next;
        action
    }
}

} // verus!
