//! USB capture speeds and the control values that configure a Cynthion.

use vstd::prelude::*;
use vstd::arithmetic::power2::{lemma2_to64, lemma_pow2_strictly_increases, pow2};

verus! {

/// Capture speed of the Cynthion analyzer. Its numeric value selects the
/// speed bits of the capture-control byte and the bit of the speed mask.
#[derive(Clone, Copy, Debug, PartialEq, Eq, Structural)]
pub enum Speed {
    Auto,
    High,
    Full,
    Low,
}

impl Speed {
    /// The numeric value of the speed: Auto 0, High 1, Full 2, Low 3.
    pub open spec fn spec_value(self) -> u8 {
        match self {
            Speed::Auto => 0,
            Speed::High => 1,
            Speed::Full => 2,
            Speed::Low => 3,
        }
    }

    /// The numeric value of the speed.
    pub fn value(&self) -> (v: u8)
        ensures
            v == self.spec_value(),
            v < 4,
    {
        match self {
            Speed::Auto => 0,
            Speed::High => 1,
            Speed::Full => 2,
            Speed::Low => 3,
        }
    }

    /// The speed's name as the user sees it.
    pub open spec fn spec_name(self) -> Seq<char> {
        match self {
            Speed::Auto => "Auto"@,
            Speed::High => "High"@,
            Speed::Full => "Full"@,
            Speed::Low => "Low"@,
        }
    }

    /// The speed's name: "Auto", "High", "Full" or "Low".
    pub fn name(&self) -> (s: &'static str)
        ensures
            s@ == self.spec_name(),
    {
        match self {
            Speed::Auto => "Auto",
            Speed::High => "High",
            Speed::Full => "Full",
            Speed::Low => "Low",
        }
    }

    /// The one-bit mask of this speed: bit `value` set, every other bit clear.
    pub fn mask(&self) -> (m: u8)
        ensures
            m == 1u8 << self.spec_value(),
            m == (if self.spec_value() == 0 { 1u8 } else if self.spec_value() == 1 { 2u8 }
                  else if self.spec_value() == 2 { 4u8 } else { 8u8 }),
    {
        let v = self.value();
        assert(v < 4 ==> (1u8 << v) == (if v == 0 { 1u8 } else if v == 1 { 2u8 }
            else if v == 2 { 4u8 } else { 8u8 })) by (bit_vector);
        1u8 << v
    }
}

/// Capture-control byte: bit 0 enables capture, bits 1..2 hold the speed.
pub struct State(pub u8);

impl State {
    /// The capture-control byte for enabling or disabling capture at `speed`.
    pub fn new(enable: bool, speed: Speed) -> (s: State)
        ensures
            s.0 == (if enable { 1int } else { 0int }) + 2 * speed.spec_value(),
    {
        let mut value = 0u8;
        if enable {
            value = value | 0x01;
        }
        let v = speed.value();
        assert(v < 4 ==> (0u8 | (v << 1u8)) == 2 * v && (1u8 | (v << 1u8)) == 1 + 2 * v) by (bit_vector);
        assert((0u8 | 0x01u8) == 1u8) by (bit_vector);
        value = value | (v << 1);
        State(value)
    }

    /// Whether the byte enables capture (bit 0).
    pub open spec fn spec_enabled(self) -> bool {
        self.0 % 2 == 1
    }

    /// The speed value the byte selects (bits 1..2).
    pub open spec fn spec_speed_value(self) -> int {
        (self.0 as int / 2) % 4
    }
}

/// Test-device configuration byte: bit 0 connects the built-in test device,
/// bits 1..2 hold its speed.
pub struct TestConfig(pub u8);

impl TestConfig {
    /// The test-device configuration for `speed`; `None` leaves the test
    /// device disconnected.
    pub fn new(speed: Option<Speed>) -> (c: TestConfig)
        ensures
            c.0 == match speed {
                Some(s) => 1 + 2 * s.spec_value(),
                None => 0int,
            },
    {
        let mut value = 0u8;
        match speed {
            Some(s) => {
                value = value | 0x01;
                let v = s.value();
                assert(v < 4 ==> (1u8 | (v << 1u8)) == 1 + 2 * v) by (bit_vector);
                assert((0u8 | 0x01u8) == 1u8) by (bit_vector);
                value = value | (v << 1);
            },
            None => {},
        }
        TestConfig(value)
    }
}

/// Speeds announced by the one-byte answer to a speed query: bit 0 Auto,
/// bit 1 High, bit 2 Full, bit 3 Low, in that order.
pub open spec fn spec_speeds_from_bits(b: u8) -> Seq<Speed> {
    let auto: Seq<Speed> = if b as int % 2 == 1 { seq![Speed::Auto] } else { Seq::empty() };
    let high: Seq<Speed> = if (b as int / 2) % 2 == 1 { seq![Speed::High] } else { Seq::empty() };
    let full: Seq<Speed> = if (b as int / 4) % 2 == 1 { seq![Speed::Full] } else { Seq::empty() };
    let low: Seq<Speed> = if (b as int / 8) % 2 == 1 { seq![Speed::Low] } else { Seq::empty() };
    auto + high + full + low
}

/// Why an answer to a speed query could not be read.
#[derive(Clone, Copy, Debug, PartialEq, Eq, Structural)]
pub enum SpeedQueryError {
    /// The answer was not exactly one byte long; the length it had.
    UnexpectedLength(usize),
}

/// Reads the speeds a Cynthion supports from its answer to a speed query,
/// which must be exactly one byte.
pub fn speeds_from_response(response: &[u8]) -> (r: Result<Vec<Speed>, SpeedQueryError>)
    ensures
        response@.len() != 1 <==> r == Err::<Vec<Speed>, SpeedQueryError>(SpeedQueryError::UnexpectedLength(response@.len() as usize)),
        r matches Ok(v) ==> v@ == spec_speeds_from_bits(response@[0]),
{
    if response.len() != 1 {
        return Err(SpeedQueryError::UnexpectedLength(response.len()));
    }
    let b = response[0];
    assert((b & 0x01 != 0) == (b % 2 == 1)) by (bit_vector);
    assert((b & 0x02 != 0) == ((b / 2) % 2 == 1)) by (bit_vector);
    assert((b & 0x04 != 0) == ((b / 4) % 2 == 1)) by (bit_vector);
    assert((b & 0x08 != 0) == ((b / 8) % 2 == 1)) by (bit_vector);
    let mut speeds: Vec<Speed> = Vec::new();
    if b & 0x01 != 0 {
        speeds.push(Speed::Auto);
    }
    if b & 0x02 != 0 {
        speeds.push(Speed::High);
    }
    if b & 0x04 != 0 {
        speeds.push(Speed::Full);
    }
    if b & 0x08 != 0 {
        speeds.push(Speed::Low);
    }
    assert(speeds@ =~= spec_speeds_from_bits(b));
    Ok(speeds)
}

/// Whether a list of speeds holds `s`.
pub fn contains_speed(speeds: &[Speed], s: Speed) -> (b: bool)
    ensures
        b == speeds@.contains(s),
{
    let mut i: usize = 0;
    while i < speeds.len()
        invariant
            i <= speeds@.len(),
            forall|j: int| 0 <= j < i ==> speeds@[j] != s,
        decreases speeds@.len() - i,
    {
        if speeds[i] == s {
            assert(speeds@[i as int] == s);
            return true;
        }
        i += 1;
    }
    false
}

/// The speed to configure for capture given the speeds a device supports:
/// High if supported, else Auto, else Full, else High.
pub open spec fn spec_best_speed(speeds: Seq<Speed>) -> Speed {
    if speeds.contains(Speed::High) {
        Speed::High
    } else if speeds.contains(Speed::Auto) {
        Speed::Auto
    } else if speeds.contains(Speed::Full) {
        Speed::Full
    } else {
        Speed::High
    }
}

/// The speed to configure for capture given the speeds a device supports.
pub fn select_best_speed(speeds: &[Speed]) -> (s: Speed)
    ensures
        s == spec_best_speed(speeds@),
{
    if contains_speed(speeds, Speed::High) {
        Speed::High
    } else if contains_speed(speeds, Speed::Auto) {
        Speed::Auto
    } else if contains_speed(speeds, Speed::Full) {
        Speed::Full
    } else {
        Speed::High
    }
}

/// Speeds assumed when the speed query fails: Auto and High if the device
/// still answers the fallback query, only High otherwise.
pub fn fallback_supported_speeds(fallback_query_ok: bool) -> (v: Vec<Speed>)
    ensures
        v@ == (if fallback_query_ok { seq![Speed::Auto, Speed::High] } else { seq![Speed::High] }),
{
    let mut v: Vec<Speed> = Vec::new();
    if fallback_query_ok {
        v.push(Speed::Auto);
    }
    v.push(Speed::High);
    assert(v@ =~= (if fallback_query_ok { seq![Speed::Auto, Speed::High] } else { seq![Speed::High] }));
    v
}

/// The speeds tried, in order, when starting capture at `speed`: the chosen
/// speed first, then Auto and High unless already tried, then Full when the
/// chosen speed is Low.
pub open spec fn spec_capture_speed_candidates(speed: Speed) -> Seq<Speed> {
    let a = seq![speed];
    let b = if speed != Speed::Auto { a.push(Speed::Auto) } else { a };
    let c = if speed != Speed::High { b.push(Speed::High) } else { b };
    if speed != Speed::Full && speed != Speed::Auto && speed != Speed::High { c.push(Speed::Full) } else { c }
}

/// The speeds tried, in order, when starting capture at `speed`.
pub fn capture_speed_candidates(speed: Speed) -> (v: Vec<Speed>)
    ensures
        v@ == spec_capture_speed_candidates(speed),
{
    let mut v: Vec<Speed> = Vec::new();
    v.push(speed);
    if speed != Speed::Auto {
        v.push(Speed::Auto);
    }
    if speed != Speed::High {
        v.push(Speed::High);
    }
    if speed != Speed::Full && speed != Speed::Auto && speed != Speed::High {
        v.push(Speed::Full);
    }
    v
}

/// The speeds tried, in order, when configuring `best` failed: Auto, High
/// and Full, leaving out `best`.
pub open spec fn spec_alternative_speeds(best: Speed) -> Seq<Speed> {
    seq![Speed::Auto, Speed::High, Speed::Full].filter(|s: Speed| s != best)
}

/// The speeds tried, in order, when configuring `best` failed.
pub fn alternative_speeds(best: Speed) -> (v: Vec<Speed>)
    ensures
        v@ == spec_alternative_speeds(best),
{
    let mut v: Vec<Speed> = Vec::new();
    if best != Speed::Auto {
        v.push(Speed::Auto);
    }
    if best != Speed::High {
        v.push(Speed::High);
    }
    if best != Speed::Full {
        v.push(Speed::Full);
    }
    proof {
        let all = seq![Speed::Auto, Speed::High, Speed::Full];
        let f = |s: Speed| s != best;
        reveal_with_fuel(Seq::<_>::filter, 4);
        assert(all.drop_last().drop_last().drop_last() =~= Seq::<Speed>::empty());
        assert(all.drop_last().drop_last() =~= seq![Speed::Auto]);
        assert(all.drop_last() =~= seq![Speed::Auto, Speed::High]);
        assert(v@ =~= all.filter(f));
    }
    v
}

/// Milliseconds to wait before capture attempt `attempt + 1`: 400 ms doubled
/// for each earlier attempt, at most 3000 ms.
pub open spec fn spec_capture_backoff_ms(attempt: nat) -> int {
    let d: int = 400 * (pow2((attempt - 1) as nat) as int);
    if d < 3000 { d } else { 3000 }
}

/// Milliseconds to wait after failed capture attempt `attempt` (counted from 1).
pub fn capture_backoff_ms(attempt: u32) -> (ms: u64)
    requires
        attempt >= 1,
    ensures
        ms == spec_capture_backoff_ms(attempt as nat),
{
    proof {
        lemma2_to64();
        if attempt > 4 {
            lemma_pow2_strictly_increases(3, (attempt - 1) as nat);
        }
    }
    match attempt {
        1 => 400,
        2 => 800,
        3 => 1600,
        _ => 3000,
    }
}

/// Milliseconds to let the device settle after the reset before retry `attempt`.
pub fn reset_settle_ms(attempt: u32) -> (ms: u64)
    ensures
        ms == 500 * attempt,
{
    500 * attempt as u64
}

} // verus!
