//! The integer side of the hardware bridge: safety verdicts and NVML power limits.

use vstd::prelude::*;

verus! {

/// Verdict of a safety check on GPU telemetry; the text explains the reading.
/// `Nominal` is the all-clear verdict.
#[derive(Debug, Clone, PartialEq, Eq)]
pub enum SafetyStatus {
    Nominal,
    Warn(String),
    Critical(String),
}

/// The comparisons a safety check makes on one telemetry reading; the
/// readings themselves are floating point and compared by the caller.
#[derive(Debug, Clone, Copy, PartialEq, Eq, Structural)]
pub struct ThresholdFlags {
    /// The temperature or the power reading is NaN or infinite.
    pub non_finite: bool,
    /// The GPU temperature is at most 0 °C.
    pub temp_at_most_zero: bool,
    /// The power draw is at most 25 W.
    pub power_at_most_idle: bool,
    /// The GPU temperature exceeds 85 °C.
    pub temp_critical: bool,
    /// The power draw exceeds 350 W.
    pub power_critical: bool,
    /// The GPU temperature exceeds 75 °C.
    pub temp_warn: bool,
    /// The power draw exceeds 300 W.
    pub power_warn: bool,
}

/// The outcome of a safety check and the reading that decided it.
#[derive(Debug, Clone, Copy, PartialEq, Eq, Structural)]
pub enum SafetyVerdict {
    /// A reading is not a finite number: critical.
    NonFinite,
    /// The simulated idle reading (0 °C, at most 25 W): no check applies.
    Simulated,
    /// Critical temperature.
    CriticalThermal,
    /// Critical power draw.
    CriticalPower,
    /// Temperature approaching the limit.
    WarnThermal,
    /// Power draw approaching the limit.
    WarnPower,
    /// Every reading within limits.
    Nominal,
}

/// The verdict on a reading: a non-finite reading is critical; otherwise the
/// simulated idle reading skips the checks; otherwise critical temperature,
/// then critical power, then warning temperature, then warning power.
pub open spec fn verdict_of(f: ThresholdFlags) -> SafetyVerdict {
    if f.non_finite {
        SafetyVerdict::NonFinite
    } else if f.temp_at_most_zero && f.power_at_most_idle {
        SafetyVerdict::Simulated
    } else if f.temp_critical {
        SafetyVerdict::CriticalThermal
    } else if f.power_critical {
        SafetyVerdict::CriticalPower
    } else if f.temp_warn {
        SafetyVerdict::WarnThermal
    } else if f.power_warn {
        SafetyVerdict::WarnPower
    } else {
        SafetyVerdict::Nominal
    }
}

/// Whether a verdict is critical.
pub open spec fn is_critical_verdict(v: SafetyVerdict) -> bool {
    v is NonFinite || v is CriticalThermal || v is CriticalPower
}

/// Whether a verdict is a warning.
pub open spec fn is_warn_verdict(v: SafetyVerdict) -> bool {
    v is WarnThermal || v is WarnPower
}

/// Decides the safety verdict from the comparisons made on a reading.
pub fn classify_safety(flags: &ThresholdFlags) -> (v: SafetyVerdict)
    ensures
        v == verdict_of(*flags),
{
    if flags.non_finite {
        SafetyVerdict::NonFinite
    } else if flags.temp_at_most_zero && flags.power_at_most_idle {
        SafetyVerdict::Simulated
    } else if flags.temp_critical {
        SafetyVerdict::CriticalThermal
    } else if flags.power_critical {
        SafetyVerdict::CriticalPower
    } else if flags.temp_warn {
        SafetyVerdict::WarnThermal
    } else if flags.power_warn {
        SafetyVerdict::WarnPower
    } else {
        SafetyVerdict::Nominal
    }
}

impl SafetyVerdict {
    /// The status the supervisor takes for this verdict, with `detail`
    /// explaining a warning or critical reading, and whether the reading was
    /// the simulated one.
    pub fn into_status(self, detail: String) -> (r: (SafetyStatus, bool))
        ensures
            r.1 == (self is Simulated),
            is_critical_verdict(self) ==> r.0 == SafetyStatus::Critical(detail),
            is_warn_verdict(self) ==> r.0 == SafetyStatus::Warn(detail),
            (self is Simulated || self is Nominal) ==> r.0 == SafetyStatus::Nominal,
    {
        match self {
            SafetyVerdict::NonFinite | SafetyVerdict::CriticalThermal | SafetyVerdict::CriticalPower => (
                SafetyStatus::Critical(detail),
                false,
            ),
            SafetyVerdict::WarnThermal | SafetyVerdict::WarnPower => (SafetyStatus::Warn(detail), false),
            SafetyVerdict::Simulated => (SafetyStatus::Nominal, true),
            SafetyVerdict::Nominal => (SafetyStatus::Nominal, false),
        }
    }
}

/// Precedence of the safety check: a non-finite reading is always critical;
/// the simulated idle reading is never flagged; otherwise any critical
/// threshold outranks any warning, temperature outranks power at the same
/// level, and the all-clear comes only when no threshold is crossed.
pub proof fn lemma_safety_precedence(f: ThresholdFlags)
    ensures
        f.non_finite ==> verdict_of(f) == SafetyVerdict::NonFinite,
        !f.non_finite && f.temp_at_most_zero && f.power_at_most_idle ==> verdict_of(f)
            == SafetyVerdict::Simulated,
        !f.non_finite && !(f.temp_at_most_zero && f.power_at_most_idle) ==> {
            &&& is_critical_verdict(verdict_of(f)) <==> (f.temp_critical || f.power_critical)
            &&& is_warn_verdict(verdict_of(f)) <==> (!f.temp_critical && !f.power_critical && (
            f.temp_warn || f.power_warn))
            &&& verdict_of(f) == SafetyVerdict::Nominal <==> !(f.temp_critical || f.power_critical
                || f.temp_warn || f.power_warn)
            &&& f.temp_critical ==> verdict_of(f) == SafetyVerdict::CriticalThermal
            &&& (f.temp_warn && !f.temp_critical && !f.power_critical) ==> verdict_of(f)
                == SafetyVerdict::WarnThermal
        },
{
}

/// How severe a verdict is: warnings rank above the all-clear and the
/// simulated idle verdict, critical verdicts above warnings.
pub open spec fn verdict_rank(v: SafetyVerdict) -> int {
    if is_critical_verdict(v) {
        2
    } else if is_warn_verdict(v) {
        1
    } else {
        0
    }
}

/// Monotonicity: of two finite readings where the second is at least as hot
/// and draws at least as much power as the first (so every threshold the
/// first crosses the second crosses too, and the second is only at or below
/// the idle marks where the first is), the second is never judged safer.
pub proof fn lemma_safety_monotone(f1: ThresholdFlags, f2: ThresholdFlags)
    requires
        !f1.non_finite,
        !f2.non_finite,
        f1.temp_critical ==> f2.temp_critical,
        f1.power_critical ==> f2.power_critical,
        f1.temp_warn ==> f2.temp_warn,
        f1.power_warn ==> f2.power_warn,
        f2.temp_at_most_zero ==> f1.temp_at_most_zero,
        f2.power_at_most_idle ==> f1.power_at_most_idle,
    ensures
        verdict_rank(verdict_of(f1)) <= verdict_rank(verdict_of(f2)),
{
}

/// Whether the GPU is still throttled to this relay's brake target: the
/// current limit is below the default and equals the target computed for it.
pub open spec fn is_leftover_brake(current_w: u32, default_w: u32, expected_w: u32) -> bool {
    current_w < default_w && current_w == expected_w
}

/// Decides whether the power limits found at start-up are a brake left over
/// from an earlier run: `current_w` and `default_w` are the current and default
/// limits, `expected_w` the brake target for that default.
pub fn matches_leftover_brake(current_w: u32, default_w: u32, expected_w: u32) -> (m: bool)
    ensures
        m == is_leftover_brake(current_w, default_w, expected_w),
        m ==> current_w == expected_w && current_w < default_w,
        current_w != expected_w ==> !m,
{
    current_w < default_w && current_w == expected_w
}

/// Only the relay's own brake target counts as a leftover brake: a limit that
/// differs from the target (such as an operator's own cap) never does, and
/// neither does a limit at or above the default.
pub proof fn lemma_leftover_brake_is_target(current_w: u32, default_w: u32, expected_w: u32)
    ensures
        is_leftover_brake(current_w, default_w, expected_w) ==> current_w == expected_w,
        is_leftover_brake(current_w, default_w, expected_w) ==> current_w < default_w,
        (current_w == expected_w && current_w < default_w) ==> is_leftover_brake(
            current_w,
            default_w,
            expected_w,
        ),
{
}

/// Whether the driver was found unresponsive at the last health probe; the
/// relay reports a hung driver once per run of failed probes.
#[derive(Debug, Clone, Copy, PartialEq, Eq, Structural)]
pub struct HealthLatch {
    pub was_unhealthy: bool,
}

/// The latch after a probe whose outcome is `healthy`, and whether the hung
/// driver is reported: on the first failed probe after a healthy one.
pub open spec fn after_probe(l: HealthLatch, healthy: bool) -> (HealthLatch, bool) {
    (HealthLatch { was_unhealthy: !healthy }, !healthy && !l.was_unhealthy)
}

impl HealthLatch {
    /// A latch before any probe: the driver counts as healthy.
    pub fn new() -> (l: Self)
        ensures
            !l.was_unhealthy,
    {
        HealthLatch { was_unhealthy: false }
    }

    /// Records a probe; returns whether the hung driver is to be reported now.
    pub fn observe(&mut self, healthy: bool) -> (report: bool)
        ensures
            (*final(self), report) == after_probe(*old(self), healthy),
    {
        let report = !healthy && !self.was_unhealthy;
        self.was_unhealthy = !healthy;
        report
    }
}

/// A hung driver is reported once per run of failed probes: a failed probe
/// right after another is not reported, a failed probe right after a healthy
/// one is, and a healthy probe is never reported.
pub proof fn lemma_hung_driver_reported_once(l: HealthLatch)
    ensures
        !after_probe(after_probe(l, false).0, false).1,
        after_probe(after_probe(l, true).0, false).1,
        !after_probe(l, true).1,
{
}

/// Power limit, in watts, assumed when NVML cannot report one.
pub const FALLBACK_POWER_LIMIT_W: u32 = 300;

/// Milliwatts in a watt: NVML reports power limits in milliwatts.
pub const MILLIWATTS_PER_WATT: u32 = 1000;

/// Whole watts of a power limit reported in milliwatts, if one was reported.
pub open spec fn limit_in_watts(limit_mw: Option<u32>) -> Option<u32> {
    match limit_mw {
        Some(mw) => Some((mw / 1000) as u32),
        None => None,
    }
}

/// Entry point for the GPU's power-limit bookkeeping.
pub struct HardwareBridge;

impl HardwareBridge {
    /// The GPU's current power management limit in watts, given the reading
    /// in milliwatts that NVML gave for it (`None` when NVML has none).
    pub fn query_power_limit_w(limit_mw: Option<u32>) -> (limit_w: Option<u32>)
        ensures
            limit_w == limit_in_watts(limit_mw),
    {
        match limit_mw {
            Some(mw) => Some(mw / MILLIWATTS_PER_WATT),
            None => None,
        }
    }

    /// The GPU's default power management limit in watts, given the reading
    /// in milliwatts that NVML gave for it (`None` when NVML has none).
    pub fn query_default_power_limit_w(default_mw: Option<u32>) -> (limit_w: Option<u32>)
        ensures
            limit_w == limit_in_watts(default_mw),
    {
        match default_mw {
            Some(mw) => Some(mw / MILLIWATTS_PER_WATT),
            None => None,
        }
    }

    /// The limit to work from: the reported one, or the fallback of 300 W.
    pub fn limit_or_fallback_w(limit_w: Option<u32>) -> (w: u32)
        ensures
            w == match limit_w {
                Some(l) => l,
                None => 300u32,
            },
    {
        match limit_w {
            Some(l) => l,
            None => FALLBACK_POWER_LIMIT_W,
        }
    }
}

} // verus!
