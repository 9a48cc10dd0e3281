//! The emergency-brake supervisor of the relay's main loop.
//!
//! Each loop step the relay reads telemetry, collects finished brake and
//! release tasks, and every tenth step runs a safety check. The supervisor
//! holds the decisions: when to request the brake, when the hysteresis streak
//! of real all-clear readings allows releasing it, and what follows a finished
//! brake or release task. The relay performs the requested work and reports
//! the outcome back.

use vstd::prelude::*;
use crate::gpu::SafetyStatus;

verus! {

/// Consecutive real all-clear readings needed before the brake is released.
pub const RELEASE_STREAK: u32 = 3;

/// The periodic safety check runs on every step whose number is a multiple of this.
pub const SAFETY_CHECK_PERIOD: u64 = 10;

/// State of the brake supervisor.
#[derive(Debug, Clone, Copy, PartialEq, Eq, Structural)]
pub struct BrakeSupervisor {
    /// Steps begun so far.
    pub step_count: u64,
    /// Whether the GPU power limit is currently throttled by the brake.
    pub brake_applied: bool,
    /// Consecutive real all-clear readings seen while braked.
    pub ok_count_after_brake: u32,
    /// Whether the "brake held on simulated telemetry" notice was already given.
    pub warned_brake_held_sim: bool,
    /// Whether a brake task has been requested and not yet reported finished.
    pub brake_in_flight: bool,
    /// Whether a release task has been requested and not yet reported finished.
    pub release_in_flight: bool,
    /// Whether the streak was already updated in the current step.
    pub streak_counted_this_step: bool,
}

/// How a brake or release task ended.
#[derive(Debug, Clone, PartialEq, Eq)]
pub enum TaskOutcome {
    /// The task succeeded; carries the safety verdict on telemetry read right
    /// after it and whether that telemetry was simulated.
    Succeeded { post: SafetyStatus, post_simulated: bool },
    /// The task reported an error or did not complete.
    Failed,
}

/// What the relay does after a periodic safety check.
#[derive(Debug, Clone, Copy, PartialEq, Eq, Structural)]
pub enum CheckAction {
    /// Critical reading: report it, and start the brake when `request_brake`.
    Critical { request_brake: bool },
    /// Warning reading: report it.
    Warn,
    /// Braked while telemetry is simulated: the brake is held; report it when
    /// `first_notice`.
    HoldOnSimulated { first_notice: bool },
    /// A real all-clear reading while braked was counted; start the release
    /// when `request_release`.
    Counted { request_release: bool },
    /// Nothing to do.
    Idle,
}

/// What the relay does after a release task finished.
#[derive(Debug, Clone, Copy, PartialEq, Eq, Structural)]
pub enum ReleaseFollowUp {
    /// The reading after the release is critical: report it, and start the
    /// brake again when `request_brake`.
    Reapply { request_brake: bool },
    /// The brake was released but the reading after it is simulated: report it.
    ReleasedOnSimulated,
    /// Nothing more to do.
    Nothing,
}

/// Whether a safety verdict is the all-clear.
pub open spec fn is_nominal(status: SafetyStatus) -> bool {
    status is Nominal
}

/// The state after `begin_step`, and whether the step runs a safety check.
pub open spec fn after_begin_step(s: BrakeSupervisor) -> (BrakeSupervisor, bool) {
    let n = (s.step_count + 1) as u64;
    (BrakeSupervisor { step_count: n, streak_counted_this_step: false, ..s }, n % 10 == 0)
}

/// The state after a brake task finished with `outcome`, and whether a
/// release is requested.
pub open spec fn after_brake_finished(s: BrakeSupervisor, outcome: TaskOutcome) -> (BrakeSupervisor, bool) {
    match outcome {
        TaskOutcome::Succeeded { post, post_simulated } => {
            let real_ok = is_nominal(post) && !post_simulated;
            let ok = if real_ok {
                if s.ok_count_after_brake == u32::MAX { u32::MAX } else { (s.ok_count_after_brake + 1) as u32 }
            } else {
                0u32
            };
            let release = real_ok && ok >= 3 && !s.release_in_flight;
            (
                BrakeSupervisor {
                    brake_applied: true,
                    brake_in_flight: false,
                    ok_count_after_brake: ok,
                    streak_counted_this_step: true,
                    release_in_flight: s.release_in_flight || release,
                    ..s
                },
                release,
            )
        },
        TaskOutcome::Failed => (BrakeSupervisor { brake_in_flight: false, ..s }, false),
    }
}

/// The state after a release task finished with `outcome`, and what follows.
pub open spec fn after_release_finished(s: BrakeSupervisor, outcome: TaskOutcome) -> (BrakeSupervisor, ReleaseFollowUp) {
    match outcome {
        TaskOutcome::Succeeded { post, post_simulated } => {
            let released = BrakeSupervisor {
                release_in_flight: false,
                ok_count_after_brake: 0,
                brake_applied: false,
                ..s
            };
            match post {
                SafetyStatus::Critical(_) => {
                    let request = !s.brake_in_flight;
                    (
                        BrakeSupervisor { brake_in_flight: s.brake_in_flight || request, ..released },
                        ReleaseFollowUp::Reapply { request_brake: request },
                    )
                },
                SafetyStatus::Nominal => {
                    if post_simulated {
                        (released, ReleaseFollowUp::ReleasedOnSimulated)
                    } else {
                        (released, ReleaseFollowUp::Nothing)
                    }
                },
                SafetyStatus::Warn(_) => (released, ReleaseFollowUp::Nothing),
            }
        },
        TaskOutcome::Failed => (
            BrakeSupervisor { release_in_flight: false, ok_count_after_brake: 0, ..s },
            ReleaseFollowUp::Nothing,
        ),
    }
}

/// Whether a periodic check with this reading adds one to the streak.
pub open spec fn check_counts(s: BrakeSupervisor, status: SafetyStatus, simulated: bool) -> bool {
    is_nominal(status) && s.brake_applied && !simulated && !s.streak_counted_this_step
}

/// The state after a periodic safety check, and what the relay does.
pub open spec fn after_check(s: BrakeSupervisor, status: SafetyStatus, simulated: bool) -> (BrakeSupervisor, CheckAction) {
    match status {
        SafetyStatus::Critical(_) => {
            let request = !s.brake_applied && !s.brake_in_flight;
            (
                BrakeSupervisor {
                    ok_count_after_brake: 0,
                    brake_in_flight: s.brake_in_flight || request,
                    ..s
                },
                CheckAction::Critical { request_brake: request },
            )
        },
        SafetyStatus::Warn(_) => (BrakeSupervisor { ok_count_after_brake: 0, ..s }, CheckAction::Warn),
        SafetyStatus::Nominal => {
            if !s.brake_applied {
                (s, CheckAction::Idle)
            } else if simulated {
                (
                    BrakeSupervisor { ok_count_after_brake: 0, warned_brake_held_sim: true, ..s },
                    CheckAction::HoldOnSimulated { first_notice: !s.warned_brake_held_sim },
                )
            } else if !s.streak_counted_this_step {
                let ok = (s.ok_count_after_brake + 1) as u32;
                let release = ok >= 3 && !s.release_in_flight;
                (
                    BrakeSupervisor {
                        warned_brake_held_sim: false,
                        ok_count_after_brake: ok,
                        release_in_flight: s.release_in_flight || release,
                        ..s
                    },
                    CheckAction::Counted { request_release: release },
                )
            } else {
                (s, CheckAction::Idle)
            }
        },
    }
}

impl BrakeSupervisor {
    /// Consistency of the supervisor's state: a brake in flight means none is
    /// applied, a release in flight means one is, and a streak is only kept
    /// while braked.
    pub open spec fn wf(self) -> bool {
        &&& self.brake_in_flight ==> !self.brake_applied
        &&& self.release_in_flight ==> self.brake_applied
        &&& self.ok_count_after_brake > 0 ==> self.brake_applied
    }

    /// A supervisor at start-up: nothing applied, nothing in flight.
    pub fn new() -> (s: Self)
        ensures
            s.wf(),
            s.step_count == 0,
            !s.brake_applied,
            s.ok_count_after_brake == 0,
            !s.warned_brake_held_sim,
            !s.brake_in_flight,
            !s.release_in_flight,
            !s.streak_counted_this_step,
    {
        BrakeSupervisor {
            step_count: 0,
            brake_applied: false,
            ok_count_after_brake: 0,
            warned_brake_held_sim: false,
            brake_in_flight: false,
            release_in_flight: false,
            streak_counted_this_step: false,
        }
    }

    /// A supervisor at start-up when the GPU is found still throttled by an
    /// earlier run's brake: the brake counts as applied, so the usual streak
    /// of real all-clear readings releases it; nothing is in flight.
    pub fn resumed_braked() -> (s: Self)
        ensures
            s.wf(),
            s.step_count == 0,
            s.brake_applied,
            s.ok_count_after_brake == 0,
            !s.warned_brake_held_sim,
            !s.brake_in_flight,
            !s.release_in_flight,
            !s.streak_counted_this_step,
    {
        BrakeSupervisor {
            step_count: 0,
            brake_applied: true,
            ok_count_after_brake: 0,
            warned_brake_held_sim: false,
            brake_in_flight: false,
            release_in_flight: false,
            streak_counted_this_step: false,
        }
    }

    /// Starts a loop step; returns whether this step runs the safety check.
    pub fn begin_step(&mut self) -> (check_due: bool)
        requires
            old(self).step_count < u64::MAX,
        ensures
            (*final(self), check_due) == after_begin_step(*old(self)),
            old(self).wf() ==> final(self).wf(),
    {
        self.step_count = self.step_count + 1;
        self.streak_counted_this_step = false;
        self.step_count % SAFETY_CHECK_PERIOD == 0
    }

    /// Takes the outcome of the brake task in flight; returns whether a
    /// release is to be started.
    pub fn brake_finished(&mut self, outcome: &TaskOutcome) -> (request_release: bool)
        requires
            old(self).wf(),
            old(self).brake_in_flight,
        ensures
            (*final(self), request_release) == after_brake_finished(*old(self), *outcome),
            final(self).wf(),
            !final(self).brake_in_flight,
            outcome is Succeeded ==> final(self).brake_applied,
            outcome is Failed ==> !final(self).brake_applied,
            !request_release,
    {
        self.brake_in_flight = false;
        match outcome {
            TaskOutcome::Succeeded { post, post_simulated } => {
                self.brake_applied = true;
                let real_ok = match post {
                    SafetyStatus::Nominal => !*post_simulated,
                    _ => false,
                };
                let mut release = false;
                if real_ok {
                    self.ok_count_after_brake = self.ok_count_after_brake.saturating_add(1);
                    if self.ok_count_after_brake >= RELEASE_STREAK && !self.release_in_flight {
                        self.release_in_flight = true;
                        release = true;
                    }
                } else {
                    self.ok_count_after_brake = 0;
                }
                self.streak_counted_this_step = true;
                release
            },
            TaskOutcome::Failed => false,
        }
    }

    /// Takes the outcome of the release task in flight; returns what follows.
    pub fn release_finished(&mut self, outcome: &TaskOutcome) -> (follow_up: ReleaseFollowUp)
        requires
            old(self).wf(),
            old(self).release_in_flight,
        ensures
            (*final(self), follow_up) == after_release_finished(*old(self), *outcome),
            final(self).wf(),
            !final(self).release_in_flight,
            final(self).ok_count_after_brake == 0,
            outcome is Succeeded ==> !final(self).brake_applied,
            outcome is Failed ==> final(self).brake_applied,
            (follow_up is Reapply) <==> (outcome matches TaskOutcome::Succeeded { post, .. } && post is Critical),
            final(self).brake_in_flight <==> (follow_up is Reapply),
    {
        self.release_in_flight = false;
        self.ok_count_after_brake = 0;
        match outcome {
            TaskOutcome::Succeeded { post, post_simulated } => {
                self.brake_applied = false;
                match post {
                    SafetyStatus::Critical(_) => {
                        let request = !self.brake_in_flight;
                        if request {
                            self.brake_in_flight = true;
                        }
                        ReleaseFollowUp::Reapply { request_brake: request }
                    },
                    SafetyStatus::Nominal => {
                        if *post_simulated {
                            ReleaseFollowUp::ReleasedOnSimulated
                        } else {
                            ReleaseFollowUp::Nothing
                        }
                    },
                    SafetyStatus::Warn(_) => ReleaseFollowUp::Nothing,
                }
            },
            TaskOutcome::Failed => ReleaseFollowUp::Nothing,
        }
    }

    /// Runs the periodic safety check on the verdict `status` of this step's
    /// telemetry, `simulated` telling whether that telemetry was simulated.
    pub fn safety_check(&mut self, status: &SafetyStatus, simulated: bool) -> (action: CheckAction)
        requires
            old(self).wf(),
            check_counts(*old(self), *status, simulated) ==> old(self).ok_count_after_brake < u32::MAX,
        ensures
            (*final(self), action) == after_check(*old(self), *status, simulated),
            final(self).wf(),
    {
        match status {
            SafetyStatus::Critical(_) => {
                self.ok_count_after_brake = 0;
                let request = !self.brake_applied && !self.brake_in_flight;
                if request {
                    self.brake_in_flight = true;
                }
                CheckAction::Critical { request_brake: request }
            },
            SafetyStatus::Warn(_) => {
                self.ok_count_after_brake = 0;
                CheckAction::Warn
            },
            SafetyStatus::Nominal => {
                if !self.brake_applied {
                    CheckAction::Idle
                } else if simulated {
                    self.ok_count_after_brake = 0;
                    let first_notice = !self.warned_brake_held_sim;
                    self.warned_brake_held_sim = true;
                    CheckAction::HoldOnSimulated { first_notice }
                } else if !self.streak_counted_this_step {
                    self.warned_brake_held_sim = false;
                    self.ok_count_after_brake = self.ok_count_after_brake + 1;
                    let release = self.ok_count_after_brake >= RELEASE_STREAK && !self.release_in_flight;
                    if release {
                        self.release_in_flight = true;
                    }
                    CheckAction::Counted { request_release: release }
                } else {
                    CheckAction::Idle
                }
            },
        }
    }
}

/// Every transition of the supervisor keeps its state consistent: a brake in
/// flight means none is applied, a release in flight means one is applied, and
/// a streak of all-clear readings is only kept while braked.
pub proof fn lemma_transitions_keep_consistency(
    s: BrakeSupervisor,
    outcome: TaskOutcome,
    status: SafetyStatus,
    simulated: bool,
)
    requires
        s.wf(),
    ensures
        after_begin_step(s).0.wf(),
        s.brake_in_flight ==> after_brake_finished(s, outcome).0.wf(),
        s.release_in_flight ==> after_release_finished(s, outcome).0.wf(),
        after_check(s, status, simulated).0.wf(),
{
}

/// A release is only requested while the brake is applied, no release is in
/// flight, and after at least three consecutive real all-clear readings; the
/// completion of a brake task never requests one by itself.
pub proof fn lemma_release_needs_streak(
    s: BrakeSupervisor,
    outcome: TaskOutcome,
    status: SafetyStatus,
    simulated: bool,
)
    requires
        s.wf(),
    ensures
        after_check(s, status, simulated).1 == (CheckAction::Counted { request_release: true }) ==> {
            &&& is_nominal(status)
            &&& !simulated
            &&& s.brake_applied
            &&& !s.release_in_flight
            &&& after_check(s, status, simulated).0.ok_count_after_brake >= 3
        },
        s.brake_in_flight ==> !after_brake_finished(s, outcome).1,
{
}

/// A brake is requested only when none is applied and none is in flight, and a
/// critical reading in that situation always requests one; after a release, a
/// critical reading requests the brake again.
pub proof fn lemma_brake_requests(
    s: BrakeSupervisor,
    outcome: TaskOutcome,
    status: SafetyStatus,
    simulated: bool,
)
    requires
        s.wf(),
    ensures
        after_check(s, status, simulated).1 == (CheckAction::Critical { request_brake: true })
            <==> (status is Critical && !s.brake_applied && !s.brake_in_flight),
        s.release_in_flight ==> (outcome matches TaskOutcome::Succeeded { post, .. } && post is Critical
            ==> after_release_finished(s, outcome).1 == (ReleaseFollowUp::Reapply { request_brake: true })),
{
}

/// A warning or critical reading resets the all-clear streak, and so does an
/// all-clear reading on simulated telemetry while braked; neither requests a
/// release.
pub proof fn lemma_adverse_or_simulated_resets_streak(
    s: BrakeSupervisor,
    status: SafetyStatus,
    simulated: bool,
)
    requires
        s.wf(),
        !is_nominal(status) || (s.brake_applied && simulated),
    ensures
        after_check(s, status, simulated).0.ok_count_after_brake == 0,
        after_check(s, status, simulated).0.release_in_flight == s.release_in_flight,
        after_check(s, status, simulated).0.brake_applied == s.brake_applied,
{
}

/// A finished brake task that succeeded leaves the brake recorded as applied
/// whatever the reading taken right after it; one that failed leaves it
/// unapplied. Either way no brake is in flight any more and no release is
/// requested, since the streak starts from zero.
pub proof fn lemma_brake_outcome_recorded(s: BrakeSupervisor, outcome: TaskOutcome)
    requires
        s.wf(),
        s.brake_in_flight,
    ensures
        outcome is Succeeded ==> after_brake_finished(s, outcome).0.brake_applied,
        outcome is Failed ==> !after_brake_finished(s, outcome).0.brake_applied,
        !after_brake_finished(s, outcome).0.brake_in_flight,
        !after_brake_finished(s, outcome).1,
        after_brake_finished(s, outcome).0.ok_count_after_brake <= 1,
{
}

/// After a release task finished, the brake is requested again exactly when
/// the release succeeded and the reading right after it is critical; a
/// warning or all-clear after a successful release starts no brake, and a
/// successful release always leaves the brake unapplied with no streak.
pub proof fn lemma_release_outcome(s: BrakeSupervisor, outcome: TaskOutcome)
    requires
        s.wf(),
        s.release_in_flight,
    ensures
        (after_release_finished(s, outcome).1 is Reapply) <==> (outcome matches TaskOutcome::Succeeded {
            post,
            ..
        } && post is Critical),
        after_release_finished(s, outcome).0.brake_in_flight <==> (after_release_finished(s, outcome).1 is Reapply),
        outcome is Succeeded ==> !after_release_finished(s, outcome).0.brake_applied,
        outcome is Failed ==> after_release_finished(s, outcome).0.brake_applied,
        !after_release_finished(s, outcome).0.release_in_flight,
        after_release_finished(s, outcome).0.ok_count_after_brake == 0,
{
}

/// Hysteresis: from a braked state with no streak and no release in flight,
/// three periodic checks with real all-clear readings, each in its own step,
/// request the release on the third check and not before.
pub proof fn lemma_three_all_clears_release(s: BrakeSupervisor)
    requires
        s.wf(),
        s.brake_applied,
        !s.release_in_flight,
        s.ok_count_after_brake == 0,
        !s.streak_counted_this_step,
        s.step_count + 2 < u64::MAX,
    ensures
        ({
            let c1 = after_check(s, SafetyStatus::Nominal, false);
            let c2 = after_check(after_begin_step(c1.0).0, SafetyStatus::Nominal, false);
            let c3 = after_check(after_begin_step(c2.0).0, SafetyStatus::Nominal, false);
            &&& c1.1 == (CheckAction::Counted { request_release: false })
            &&& c2.1 == (CheckAction::Counted { request_release: false })
            &&& c3.1 == (CheckAction::Counted { request_release: true })
            &&& c3.0.release_in_flight
            &&& c3.0.brake_applied
        }),
{
}

/// While braked on simulated telemetry, the notice that the brake is held is
/// given by the first such check only.
pub proof fn lemma_simulated_hold_notice_once(s: BrakeSupervisor)
    requires
        s.wf(),
        s.brake_applied,
    ensures
        ({
            let c1 = after_check(s, SafetyStatus::Nominal, true);
            let c2 = after_check(c1.0, SafetyStatus::Nominal, true);
            &&& c1.1 == (CheckAction::HoldOnSimulated { first_notice: !s.warned_brake_held_sim })
            &&& c2.1 == (CheckAction::HoldOnSimulated { first_notice: false })
        }),
{
}

/// The safety check runs exactly on the steps whose number is a multiple of ten.
pub proof fn lemma_check_cadence(s: BrakeSupervisor)
    requires
        s.step_count < u64::MAX,
    ensures
        after_begin_step(s).1 <==> (s.step_count + 1) % 10 == 0,
        after_begin_step(s).0.step_count == s.step_count + 1,
{
}

} // verus!
