use thalamic_relay::cli::parse_nonzero_usize;
use thalamic_relay::gpu::{
    classify_safety, matches_leftover_brake, HardwareBridge, HealthLatch, SafetyStatus, SafetyVerdict,
    ThresholdFlags,
};
use thalamic_relay::ipc::{apply_stimuli, classify_datagram, datagram_text, RequestKind};
use thalamic_relay::lockfile::{next_lock_action, recorded_pid, LockAction, LockEvent};
use thalamic_relay::models::FaultClass;
use thalamic_relay::stats::StepStats;
use thalamic_relay::supervisor::{BrakeSupervisor, CheckAction, ReleaseFollowUp, TaskOutcome};

fn critical() -> SafetyStatus {
    SafetyStatus::Critical("GPU thermal: 90°C exceeds 85°C".to_string())
}

fn warn() -> SafetyStatus {
    SafetyStatus::Warn("GPU power: 320W approaching safety limit".to_string())
}

/// Advances to the next step that runs the safety check.
fn next_check_step(s: &mut BrakeSupervisor) {
    loop {
        if s.begin_step() {
            return;
        }
    }
}

/// A supervisor whose brake has just been applied successfully.
fn braked() -> BrakeSupervisor {
    let mut s = BrakeSupervisor::new();
    next_check_step(&mut s);
    assert_eq!(
        s.safety_check(&critical(), false),
        CheckAction::Critical { request_brake: true }
    );
    let outcome = TaskOutcome::Succeeded { post: warn(), post_simulated: false };
    assert!(!s.brake_finished(&outcome));
    assert!(s.brake_applied);
    s
}

#[test]
fn fault_codes() {
    assert_eq!(FaultClass::MlccShortLoad.to_code(), "ERR_MLCC_001");
    assert_eq!(FaultClass::VrmPhaseShort.to_code(), "ERR_VRM_PHASE");
    assert_eq!(FaultClass::FirmwareStateBad.to_code(), "ERR_FW_CRC_FAIL");
    assert_eq!(FaultClass::GpuDieDead.to_code(), "ERR_SILICON_DEAD");
    assert_eq!(FaultClass::HealthyStandby.to_code(), "STATUS_OK");
    assert_eq!(FaultClass::UnknownAmbiguity.to_code(), "WARN_AMBIGUOUS");
}

#[test]
fn nonzero_counts_parse() {
    assert_eq!(parse_nonzero_usize("8"), Ok(8));
    assert_eq!(parse_nonzero_usize("16"), Ok(16));
    assert_eq!(parse_nonzero_usize("+5"), Ok(5));
    assert_eq!(parse_nonzero_usize("007"), Ok(7));
}

#[test]
fn zero_count_is_refused() {
    assert_eq!(parse_nonzero_usize("0"), Err("value must be >= 1".to_string()));
}

#[test]
fn malformed_counts_are_refused() {
    assert!(parse_nonzero_usize("").is_err());
    assert!(parse_nonzero_usize("abc").is_err());
    assert!(parse_nonzero_usize(" 5").is_err());
    assert!(parse_nonzero_usize("-1").is_err());
    assert!(parse_nonzero_usize("99999999999999999999999").is_err());
    assert_ne!(parse_nonzero_usize("x"), Err("value must be >= 1".to_string()));
}

#[test]
fn power_limits_in_watts() {
    assert_eq!(HardwareBridge::query_power_limit_w(Some(250_000)), Some(250));
    assert_eq!(HardwareBridge::query_power_limit_w(Some(349_999)), Some(349));
    assert_eq!(HardwareBridge::query_power_limit_w(None), None);
    assert_eq!(HardwareBridge::query_default_power_limit_w(Some(450_000)), Some(450));
    assert_eq!(HardwareBridge::query_default_power_limit_w(None), None);
}

#[test]
fn power_limit_fallback() {
    assert_eq!(HardwareBridge::limit_or_fallback_w(Some(220)), 220);
    assert_eq!(HardwareBridge::limit_or_fallback_w(None), 300);
}

#[test]
fn safety_check_runs_every_tenth_step() {
    let mut s = BrakeSupervisor::new();
    for step in 1..=30u64 {
        assert_eq!(s.begin_step(), step % 10 == 0);
        assert_eq!(s.step_count, step);
    }
}

#[test]
fn critical_reading_requests_brake_once() {
    let mut s = BrakeSupervisor::new();
    next_check_step(&mut s);
    assert_eq!(
        s.safety_check(&critical(), false),
        CheckAction::Critical { request_brake: true }
    );
    assert!(s.brake_in_flight);
    next_check_step(&mut s);
    assert_eq!(
        s.safety_check(&critical(), false),
        CheckAction::Critical { request_brake: false }
    );
}

#[test]
fn three_real_all_clears_release_the_brake() {
    let mut s = braked();
    for expected_release in [false, false, true] {
        next_check_step(&mut s);
        assert_eq!(
            s.safety_check(&SafetyStatus::Nominal, false),
            CheckAction::Counted { request_release: expected_release }
        );
    }
    assert_eq!(s.ok_count_after_brake, 3);
    assert!(s.release_in_flight);
    let outcome = TaskOutcome::Succeeded { post: SafetyStatus::Nominal, post_simulated: false };
    assert_eq!(s.release_finished(&outcome), ReleaseFollowUp::Nothing);
    assert!(!s.brake_applied);
    assert_eq!(s.ok_count_after_brake, 0);
}

#[test]
fn warning_restarts_the_streak() {
    let mut s = braked();
    next_check_step(&mut s);
    s.safety_check(&SafetyStatus::Nominal, false);
    next_check_step(&mut s);
    s.safety_check(&SafetyStatus::Nominal, false);
    next_check_step(&mut s);
    assert_eq!(s.safety_check(&warn(), false), CheckAction::Warn);
    assert_eq!(s.ok_count_after_brake, 0);
    next_check_step(&mut s);
    assert_eq!(
        s.safety_check(&SafetyStatus::Nominal, false),
        CheckAction::Counted { request_release: false }
    );
}

#[test]
fn simulated_telemetry_holds_the_brake() {
    let mut s = braked();
    next_check_step(&mut s);
    assert_eq!(
        s.safety_check(&SafetyStatus::Nominal, true),
        CheckAction::HoldOnSimulated { first_notice: true }
    );
    next_check_step(&mut s);
    assert_eq!(
        s.safety_check(&SafetyStatus::Nominal, true),
        CheckAction::HoldOnSimulated { first_notice: false }
    );
    assert_eq!(s.ok_count_after_brake, 0);
    assert!(!s.release_in_flight);
}

#[test]
fn unbraked_all_clear_is_idle() {
    let mut s = BrakeSupervisor::new();
    next_check_step(&mut s);
    assert_eq!(s.safety_check(&SafetyStatus::Nominal, false), CheckAction::Idle);
    assert_eq!(s.safety_check(&SafetyStatus::Nominal, true), CheckAction::Idle);
}

#[test]
fn failed_brake_leaves_brake_unapplied() {
    let mut s = BrakeSupervisor::new();
    next_check_step(&mut s);
    s.safety_check(&critical(), false);
    assert!(!s.brake_finished(&TaskOutcome::Failed));
    assert!(!s.brake_applied);
    assert!(!s.brake_in_flight);
    next_check_step(&mut s);
    assert_eq!(
        s.safety_check(&critical(), false),
        CheckAction::Critical { request_brake: true }
    );
}

#[test]
fn brake_completion_counts_a_real_all_clear_once_per_step() {
    let mut s = BrakeSupervisor::new();
    next_check_step(&mut s);
    s.safety_check(&critical(), false);
    next_check_step(&mut s);
    let outcome = TaskOutcome::Succeeded { post: SafetyStatus::Nominal, post_simulated: false };
    assert!(!s.brake_finished(&outcome));
    assert_eq!(s.ok_count_after_brake, 1);
    assert_eq!(s.safety_check(&SafetyStatus::Nominal, false), CheckAction::Idle);
    assert_eq!(s.ok_count_after_brake, 1);
}

#[test]
fn critical_after_release_reapplies() {
    let mut s = braked();
    for _ in 0..3 {
        next_check_step(&mut s);
        s.safety_check(&SafetyStatus::Nominal, false);
    }
    let outcome = TaskOutcome::Succeeded { post: critical(), post_simulated: false };
    assert_eq!(
        s.release_finished(&outcome),
        ReleaseFollowUp::Reapply { request_brake: true }
    );
    assert!(!s.brake_applied);
    assert!(s.brake_in_flight);
}

#[test]
fn release_on_simulated_telemetry_is_reported() {
    let mut s = braked();
    for _ in 0..3 {
        next_check_step(&mut s);
        s.safety_check(&SafetyStatus::Nominal, false);
    }
    let outcome = TaskOutcome::Succeeded { post: SafetyStatus::Nominal, post_simulated: true };
    assert_eq!(s.release_finished(&outcome), ReleaseFollowUp::ReleasedOnSimulated);
    assert!(!s.brake_applied);
}

#[test]
fn failed_release_keeps_brake_and_resets_streak() {
    let mut s = braked();
    for _ in 0..3 {
        next_check_step(&mut s);
        s.safety_check(&SafetyStatus::Nominal, false);
    }
    assert_eq!(s.release_finished(&TaskOutcome::Failed), ReleaseFollowUp::Nothing);
    assert!(s.brake_applied);
    assert!(!s.release_in_flight);
    assert_eq!(s.ok_count_after_brake, 0);
}

#[test]
fn datagram_text_requires_utf8() {
    assert_eq!(datagram_text(b"{\"type\":\"GetNeuroState\"}"), Some("{\"type\":\"GetNeuroState\"}"));
    assert_eq!(datagram_text(b"not json at all"), Some("not json at all"));
    assert_eq!(datagram_text(&[0xff, 0xfe, 0x00]), None);
    assert_eq!(datagram_text("héllo".as_bytes()), Some("héllo"));
}

#[test]
fn message_types_by_tag() {
    assert_eq!(RequestKind::from_tag(Some("Stimuli")), Some(RequestKind::Stimuli));
    assert_eq!(RequestKind::from_tag(Some("LearningReward")), Some(RequestKind::LearningReward));
    assert_eq!(RequestKind::from_tag(Some("GetNeuroState")), Some(RequestKind::GetNeuroState));
    assert_eq!(RequestKind::from_tag(Some("stimuli")), None);
    assert_eq!(RequestKind::from_tag(Some("Stimuli ")), None);
    assert_eq!(RequestKind::from_tag(Some("")), None);
    assert_eq!(RequestKind::from_tag(None), None);
}

#[test]
fn stimuli_values_fill_leading_channels() {
    let mut stimuli = vec![0.0_f32; 4];
    let values = [1.0_f32, -1.0, 0.5, 0.1];
    assert!(apply_stimuli(&mut stimuli, Some(&values)));
    assert_eq!(stimuli, vec![1.0, -1.0, 0.5, 0.1]);
}

#[test]
fn stimuli_values_beyond_channels_are_ignored() {
    let mut stimuli = vec![0.0_f32; 2];
    let values = [1.0_f32, 1.0, 1.0, 1.0];
    assert!(apply_stimuli(&mut stimuli, Some(&values)));
    assert_eq!(stimuli, vec![1.0, 1.0]);
}

#[test]
fn fewer_stimuli_values_leave_other_channels() {
    let mut stimuli = vec![0.25_f32; 4];
    let values = [0.5_f32];
    assert!(apply_stimuli(&mut stimuli, Some(&values)));
    assert_eq!(stimuli, vec![0.5, 0.25, 0.25, 0.25]);
    let empty: [f32; 0] = [];
    assert!(apply_stimuli(&mut stimuli, Some(&empty)));
    assert_eq!(stimuli, vec![0.5, 0.25, 0.25, 0.25]);
}

#[test]
fn stimuli_without_array_are_not_applied() {
    let mut stimuli = vec![0.3_f32; 3];
    assert!(!apply_stimuli::<f32>(&mut stimuli, None));
    assert_eq!(stimuli, vec![0.3, 0.3, 0.3]);
}

#[test]
fn stimuli_applied_twice_equals_once() {
    let mut once = vec![0.0_f32; 3];
    let values = [0.7_f32, -0.2];
    apply_stimuli(&mut once, Some(&values));
    let mut twice = once.clone();
    apply_stimuli(&mut twice, Some(&values));
    assert_eq!(once, twice);
}

#[test]
fn recorded_pid_parsing() {
    assert_eq!(recorded_pid(Some("1234\n")), Some(1234));
    assert_eq!(recorded_pid(Some("  42  ")), Some(42));
    assert_eq!(recorded_pid(Some("abc")), None);
    assert_eq!(recorded_pid(Some("")), None);
    assert_eq!(recorded_pid(Some("4294967296")), None);
    assert_eq!(recorded_pid(None), None);
}

#[test]
fn lock_acquisition_decisions() {
    assert_eq!(next_lock_action(&LockEvent::Created), LockAction::WritePidAndHold);
    assert_eq!(next_lock_action(&LockEvent::AlreadyExists), LockAction::ReadRecordedPid);
    assert_eq!(next_lock_action(&LockEvent::CreateFailed), LockAction::Propagate);
    assert_eq!(
        next_lock_action(&LockEvent::Recorded(Some("777\n".to_string()))),
        LockAction::CheckAlive(777)
    );
    assert_eq!(
        next_lock_action(&LockEvent::Recorded(Some("garbage".to_string()))),
        LockAction::RefuseUnreadable
    );
    assert_eq!(next_lock_action(&LockEvent::Recorded(None)), LockAction::RefuseUnreadable);
    assert_eq!(
        next_lock_action(&LockEvent::Liveness { pid: 777, alive: true }),
        LockAction::RefuseActive(777)
    );
    assert_eq!(
        next_lock_action(&LockEvent::Liveness { pid: 777, alive: false }),
        LockAction::RemoveStale
    );
    assert_eq!(next_lock_action(&LockEvent::StaleRemoved(true)), LockAction::CreateLock);
    assert_eq!(next_lock_action(&LockEvent::StaleRemoved(false)), LockAction::RefuseStuck);
}

#[test]
fn step_stats_counting() {
    let mut stats = StepStats::new();
    stats.record_stimuli(true);
    stats.record_stimuli(false);
    stats.record_stimuli(true);
    assert_eq!(stats.stimuli_applied_count, 2);
    stats.record_spikes(Some(7));
    assert_eq!(stats.latest_spike_count, 7);
    stats.record_spikes(None);
    assert_eq!(stats.latest_spike_count, 7);
    stats.record_spikes(Some(0));
    assert_eq!(stats.latest_spike_count, 0);
}

#[test]
fn later_stimuli_message_wins() {
    let mut stimuli = vec![0.0_f32; 3];
    let first = [0.9_f32, 0.8, 0.7];
    let second = [-0.5_f32];
    apply_stimuli(&mut stimuli, Some(&first));
    apply_stimuli(&mut stimuli, Some(&second));
    assert_eq!(stimuli, vec![-0.5, 0.8, 0.7]);
}

#[test]
fn supervisor_state_stays_consistent() {
    let mut s = braked();
    assert!(!s.brake_in_flight);
    for _ in 0..3 {
        next_check_step(&mut s);
        s.safety_check(&SafetyStatus::Nominal, false);
        assert!(s.brake_applied);
    }
    assert!(s.release_in_flight && s.brake_applied && !s.brake_in_flight);
    next_check_step(&mut s);
    assert_eq!(
        s.safety_check(&SafetyStatus::Nominal, false),
        CheckAction::Counted { request_release: false }
    );
}

/// The comparisons the relay makes on a temperature (°C) and power (W) reading.
fn flags(temp: f32, power: f32) -> ThresholdFlags {
    ThresholdFlags {
        non_finite: !temp.is_finite() || !power.is_finite(),
        temp_at_most_zero: temp <= 0.0,
        power_at_most_idle: power <= 25.0,
        temp_critical: temp > 85.0,
        power_critical: power > 350.0,
        temp_warn: temp > 75.0,
        power_warn: power > 300.0,
    }
}

#[test]
fn verdict_simulated_idle_skips_checks() {
    assert_eq!(classify_safety(&flags(0.0, 25.0)), SafetyVerdict::Simulated);
    let (status, sim) = SafetyVerdict::Simulated.into_status(String::new());
    assert_eq!(status, SafetyStatus::Nominal);
    assert!(sim);
}

#[test]
fn verdict_thresholds() {
    assert_eq!(classify_safety(&flags(78.0, 200.0)), SafetyVerdict::WarnThermal);
    assert_eq!(classify_safety(&flags(70.0, 320.0)), SafetyVerdict::WarnPower);
    assert_eq!(classify_safety(&flags(90.0, 200.0)), SafetyVerdict::CriticalThermal);
    assert_eq!(classify_safety(&flags(70.0, 360.0)), SafetyVerdict::CriticalPower);
    assert_eq!(classify_safety(&flags(65.0, 200.0)), SafetyVerdict::Nominal);
    assert_eq!(classify_safety(&flags(90.0, 360.0)), SafetyVerdict::CriticalThermal);
    assert_eq!(classify_safety(&flags(80.0, 360.0)), SafetyVerdict::CriticalPower);
}

#[test]
fn verdict_non_finite_is_critical() {
    assert_eq!(classify_safety(&flags(f32::NAN, 200.0)), SafetyVerdict::NonFinite);
    assert_eq!(classify_safety(&flags(60.0, f32::INFINITY)), SafetyVerdict::NonFinite);
    assert_eq!(classify_safety(&flags(0.0, f32::NAN)), SafetyVerdict::NonFinite);
    let (status, sim) = SafetyVerdict::NonFinite.into_status("bad reading".to_string());
    assert_eq!(status, SafetyStatus::Critical("bad reading".to_string()));
    assert!(!sim);
}

#[test]
fn verdict_into_status_kinds() {
    let (warn_status, _) = SafetyVerdict::WarnPower.into_status("w".to_string());
    assert_eq!(warn_status, SafetyStatus::Warn("w".to_string()));
    let (ok_status, sim) = SafetyVerdict::Nominal.into_status(String::new());
    assert_eq!(ok_status, SafetyStatus::Nominal);
    assert!(!sim);
}

#[test]
fn resumed_braked_releases_after_streak() {
    let mut s = BrakeSupervisor::resumed_braked();
    assert!(s.brake_applied && !s.brake_in_flight && !s.release_in_flight);
    for expected_release in [false, false, true] {
        next_check_step(&mut s);
        assert_eq!(
            s.safety_check(&SafetyStatus::Nominal, false),
            CheckAction::Counted { request_release: expected_release }
        );
    }
}

#[test]
fn counts_round_trip_through_text() {
    for n in [1usize, 5, 16, 1234, usize::MAX] {
        assert_eq!(parse_nonzero_usize(&n.to_string()), Ok(n));
    }
}

fn kind_of(bytes: &[u8]) -> Option<RequestKind> {
    classify_datagram(bytes).map(|m| m.kind)
}

#[test]
fn datagrams_classified_by_type() {
    assert_eq!(
        kind_of(br#"{"type":"Stimuli","values":[5.0, -3.0, 0.5, 0.1]}"#),
        Some(RequestKind::Stimuli)
    );
    assert_eq!(
        kind_of(br#"{"type":"LearningReward","dopamine_delta":0.3,"cortisol_delta":0.2}"#),
        Some(RequestKind::LearningReward)
    );
    assert_eq!(kind_of(br#"{"type":"GetNeuroState"}"#), Some(RequestKind::GetNeuroState));
}

#[test]
fn malformed_datagrams_dropped() {
    assert_eq!(kind_of(b"not json at all"), None);
    assert_eq!(kind_of(b"{}"), None);
    assert_eq!(kind_of(br#"{"type":"Reboot"}"#), None);
    assert_eq!(kind_of(br#"{"type":7}"#), None);
    assert_eq!(kind_of(br#"{"typ":"Stimuli"}"#), None);
    assert_eq!(kind_of(&[0xff, b'{', b'}']), None);
    assert_eq!(kind_of(b""), None);
}

#[test]
fn classified_datagram_keeps_its_document() {
    let message = classify_datagram(br#"{"type":"Stimuli","values":[0.5]}"#).unwrap();
    assert_eq!(message.document["values"][0].as_f64(), Some(0.5));
}

#[test]
fn hung_driver_reported_once_per_run() {
    let mut latch = HealthLatch::new();
    assert!(!latch.observe(true));
    assert!(latch.observe(false));
    assert!(!latch.observe(false));
    assert!(!latch.observe(true));
    assert!(latch.observe(false));
}

#[test]
fn leftover_brake_detection() {
    assert!(matches_leftover_brake(150, 300, 150));
    assert!(!matches_leftover_brake(300, 300, 150));
    assert!(!matches_leftover_brake(200, 300, 150));
    assert!(!matches_leftover_brake(150, 150, 150));
}

#[test]
fn fault_codes_are_distinct() {
    let all = [
        FaultClass::MlccShortLoad,
        FaultClass::VrmPhaseShort,
        FaultClass::FirmwareStateBad,
        FaultClass::GpuDieDead,
        FaultClass::HealthyStandby,
        FaultClass::UnknownAmbiguity,
    ];
    for (i, a) in all.iter().enumerate() {
        for b in all.iter().skip(i + 1) {
            assert_ne!(a.to_code(), b.to_code());
        }
    }
}

#[test]
fn hotter_reading_never_judged_safer() {
    let rank = |v: SafetyVerdict| match v {
        SafetyVerdict::NonFinite | SafetyVerdict::CriticalThermal | SafetyVerdict::CriticalPower => 2,
        SafetyVerdict::WarnThermal | SafetyVerdict::WarnPower => 1,
        SafetyVerdict::Simulated | SafetyVerdict::Nominal => 0,
    };
    let readings = [(0.0_f32, 25.0_f32), (40.0, 100.0), (78.0, 200.0), (80.0, 320.0), (90.0, 360.0)];
    for w in readings.windows(2) {
        let (t1, p1) = w[0];
        let (t2, p2) = w[1];
        assert!(rank(classify_safety(&flags(t1, p1))) <= rank(classify_safety(&flags(t2, p2))));
    }
}

#[test]
fn classified_document_is_the_datagrams_own() {
    let text = r#"{"type":"LearningReward","dopamine_delta":0.3,"cortisol_delta":-0.1}"#;
    let message = classify_datagram(text.as_bytes()).unwrap();
    let expected: serde_json::Value = serde_json::from_str(text).unwrap();
    assert_eq!(message.document, expected);
}
