use st_server::bitrate::{
    should_schedule_bitrate_reconfigure, BitrateVerifier, FAILURES_TO_DISABLE_INPLACE,
};

const MS: u64 = 1_000_000;

fn feed(verifier: &mut BitrateVerifier, kbps: u32, fps: u32, secs: u32) {
    // Feed `secs` seconds of frames whose sizes correspond to `kbps`.
    let bytes_per_frame = (kbps as u64 * 1000 / 8 / fps as u64) as usize;
    for _ in 0..(fps * secs) {
        verifier.record(bytes_per_frame);
    }
}

#[test]
fn does_not_trip_when_output_tracks_lowered_bitrate() {
    let t0 = 5_000 * MS;
    let mut v = BitrateVerifier::new(60, t0);
    // Asked encoder to drop to 5000 kbps; encoder complies and emits ~5000.
    v.arm_downward(5_000, t0);
    feed(&mut v, 5_000, 60, 2);
    let failed = v.check_and_take_failure(t0 + 1600 * MS);
    assert!(!failed, "in-place change that took effect must not trip");
    assert!(!v.inplace_ineffective);
}

#[test]
fn trips_when_encoder_ignores_downward_change() {
    let t0 = 5_000 * MS;
    let mut v = BitrateVerifier::new(60, t0);
    // Asked for 5000 kbps but encoder keeps blasting ~20000 kbps.
    v.arm_downward(5_000, t0);
    feed(&mut v, 20_000, 60, 2);
    let failed = v.check_and_take_failure(t0 + 1600 * MS);
    assert!(failed, "encoder ignoring the cap must trigger a rebuild");
}

#[test]
fn disables_inplace_after_repeated_failures() {
    let t0 = 5_000 * MS;
    let mut v = BitrateVerifier::new(60, t0);
    for i in 0..FAILURES_TO_DISABLE_INPLACE {
        let base = t0 + i as u64 * 3_000 * MS;
        v.arm_downward(5_000, base);
        feed(&mut v, 20_000, 60, 2);
        assert!(v.check_and_take_failure(base + 1600 * MS));
    }
    assert!(
        v.inplace_ineffective,
        "after repeated contradictions, in-place must be marked ineffective"
    );
}

#[test]
fn waits_for_grace_window_before_judging() {
    let t0 = 5_000 * MS;
    let mut v = BitrateVerifier::new(60, t0);
    v.arm_downward(5_000, t0);
    feed(&mut v, 20_000, 60, 1);
    // Before the grace deadline, no verdict yet.
    assert!(!v.check_and_take_failure(t0 + 500 * MS));
}

#[test]
fn too_little_output_puts_the_verdict_off() {
    let t0 = 5_000 * MS;
    let mut v = BitrateVerifier::new(60, t0);
    v.arm_downward(5_000, t0);
    for _ in 0..10 {
        v.record(1_000_000);
    }
    assert!(!v.check_and_take_failure(t0 + 1600 * MS));
    assert_eq!(v.pending, Some((5_000, t0 + 2100 * MS)));
}

#[test]
fn measured_rate_is_bits_over_time() {
    let mut v = BitrateVerifier::new(10, 0);
    for _ in 0..10 {
        v.record(12_500);
    }
    // A hundred and twenty-five thousand bytes in one second are a thousand kilobits.
    assert_eq!(v.measured_kbps(1_000 * MS), Some(1_000));
    assert_eq!(v.measured_kbps(2_000 * MS), Some(500));
    assert_eq!(v.measured_kbps(400 * MS), None);
}

#[test]
fn reconfigures_go_down_faster_than_up() {
    assert!(!should_schedule_bitrate_reconfigure(20_000, 20_000, 0, 60_000 * MS));
    // Down: after 750 ms, by at least a tenth and at least 2500.
    assert!(should_schedule_bitrate_reconfigure(20_000, 17_500, 0, 750 * MS));
    assert!(!should_schedule_bitrate_reconfigure(20_000, 17_501, 0, 750 * MS));
    assert!(!should_schedule_bitrate_reconfigure(20_000, 17_500, 0, 749 * MS));
    // Up: after four seconds, by at least a tenth and at least 5000.
    assert!(should_schedule_bitrate_reconfigure(20_000, 25_000, 0, 4_000 * MS));
    assert!(!should_schedule_bitrate_reconfigure(20_000, 24_999, 0, 4_000 * MS));
    assert!(!should_schedule_bitrate_reconfigure(20_000, 25_000, 0, 3_999 * MS));
    assert!(!should_schedule_bitrate_reconfigure(80_000, 87_999, 0, 9_000 * MS));
}

#[test]
fn a_change_is_judged_once_against_nine_fifths_of_its_target() {
    let judged = |bytes: usize, failures: u32| {
        let mut v = BitrateVerifier::new(10, 0);
        v.consecutive_failures = failures;
        v.arm_downward(1_000, 0);
        for _ in 0..20 {
            v.record(bytes);
        }
        let failed = v.check_and_take_failure(2_000 * MS);
        assert_eq!(v.pending, None);
        assert!(!v.check_and_take_failure(9_000 * MS));
        (failed, v.consecutive_failures, v.inplace_ineffective)
    };
    // Twenty frames of 22500 bytes in two seconds are 1800 kbit/s.
    assert_eq!(judged(22_500, 1), (false, 0, false));
    assert_eq!(judged(22_525, 0), (true, 1, false));
    assert_eq!(judged(22_525, 1), (true, 2, true));
    assert_eq!(judged(22_525, u32::MAX), (true, u32::MAX, true));
}
