use st_server::net::{IpAddress, MediaAddr};
use st_server::transport::{
    audio_interleave_enabled, continue_burst, max_queue_latency_us, observe_send_backlog,
    AppliedSettings, Backlog, MediaRoute, SenderSettings, Transport, VideoGate, VideoUnit,
    KEEPALIVE_NANOS, KEYFRAME_THROTTLE_NANOS, MAX_VIDEO_SEND_BURST,
};

fn unit(source_seq: u64, is_recovery: bool) -> VideoUnit {
    VideoUnit { source_seq, capture_micros: 1_000_000, is_recovery }
}

#[test]
fn options_are_switched_by_words() {
    assert!(audio_interleave_enabled(None));
    assert!(audio_interleave_enabled(Some("1")));
    for off in ["0", "false", "no", "off"] {
        assert!(!audio_interleave_enabled(Some(off)));
    }
    assert_eq!(max_queue_latency_us(None), Some(500_000));
    assert_eq!(max_queue_latency_us(Some(" 20 ")), Some(20_000));
    assert_eq!(max_queue_latency_us(Some("junk")), Some(500_000));
    assert_eq!(max_queue_latency_us(Some("off")), None);
    assert_eq!(max_queue_latency_us(Some("4294967295")), Some(u32::MAX));
}

#[test]
fn backlog_is_a_running_average() {
    let mut b = Backlog { ewma_us: 0, seen: false };
    assert!(!observe_send_backlog(1_000, 9_000, &mut b, Some(10_000)));
    assert_eq!(b.ewma_us, 8_000);
    assert!(observe_send_backlog(1_000, 17_000, &mut b, Some(16_000)));
    assert_eq!(b.ewma_us, (8_000 * 7 + 16_000) / 8);
    // A clock that went back counts as no waiting.
    assert!(!observe_send_backlog(5_000, 1_000, &mut b, Some(1)));
    assert_eq!(b.ewma_us, 9_000 * 7 / 8);
}

#[test]
fn a_gap_holds_units_until_a_recovery_unit() {
    let mut gate = VideoGate::new(None);
    assert!(gate.judge(unit(1, true), 1_000_000, 0).send);
    assert!(gate.judge(unit(2, false), 1_000_000, 1).send);
    // Unit three is missing.
    let verdict = gate.judge(unit(4, false), 1_000_000, 2);
    assert!(!verdict.send);
    assert!(verdict.request_keyframe);
    let verdict = gate.judge(unit(5, false), 1_000_000, 3);
    assert!(!verdict.send);
    assert!(!verdict.request_keyframe, "requests are throttled");
    let verdict = gate.judge(unit(6, false), 1_000_000, 2 + KEYFRAME_THROTTLE_NANOS);
    assert!(verdict.request_keyframe);
    assert!(gate.judge(unit(7, true), 1_000_000, 3 + KEYFRAME_THROTTLE_NANOS).send);
    assert!(gate.judge(unit(8, false), 1_000_000, 4 + KEYFRAME_THROTTLE_NANOS).send);
}

#[test]
fn a_late_unit_starts_a_recovery() {
    let mut gate = VideoGate::new(Some(500_000));
    assert!(gate.judge(unit(1, false), 1_100_000, 0).send);
    let verdict = gate.judge(unit(2, false), 1_500_000, 1);
    assert!(!verdict.send);
    assert!(verdict.request_keyframe);
    // A recovery unit goes out however late it is.
    assert!(gate.judge(unit(3, true), 9_000_000, 2).send);
}

#[test]
fn settings_are_applied_once() {
    let mut applied = AppliedSettings::new();
    let wanted = SenderSettings { fec_pct: 10, audio_depth: 2, dup_first: false };
    let change = applied.update(wanted);
    assert_eq!(change.fec_pct, Some(10));
    assert_eq!(change.audio_depth, Some(2));
    assert_eq!(change.dup_first, Some(false));
    let change = applied.update(SenderSettings { fec_pct: 11, ..wanted });
    assert_eq!(change.fec_pct, Some(11));
    assert_eq!(change.audio_depth, None);
    assert_eq!(change.dup_first, None);
}

#[test]
fn a_quiet_path_gets_keepalives() {
    let wanted = SenderSettings { fec_pct: 0, audio_depth: 0, dup_first: true };
    let mut t = Transport::new(None, 100);
    assert!(!t.start_turn(wanted, 100 + KEEPALIVE_NANOS - 1).send_keepalive);
    assert!(t.start_turn(wanted, 100 + KEEPALIVE_NANOS).send_keepalive);
    // Video puts the next one off.
    let at = 100 + KEEPALIVE_NANOS + 7;
    assert!(t.handle_unit(unit(1, true), 1_000_000, at).send);
    assert!(!t.start_turn(wanted, at + KEEPALIVE_NANOS - 1).send_keepalive);
    assert!(t.start_turn(wanted, at + KEEPALIVE_NANOS).send_keepalive);
}

#[test]
fn bursts_are_bounded() {
    assert!(continue_burst(MAX_VIDEO_SEND_BURST - 1));
    assert!(!continue_burst(MAX_VIDEO_SEND_BURST));
}

#[test]
fn a_moved_client_gets_a_keyframe() {
    let ip = IpAddress { v6: false, bits: 0x0a00_0001 };
    let mut route = MediaRoute { current: MediaAddr { ip, port: 1 } };
    let there = MediaAddr { ip, port: 2 };
    assert_eq!(route.wants_repoint(route.current), None);
    assert_eq!(route.wants_repoint(there), Some(there));
    assert!(!route.repointed(there, false));
    assert_eq!(route.wants_repoint(there), Some(there));
    assert!(route.repointed(there, true));
    assert_eq!(route.wants_repoint(there), None);
}
