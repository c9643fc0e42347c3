use st_server::config::{
    apply_system_mode_env, client_display_fps_hint, client_media_port, configured_listen_port,
    listen_port_warning,
    parse_run_mode, trigger_screen_wake, tunnel_fps_hint, ChosenSettings, RunMode, WakeRoute,
    DEFAULT_APP_PORT,
};
use st_server::media::{ClientDisplayInfo, VideoCodecSupport};
use st_server::startup::{
    api_url, beacon_hostname, capture_probe_line, discovery_packet, display_server,
    encoder_probe_line, forced_capture_label, get_screen_resolution, listen_addr,
    next_probed_encoder, nvfbc_probe_line, probed_capture_label, selected_capture, CaptureProbes,
    EncoderProbeStep, NvfbcProbe, ProbedEncoder,
};
use st_server::tunnel::{
    detect_tunnel_preamble, DialOutcome, DialStep, PunchInputs, PunchStep, PunchTask, RelayInputs,
    RelayStep, RelayTask, TunnelDetect, TunnelSessionSlots, IDLE_NANOS, MAX_TUNNEL_SESSIONS,
    PUNCH_BACKOFF_NANOS, RELAY_WAIT_NANOS,
};

const MS: u64 = 1_000_000;

fn display(max_refresh_millihz: u32, udp_port: u16) -> ClientDisplayInfo {
    let none = VideoCodecSupport::empty();
    ClientDisplayInfo {
        max_refresh_millihz,
        udp_port,
        hdr_display: false,
        supported_video_codecs: none,
        hardware_video_codecs: none,
        supported_yuv444_video_codecs: none,
        hardware_yuv444_video_codecs: none,
    }
}

#[test]
fn refresh_rates_become_frame_rates() {
    let hint = |millihz| client_display_fps_hint(Some(display(millihz, 0)));
    assert_eq!(hint(59_940), Some(60));
    assert_eq!(hint(143_499), Some(143));
    assert_eq!(hint(143_500), Some(144));
    assert_eq!(hint(500_000), Some(360));
    assert_eq!(hint(19_499), None);
    assert_eq!(hint(19_500), Some(20));
    assert_eq!(hint(0), None);
    assert_eq!(client_display_fps_hint(None), None);
    assert_eq!(tunnel_fps_hint(&display(59_940, 0)), Some(59));
    assert_eq!(tunnel_fps_hint(&display(0, 0)), None);
}

#[test]
fn ports_fall_back_to_the_default() {
    assert_eq!(client_media_port(Some(display(1, 4000))), 4000);
    assert_eq!(client_media_port(Some(display(1, 0))), DEFAULT_APP_PORT);
    assert_eq!(client_media_port(None), 28_480);
    assert_eq!(configured_listen_port(Some("9000")), 9000);
    for bad in ["0", "65536", "x", "", " 80"] {
        assert_eq!(configured_listen_port(Some(bad)), DEFAULT_APP_PORT);
    }
    assert_eq!(configured_listen_port(None), DEFAULT_APP_PORT);
    assert_eq!(listen_addr(28_480), "0.0.0.0:28480");
}

#[test]
fn arguments_beat_the_environment() {
    let args = |list: &[&str]| list.iter().map(|s| s.to_string()).collect::<Vec<_>>();
    assert_eq!(parse_run_mode(&args(&[]), None), RunMode::Normal);
    assert_eq!(parse_run_mode(&args(&["-v", "--tray", "--system"]), None), RunMode::Tray);
    assert_eq!(parse_run_mode(&args(&["--system"]), Some("tray")), RunMode::System);
    assert_eq!(parse_run_mode(&args(&["x"]), Some("tray")), RunMode::Tray);
    assert_eq!(parse_run_mode(&args(&[]), Some("system")), RunMode::System);
    assert_eq!(parse_run_mode(&args(&[]), Some("System")), RunMode::Normal);
}

#[test]
fn the_agent_wakes_for_the_system_service() {
    assert_eq!(trigger_screen_wake(true), WakeRoute::Agent);
    assert_eq!(trigger_screen_wake(false), WakeRoute::Here);
}

#[test]
fn system_mode_keeps_what_the_user_chose() {
    let names = |capture: bool, no_tray: bool, system_mode: bool, state_dir: bool| {
        apply_system_mode_env(ChosenSettings { capture, no_tray, system_mode, state_dir })
            .iter()
            .map(|s| format!("{}={}", s.name, s.value))
            .collect::<Vec<_>>()
    };
    assert_eq!(
        names(false, false, false, false),
        [
            "ST_CAPTURE=kms",
            "ST_SERVER_NO_TRAY=1",
            "ST_SYSTEM_MODE=1",
            "ST_STATE_DIR=/var/lib/st-server"
        ]
    );
    assert_eq!(names(true, false, false, true), ["ST_SERVER_NO_TRAY=1", "ST_SYSTEM_MODE=1"]);
    assert_eq!(names(false, true, true, true), ["ST_CAPTURE=kms"]);
    assert!(names(true, true, true, true).is_empty());
}

#[test]
fn the_display_server_is_found() {
    assert_eq!(display_server(Some("Wayland"), false, true), "wayland");
    assert_eq!(display_server(Some("TTY\u{c9}"), true, true), "tty\u{e9}");
    assert_eq!(display_server(None, true, true), "wayland");
    assert_eq!(display_server(None, false, true), "x11");
    assert_eq!(display_server(None, false, false), "unknown");
}

fn probes() -> CaptureProbes {
    CaptureProbes { x11: false, wlr_screencopy: false, pipewire: false, nvfbc: None }
}

#[test]
fn the_capture_follows_the_probes() {
    let wlr = CaptureProbes { wlr_screencopy: true, pipewire: true, ..probes() };
    assert_eq!(selected_capture(None, "wayland", &wlr), "Wayland (wlr-screencopy)");
    let portal = CaptureProbes { pipewire: true, ..probes() };
    assert_eq!(selected_capture(None, "wayland", &portal), "PipeWire (xdg-desktop-portal)");
    assert_eq!(selected_capture(None, "tty", &portal), "PipeWire (xdg-desktop-portal)");
    assert_eq!(selected_capture(None, "wayland", &probes()), "none available");
    let now = NvfbcProbe { is_capture_possible: true, can_create_now: true };
    let nvfbc = CaptureProbes { x11: true, nvfbc: Some(Ok(now)), ..probes() };
    assert_eq!(probed_capture_label("x11", &nvfbc), "NvFBC (NVIDIA)");
    let later = NvfbcProbe { can_create_now: false, ..now };
    let x11 = CaptureProbes { x11: true, nvfbc: Some(Ok(later)), ..probes() };
    assert_eq!(probed_capture_label("x11", &x11), "X11 (XShm)");
    assert_eq!(probed_capture_label("x11", &probes()), "none available");
    assert_eq!(selected_capture(Some("KMS"), "x11", &probes()), "KMS (ST_CAPTURE override)");
    assert_eq!(forced_capture_label("portal"), "PipeWire (ST_CAPTURE override)");
    assert_eq!(forced_capture_label("nvfbc"), "NvFBC (ST_CAPTURE override)");
    assert_eq!(forced_capture_label("wayland"), "Wayland screencopy (ST_CAPTURE override)");
    assert_eq!(forced_capture_label("x11"), "X11 XShm (ST_CAPTURE override)");
    assert_eq!(
        forced_capture_label("ext-image-copy"),
        "ext-image-copy-capture-v1 (ST_CAPTURE override)"
    );
    assert_eq!(forced_capture_label("KMS"), "unknown ST_CAPTURE value");
    assert_eq!(
        capture_probe_line(&nvfbc),
        "[probe] Capture backends: NvFBC=true, X11=true, wlr-screencopy=false, \
         PipeWire(portal)=false"
    );
    assert_eq!(
        nvfbc_probe_line(&x11),
        "[probe] NvFBC: available (capture_possible=true, can_create_now=false)"
    );
    assert_eq!(nvfbc_probe_line(&probes()), "[probe] NvFBC: unavailable (requires X11)");
    let broken = CaptureProbes { nvfbc: Some(Err("no library".to_string())), ..probes() };
    assert_eq!(nvfbc_probe_line(&broken), "[probe] NvFBC: unavailable (no library)");
}

#[test]
fn encoders_are_probed_in_order() {
    assert_eq!(next_probed_encoder(0), EncoderProbeStep::Try(ProbedEncoder::Vaapi));
    assert_eq!(next_probed_encoder(1), EncoderProbeStep::Try(ProbedEncoder::Nvenc));
    assert_eq!(next_probed_encoder(2), EncoderProbeStep::Try(ProbedEncoder::Software));
    assert_eq!(next_probed_encoder(3), EncoderProbeStep::Done);
    assert_eq!(encoder_probe_line(ProbedEncoder::Nvenc, None), "[probe] Encoder: NVENC");
    assert_eq!(
        encoder_probe_line(ProbedEncoder::Vaapi, Some("e")),
        "[probe] Encoder: VAAPI unavailable (e)"
    );
    assert_eq!(
        encoder_probe_line(ProbedEncoder::Software, Some("e")),
        "[probe] Encoder: NONE (e)"
    );
}

#[test]
fn the_screen_size_is_read() {
    let text = "name of display:    :0\nscreen #0:\n  dimensions:    2560x1440 pixels (677x381)\r\n";
    assert_eq!(get_screen_resolution(text), Some((2560, 1440)));
    assert_eq!(get_screen_resolution("dimensions: axb\ndimensions: 1x2"), None);
    assert_eq!(get_screen_resolution("dimensions: 12\ndimensions: 1x2"), Some((1, 2)));
    assert_eq!(get_screen_resolution("dimensions:"), None);
    assert_eq!(get_screen_resolution(""), None);
}

#[test]
fn the_beacon_names_the_server() {
    let packet = discovery_packet("box", 28_480, "tok", "peer");
    assert_eq!(packet, "ST_DISCOVER\nbox\n28480\ntok\npeer");
    assert_eq!(packet.split('\n').collect::<Vec<_>>()[2].parse::<u16>(), Ok(28_480));
    assert_eq!(beacon_hostname(Some("a"), Some("b"), None, None), "a");
    assert_eq!(beacon_hostname(None, Some("b"), Some("c"), None), "b");
    assert_eq!(beacon_hostname(None, None, Some("c"), Some("d")), "c");
    assert_eq!(beacon_hostname(None, None, None, Some("d\n")), "d");
    assert_eq!(beacon_hostname(None, None, None, None), "st-server");
    assert_eq!(api_url(None), "https://st-api.kubemaxx.io");
    assert_eq!(api_url(Some("http://h/x//")), "http://h/x");
    assert_eq!(api_url(Some("//")), "");
}

#[test]
fn tunnel_sessions_are_capped() {
    let mut slots = TunnelSessionSlots::new();
    for _ in 0..MAX_TUNNEL_SESSIONS {
        assert!(slots.acquire());
    }
    assert!(!slots.acquire());
    slots.release();
    assert!(slots.acquire());
}

#[test]
fn the_preamble_tells_tunnels_apart() {
    let preamble = [7u8, 8, 9];
    let detect = |bytes: &[u8]| detect_tunnel_preamble(Some(bytes), &preamble);
    assert_eq!(detect(&[7, 8, 9, 1]), TunnelDetect::Tunnel);
    assert_eq!(detect(&[7, 8, 9]), TunnelDetect::Tunnel);
    assert_eq!(detect(&[7, 8]), TunnelDetect::Wait);
    assert_eq!(detect(&[7, 9]), TunnelDetect::Normal);
    assert_eq!(detect(&[1]), TunnelDetect::Normal);
    assert_eq!(detect(&[]), TunnelDetect::Normal);
    assert_eq!(detect_tunnel_preamble(None, &preamble), TunnelDetect::Normal);
}

fn punch(pending: Option<u64>) -> PunchInputs {
    PunchInputs { shutdown: false, pending, session_active: false, ready: true }
}

#[test]
fn a_request_is_tried_three_times() {
    let mut task = PunchTask::new();
    assert_eq!(task.next(punch(None)), PunchStep::Sleep(IDLE_NANOS));
    for _ in 0..3 {
        assert_eq!(task.next(punch(Some(5))), PunchStep::Prepare);
        assert_eq!(task.punched(5, false), PunchStep::Sleep(PUNCH_BACKOFF_NANOS));
    }
    assert_eq!(task.next(punch(Some(5))), PunchStep::Sleep(IDLE_NANOS));
    assert_eq!(task.next(punch(Some(6))), PunchStep::Prepare);
    assert_eq!(task.punched(6, true), PunchStep::StartSession);
    assert_eq!(task.next(punch(Some(6))), PunchStep::Sleep(IDLE_NANOS));
    let busy = PunchInputs { session_active: true, ..punch(Some(7)) };
    assert_eq!(task.next(busy), PunchStep::Sleep(IDLE_NANOS));
    let early = PunchInputs { ready: false, ..punch(Some(7)) };
    assert_eq!(task.next(early), PunchStep::Sleep(IDLE_NANOS));
    let stop = PunchInputs { shutdown: true, ..punch(Some(7)) };
    assert_eq!(task.next(stop), PunchStep::Stop);
}

#[test]
fn a_try_needs_everything() {
    let task = PunchTask::new();
    assert_eq!(task.prepared(false, Some(1), true), PunchStep::Sleep(PUNCH_BACKOFF_NANOS));
    assert_eq!(task.prepared(true, None, true), PunchStep::Sleep(IDLE_NANOS));
    assert_eq!(task.prepared(true, Some(0), true), PunchStep::Sleep(IDLE_NANOS));
    assert_eq!(task.prepared(true, Some(1), false), PunchStep::Sleep(IDLE_NANOS));
    assert_eq!(task.prepared(true, Some(1), true), PunchStep::Punch);
}

fn relay(pending: Option<u64>, now: u64) -> RelayInputs {
    RelayInputs { shutdown: false, pending, session_active: false, now }
}

#[test]
fn relay_tries_are_spaced_out() {
    let mut task = RelayTask::new(0);
    let mut now = 1_000 * MS;
    for delay in [250u64, 500, 1000, 2000, 4000, 4000] {
        assert_eq!(task.next(relay(Some(1), now)), RelayStep::Dial);
        match task.dialed(1, DialOutcome::ConnectFailed("refused".to_string()), now) {
            DialStep::Retry { message, pause } => {
                assert_eq!(message, format!("refused; retrying in {delay}ms"));
                assert_eq!(pause, None);
            }
            _ => panic!("it is tried again"),
        }
        now += delay * MS;
        assert_eq!(task.next(relay(Some(1), now - 1)), RelayStep::Sleep(RELAY_WAIT_NANOS));
    }
    // Another request starts over.
    assert_eq!(task.next(relay(Some(2), now)), RelayStep::Dial);
    assert!(matches!(task.dialed(2, DialOutcome::Paired, now), DialStep::StartSession));
    assert_eq!(task.next(relay(Some(2), now)), RelayStep::Sleep(IDLE_NANOS));
}

#[test]
fn every_outcome_of_a_dial_has_its_answer() {
    let mut task = RelayTask::new(0);
    let mut retry = |outcome| match task.dialed(1, outcome, 0) {
        DialStep::Retry { message, pause } => (message, pause),
        _ => panic!("it is tried again"),
    };
    let (message, pause) = retry(DialOutcome::NoKeys);
    assert_eq!(message, "lease-bound relay crypto is not ready; retrying in 250ms");
    assert_eq!(pause, Some(IDLE_NANOS));
    assert_eq!(
        retry(DialOutcome::NoAddress).0,
        "client requested relay but no relay address is available; retrying in 500ms"
    );
    assert_eq!(retry(DialOutcome::TicketFailed("t".to_string())).0, "t; retrying in 1000ms");
    assert_eq!(
        retry(DialOutcome::TunnelFailed("u".to_string())).0,
        "tunnel setup failed after pairing: u; retrying in 2000ms"
    );
    assert_eq!(
        retry(DialOutcome::TooManySessions).0,
        "tunnel session cap reached after relay pairing; retrying in 4000ms"
    );
    match task.dialed(1, DialOutcome::TicketRefused("gone".to_string()), 0) {
        DialStep::Abandon(text) => {
            assert_eq!(text, "gone; request is no longer owned by this lease pair");
        }
        _ => panic!("it is let go"),
    }
    assert_eq!(task.next(relay(Some(1), u64::MAX)), RelayStep::Sleep(IDLE_NANOS));
    let stop = RelayInputs { shutdown: true, ..relay(Some(3), 0) };
    assert_eq!(task.next(stop), RelayStep::Stop);
}

#[test]
fn ports_that_are_none_are_warned_of() {
    assert_eq!(listen_port_warning(None), None);
    assert_eq!(listen_port_warning(Some("9000")), None);
    for bad in ["0", "70000", "http"] {
        assert_eq!(
            listen_port_warning(Some(bad)).unwrap(),
            format!("[config] Invalid ST_PORT='{bad}', falling back to {DEFAULT_APP_PORT}")
        );
    }
}
