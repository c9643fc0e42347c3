use st_server::cursor::{
    bgra_to_rgba_premultiplied, crop_cursor_to_opaque, estimate_cursor_hotspot,
    fit_cursor_shape_to_payload_budget, resize_rgba_premultiplied_nearest, CursorShape,
    MAX_CURSOR_SHAPE_RGBA_BYTES,
};
use st_server::devices::{
    macos_button_event, normalize_windows_absolute, uinput_absolute_enabled, uinput_key_bits,
    virtual_screen_of, MacosController, UinputController, WindowsController, WindowsMouseAction,
    X11Controller, X11Event, ABS_X, ABS_Y, EV_ABS, EV_KEY, EV_REL, EV_SYN, REL_WHEEL,
    REL_WHEEL_HI_RES, REL_X, REL_Y,
};
use st_server::input::{InputBackend, InputRuntime};
use st_server::input_backend::{
    macos_input, select_linux_backend, windows_input, InputProbe, LinuxInputStep, ProbeResults,
};
use st_server::keys::KeyboardKey;
use st_server::linux_uring::{io_uring_requested, UringBatch, UringError, UringRound, URING_CHUNK};
use st_server::macos_display::{
    available_displays, describe_display, requested_display_id, select_capture_display,
    DisplayInfo,
};
use st_server::pointer::{
    button_mappings, button_transitions, clamp_stream_coord, linux_button_code,
    normalized_to_stream_coord, WheelAccumulator,
};
use st_server::screen_wake::{
    cli_command, cli_label, dbus_command, wake_display, x11_wake_result, CommandResult, WakeEnv,
    WakeProgress, WakeStep, CLI_COMMANDS, DBUS_COMMANDS,
};

fn shape(width: u16, height: u16) -> CursorShape {
    CursorShape {
        serial: 1,
        width,
        height,
        hotspot_x: width / 2,
        hotspot_y: height / 2,
        rgba: vec![7; width as usize * height as usize * 4],
    }
}

#[test]
fn large_cursors_are_made_to_fit() {
    let (same, scaled) = fit_cursor_shape_to_payload_budget(shape(64, 64));
    assert!(!scaled);
    assert_eq!(same.rgba.len(), 64 * 64 * 4);
    let (fitted, scaled) = fit_cursor_shape_to_payload_budget(shape(256, 256));
    assert!(scaled);
    assert!(fitted.rgba.len() <= MAX_CURSOR_SHAPE_RGBA_BYTES);
    assert_eq!((fitted.width, fitted.height), (127, 127));
    assert_eq!(fitted.rgba.len(), 127 * 127 * 4);
    assert!(fitted.rgba.iter().all(|b| *b == 7));
}

#[test]
fn pixels_are_picked_from_the_nearest() {
    let src = [1, 1, 1, 1, 2, 2, 2, 2, 3, 3, 3, 3, 4, 4, 4, 4];
    let out = resize_rgba_premultiplied_nearest(&src, 2, 2, 1, 1);
    assert_eq!(out.len(), 4);
    assert!(out.iter().all(|b| *b == out[0]));
    let doubled = resize_rgba_premultiplied_nearest(&src, 2, 2, 4, 2);
    assert_eq!(&doubled[0..16], &[1, 1, 1, 1, 1, 1, 1, 1, 2, 2, 2, 2, 2, 2, 2, 2]);
}

#[test]
fn blue_first_becomes_red_first() {
    assert_eq!(bgra_to_rgba_premultiplied(&[1, 2, 3, 255]), vec![3, 2, 1, 255]);
    assert_eq!(bgra_to_rgba_premultiplied(&[0, 0, 0, 0]), vec![0, 0, 0, 0]);
}

#[test]
fn cursors_are_cropped_to_what_shows() {
    // Three by two, with one opaque pixel in the middle of the second row.
    let mut pixels = vec![0u8; 3 * 2 * 4];
    pixels[(3 + 1) * 4..(3 + 1) * 4 + 4].copy_from_slice(&[9, 9, 9, 255]);
    let cropped = crop_cursor_to_opaque(&pixels, 3, 2).unwrap();
    assert_eq!((cropped.width, cropped.height), (1, 1));
    assert_eq!((cropped.left, cropped.top), (1, 1));
    assert_eq!(cropped.pixels, vec![9, 9, 9, 255]);
    assert!(crop_cursor_to_opaque(&vec![0; 16], 2, 2).is_none());
}

#[test]
fn a_hotspot_lies_in_the_picture() {
    let (x, y) = estimate_cursor_hotspot(&vec![255; 4 * 4 * 4], 4, 4);
    assert!(x < 4 && y < 4);
}

#[test]
fn coordinates_are_scaled_and_clamped() {
    assert_eq!(normalized_to_stream_coord(0, 1920), 0);
    assert_eq!(normalized_to_stream_coord(u16::MAX, 1920), 1919);
    assert_eq!(normalized_to_stream_coord(5, 0), 0);
    assert_eq!(clamp_stream_coord(-5, 100), 0);
    assert_eq!(clamp_stream_coord(500, 100), 99);
    assert_eq!(clamp_stream_coord(50, 100), 50);
}

#[test]
fn buttons_change_one_by_one() {
    assert_eq!(button_mappings()[0], (1, 1));
    assert!(button_transitions(3, 3).is_empty());
    let changes = button_transitions(1, 2);
    assert_eq!(changes.len(), 2);
    assert!(changes.contains(&(1, false)));
    assert_eq!(linux_button_code(1), Some(0x110));
    assert_eq!(linux_button_code(77), None);
}

#[test]
fn wheel_motion_adds_up_to_steps() {
    let mut wheel = WheelAccumulator::new();
    assert_eq!(wheel.push_and_take_steps(0, 100), (0, 0));
    assert_eq!(wheel.push_and_take_steps(0, 150), (0, 2));
    assert_eq!(wheel.y_units, 10);
    assert_eq!(wheel.push_and_take_steps(-250, 0), (-2, 0));
    assert_eq!(wheel.x_units, -10);
}

#[test]
fn x11_gets_motion_and_clicks() {
    let mut x11 = X11Controller::new(1920, 1080, 5, 5);
    assert_eq!(x11.move_absolute(u16::MAX, 0), X11Event::Motion { x: 1919, y: 0 });
    assert_eq!(x11.move_relative(3, -4), X11Event::RelativeMotion { dx: 3, dy: -4 });
    assert_eq!(x11.button(2, true), X11Event::Button { button: 2, pressed: true });
    let clicks = x11.scroll(0, 120);
    assert_eq!(clicks.len(), 2);
    assert_eq!(clicks[0], X11Event::Button { button: 4, pressed: true });
    assert_eq!(clicks[1], X11Event::Button { button: 4, pressed: false });
    assert!(x11.key(KeyboardKey::IntlBackslash, true).is_none());
    assert!(matches!(x11.key(KeyboardKey::A, true), Some(X11Event::Key { pressed: true, .. })));
}

#[test]
fn uinput_gets_kernel_events() {
    let mut uinput = UinputController::new(true);
    assert!(uinput.supports_absolute());
    let events = uinput.move_absolute(7, 9);
    assert_eq!(events.len(), 3);
    assert_eq!((events[0].kind, events[0].code, events[0].value), (EV_ABS, ABS_X, 7));
    assert_eq!((events[1].kind, events[1].code, events[1].value), (EV_ABS, ABS_Y, 9));
    assert_eq!(events[2].kind, EV_SYN);
    let events = uinput.move_relative(-1, 2);
    assert_eq!((events[0].kind, events[0].code, events[0].value), (EV_REL, REL_X, -1));
    assert_eq!((events[1].kind, events[1].code, events[1].value), (EV_REL, REL_Y, 2));
    let events = uinput.key(KeyboardKey::CapsLock, true);
    assert_eq!((events[0].kind, events[0].code, events[0].value), (EV_KEY, 58, 1));
    assert!(uinput.button(99, true).is_empty());
    let events = uinput.scroll(0, 120);
    assert!(events.iter().any(|e| e.code == REL_WHEEL_HI_RES && e.value == 120));
    assert!(events.iter().any(|e| e.code == REL_WHEEL && e.value == 1));
    assert!(uinput_key_bits().contains(&58));
    assert!(uinput_absolute_enabled(None));
    assert!(!uinput_absolute_enabled(Some("0")));
}

#[test]
fn windows_gets_the_virtual_screen() {
    let screen = virtual_screen_of(-1920, 0, 3840, 1080);
    assert_eq!(normalize_windows_absolute(0, 3840), 0);
    assert_eq!(normalize_windows_absolute(3839, 3840), 65535);
    let mut windows = WindowsController::new(screen, 0, 0).ok().unwrap();
    let event = windows.move_absolute(screen, 0, 0);
    assert_eq!(event.action, WindowsMouseAction::MoveAbsolute);
    assert_eq!((event.dx, event.dy), (0, 0));
    assert_eq!(windows.tracked_x, -1920);
    assert!(windows.button(99, true).is_none());
    assert_eq!(windows.scroll(0, 120).len(), 1);
    assert_eq!(windows.text(&[104, 105]).len(), 4);
    assert!(windows.key(KeyboardKey::A, true).is_some());
}

#[test]
fn macos_drags_while_a_button_is_held() {
    let mut macos = MacosController::new();
    let idle = macos.post_move_event();
    macos.button(1, true);
    let dragging = macos.post_move_event();
    assert_ne!(idle, dragging);
    macos.button(1, false);
    assert_eq!(macos.post_move_event(), idle);
    assert_ne!(macos_button_event(1, true), macos_button_event(1, false));
    assert!(macos.scroll(0, 10).is_none());
    assert!(macos.scroll(0, 120).is_some());
}

fn tried() -> ProbeResults {
    ProbeResults { x11: None, portal: None, uinput: None }
}

#[test]
fn linux_devices_follow_the_capture() {
    let open = |capture: &str, tried: ProbeResults| match select_linux_backend(capture, 1920, 1080, &tried) {
        LinuxInputStep::Open(p) => Some(p),
        _ => None,
    };
    assert_eq!(open("x11", tried()), Some(InputProbe::X11));
    assert_eq!(open("pipewire", tried()), Some(InputProbe::Portal));
    assert_eq!(open("kms", tried()), Some(InputProbe::Uinput));
    let no_x11 = ProbeResults { x11: Some(Err("no display".to_string())), ..tried() };
    assert_eq!(open("nvfbc", no_x11), Some(InputProbe::Uinput));
    let used = |capture: &str, tried: ProbeResults| match select_linux_backend(capture, 1920, 1080, &tried) {
        LinuxInputStep::Use(s) => s,
        _ => panic!("it is chosen"),
    };
    let x11 = used("x11", ProbeResults { x11: Some(Ok(())), ..tried() });
    assert_eq!(x11.label, "x11/xtest");
    assert!(x11.capabilities.separate_cursor);
    let nvfbc = used("nvfbc", ProbeResults { x11: Some(Ok(())), ..tried() });
    assert!(!nvfbc.capabilities.separate_cursor);
    let portal = used("pipewire", ProbeResults { portal: Some(true), ..tried() });
    assert_eq!(portal.backend, InputBackend::PortalRemoteDesktop);
    assert_eq!(portal.logical_size, Some((1920, 1080)));
    assert_eq!(x11.logical_size, None);
    let kms = used("kms", ProbeResults { uinput: Some(Ok(true)), ..tried() });
    assert_eq!(kms.label, "uinput(abs+rel)");
    assert!(!kms.capabilities.cursor_position_reliable);
}

#[test]
fn missing_devices_are_explained() {
    let failure = |capture: &str, tried: ProbeResults| match select_linux_backend(capture, 1920, 1080, &tried)
    {
        LinuxInputStep::Fail(text) => text,
        _ => panic!("nothing works"),
    };
    let both = ProbeResults {
        x11: Some(Err("a".to_string())),
        uinput: Some(Err("b".to_string())),
        ..tried()
    };
    assert_eq!(failure("x11", both), "x11=a; uinput=b");
    assert_eq!(failure("dxgi", tried()), "unsupported capture backend 'dxgi'");
    let no_uinput = ProbeResults { uinput: Some(Err("denied".to_string())), ..tried() };
    assert_eq!(failure("kms", no_uinput), "denied");
}

#[test]
fn a_runtime_takes_up_devices_and_lets_them_go() {
    let mut runtime = InputRuntime::new(false);
    runtime.refresh_backend(1280, 720);
    runtime.use_backend(Ok(windows_input()));
    assert_eq!(runtime.inner.backend, InputBackend::Windows);
    assert_eq!(runtime.inner.stream_width, 1280);
    assert!(runtime.capabilities().text_input);
    runtime.acquire_control(3);
    runtime.clear_for_stop();
    assert!(!runtime.control_active());
    runtime.refresh_backend(1280, 720);
    runtime.use_backend(Err("gone".to_string()));
    assert_eq!(runtime.inner.backend, InputBackend::Unavailable);
    assert_eq!(macos_input().label, "macos/quartz");
}

fn wake_env() -> WakeEnv<'static> {
    WakeEnv { wake_on_connect: None, wayland_display: true, session_type: None, display: true }
}

#[test]
fn waking_tries_one_way_after_the_other() {
    let mut progress = WakeProgress::new();
    let mut ran = Vec::new();
    let end = loop {
        match wake_display(wake_env(), &progress) {
            WakeStep::RunDbus(i) => {
                ran.push(dbus_command(i)[0]);
                progress.dbus.push(CommandResult::Missing);
            }
            WakeStep::RunCli(i) => {
                ran.push(cli_command(i)[0]);
                progress.cli.push(CommandResult::Missing);
            }
            WakeStep::ForceX11 => progress.x11 = Some(x11_wake_result(false)),
            step => break step,
        }
    };
    assert_eq!(
        ran,
        ["dbus-send", "gdbus", "busctl", "hyprctl", "swaymsg", "wlopm", "kscreen-doctor"]
    );
    assert_eq!(ran.len(), DBUS_COMMANDS + CLI_COMMANDS);
    match end {
        WakeStep::GaveUp(text) => assert!(text.starts_with(
            "no method succeeded: dbus: no D-Bus client (dbus-send/gdbus/busctl) succeeded; \
             cli: no compositor CLI tool available; x11: "
        )),
        _ => panic!("nothing worked"),
    }
}

#[test]
fn the_first_way_that_works_is_enough() {
    let mut progress = WakeProgress::new();
    progress.dbus.push(CommandResult::Failed("exit 1".to_string()));
    progress.dbus.push(CommandResult::Succeeded);
    assert_eq!(
        wake_display(wake_env(), &progress),
        WakeStep::Woken("D-Bus SimulateUserActivity delivered")
    );
    let off = WakeEnv { wake_on_connect: Some("0"), ..wake_env() };
    assert_eq!(wake_display(off, &WakeProgress::new()), WakeStep::Idle);
    let x11 = WakeEnv { wayland_display: false, ..wake_env() };
    assert_eq!(wake_display(x11, &WakeProgress::new()), WakeStep::ForceX11);
    let bare = WakeEnv { display: false, ..x11 };
    assert_eq!(wake_display(bare, &WakeProgress::new()), WakeStep::Idle);
    assert_eq!(cli_label(3), "kscreen-doctor output.*.enable");
    assert_eq!(cli_command(3), ["kscreen-doctor", "output.*.enable"]);
    assert!(x11_wake_result(true).is_ok());
}

#[test]
fn rings_are_filled_in_chunks() {
    assert!(io_uring_requested(None));
    assert!(!io_uring_requested(Some("off")));
    let mut batch = UringBatch::new(URING_CHUNK + 3);
    assert_eq!(batch.next_chunk(), Some((0, URING_CHUNK)));
    batch.advance(round(URING_CHUNK, &[1; URING_CHUNK]));
    assert_eq!(batch.next_chunk(), Some((URING_CHUNK, URING_CHUNK + 3)));
    batch.advance(round(3, &[1, 1, 1]));
    assert_eq!(batch.next_chunk(), None);
    assert!(batch.finish().is_ok());
    assert_eq!(UringBatch::new(0).next_chunk(), None);
}

fn round(pushed: usize, results: &[i32]) -> UringRound {
    UringRound { pushed, submit: Ok(()), results: results.to_vec() }
}

#[test]
fn a_failed_request_does_not_hold_the_rest_back() {
    let mut batch = UringBatch::new(2 * URING_CHUNK + 3);
    let mut results = [1; URING_CHUNK];
    results[2] = -11;
    results[5] = -12;
    batch.advance(round(URING_CHUNK, &results));
    assert_eq!(batch.next_chunk(), Some((URING_CHUNK, 2 * URING_CHUNK)));
    batch.advance(round(URING_CHUNK, &[-13; URING_CHUNK]));
    assert_eq!(batch.next_chunk(), Some((2 * URING_CHUNK, 2 * URING_CHUNK + 3)));
    batch.advance(round(3, &[1, 1]));
    assert_eq!(batch.next_chunk(), None);
    assert_eq!(batch.submitted, 2 * URING_CHUNK + 3);
    assert_eq!(batch.finish(), Err(UringError::Os(11)));

    let mut short = UringBatch::new(3);
    short.advance(round(3, &[1, 1]));
    assert_eq!(short.next_chunk(), None);
    assert_eq!(short.finish(), Err(UringError::Short { got: 2, expected: 3 }));
}

#[test]
fn a_ring_that_takes_nothing_ends_the_batch() {
    let mut full = UringBatch::new(3);
    full.advance(round(0, &[]));
    assert_eq!(full.next_chunk(), None);
    assert_eq!(full.submitted, 0);
    assert_eq!(full.finish(), Err(UringError::QueueFull));
    let mut refused = UringBatch::new(3);
    let why = "ring".to_string();
    refused.advance(UringRound { pushed: 3, submit: Err(why), results: Vec::new() });
    assert_eq!(refused.next_chunk(), None);
    assert_eq!(refused.finish(), Err(UringError::Submit("ring".to_string())));
}

fn displays() -> Vec<DisplayInfo> {
    vec![
        DisplayInfo { id: 4, width: 1920, height: 1080 },
        DisplayInfo { id: 9, width: 2560, height: 1440 },
        DisplayInfo { id: 7, width: 2560, height: 1440 },
    ]
}

#[test]
fn the_largest_display_is_captured() {
    assert_eq!(select_capture_display(&displays(), None), Ok(1));
    assert_eq!(select_capture_display(&displays(), Some(" 7 ")), Ok(2));
    assert_eq!(select_capture_display(&Vec::new(), None), Err("No displays found".to_string()));
    assert_eq!(describe_display(displays()[0]), "display 4 (1920x1080)");
    assert_eq!(
        select_capture_display(&displays(), Some("5")),
        Err(format!(
            "Display 5 requested by ST_MACOS_DISPLAY_ID was not found. Available displays: {}",
            available_displays(&displays())
        ))
    );
}

#[test]
fn display_numbers_are_read_like_numbers() {
    assert_eq!(requested_display_id(None), Ok(None));
    assert_eq!(requested_display_id(Some("12")), Ok(Some(12)));
    for bad in ["", "x", "4294967296", "12x", "+"] {
        let why = bad.parse::<u32>().unwrap_err();
        assert_eq!(
            requested_display_id(Some(bad)),
            Err(format!("ST_MACOS_DISPLAY_ID must be a numeric display id: {why}"))
        );
    }
}

#[test]
fn commands_that_fail_are_told_with_their_status() {
    let mut progress = WakeProgress::new();
    for _ in 0..DBUS_COMMANDS {
        progress.dbus.push(CommandResult::Missing);
    }
    progress.cli.push(CommandResult::Failed("exit status: 1".to_string()));
    for _ in 1..CLI_COMMANDS {
        progress.cli.push(CommandResult::Missing);
    }
    let env = WakeEnv { display: false, ..wake_env() };
    match wake_display(env, &progress) {
        WakeStep::GaveUp(text) => assert_eq!(
            text,
            "no method succeeded: dbus: no D-Bus client (dbus-send/gdbus/busctl) succeeded; \
             cli: hyprctl dispatch dpms on: exit exit status: 1"
        ),
        _ => panic!("nothing worked"),
    }
}
