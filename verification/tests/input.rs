use st_server::cursor::CursorShape;
use st_server::input::{
    credential_of, generate_input_credential, input_packet_client_id, input_packet_is_neutral,
    input_seq_is_newer, ActiveInputClient, CapturedCursor, ControllerState, CursorMessage,
    CursorState, CursorVersionCursor, Injection, InputBackend, InputCapabilities, InputCredential,
    InputPacket, InputRuntime, InputRuntimeInner, KeyboardStateInput, MouseAbsoluteInput,
    MouseButtonsInput, MouseRelativeInput, MouseWheelInput, TextInputRateLimiter,
    MAX_TEXT_INPUT_BYTES, TEXT_INPUT_RATE_BYTES, TEXT_INPUT_RATE_MESSAGES,
    TEXT_INPUT_RATE_WINDOW_NANOS,
};
use st_server::input_cursor::cursor_is_readable;
use st_server::keyboard::{for_each_keyboard_transition, keyboard_state_contains, pressed_modifiers};
use st_server::keys::{
    linux_key_code, macos_key_code, windows_key_scan_code, windows_key_virtual_key, x11_key_name,
    KeyboardKey, KEYBOARD_STATE_BYTES,
};
use st_server::net::{IpAddress, MediaAddr};
use st_server::pointer::MOUSE_BUTTON_PRIMARY;
use st_server::warp::{
    warp_detect_enabled, WarpDetector, WARP_ENTER_STREAK, WARP_EXIT_STREAK, WARP_WINDOW_SAMPLES,
};
use std::collections::BTreeMap;

const KEY_CAPSLOCK: u16 = 58;
const KEY_102ND: u16 = 86;
const KEY_MENU: u16 = 139;
const KEY_PLAYPAUSE: u16 = 164;

fn credential() -> InputCredential {
    InputCredential::from_bytes([0x31; 16])
}

fn wrong_credential() -> InputCredential {
    InputCredential::from_bytes([0x32; 16])
}

fn localhost(last: u128) -> IpAddress {
    IpAddress { v6: false, bits: 0x7f00_0000 + last }
}

fn addr(last: u128, port: u16) -> MediaAddr {
    MediaAddr { ip: localhost(last), port }
}

fn buttons(client_id: u32, buttons: u8) -> InputPacket {
    InputPacket::MouseButtons(MouseButtonsInput { client_id, buttons })
}

fn media_dest(runtime: &InputRuntime, client_id: u32) -> Option<MediaAddr> {
    match runtime.active_clients.get(&client_id) {
        Some(ActiveInputClient::Direct { media_dest, .. }) => Some(*media_dest),
        _ => None,
    }
}

/// Force-enabled detector regardless of `ST_WARP_DETECT` in the env.
fn enabled_warp() -> WarpDetector {
    let mut w = WarpDetector::new(true);
    w.reset();
    w
}

#[test]
fn warp_detector_disabled_never_grabs() {
    let mut w = WarpDetector::new(false);
    let mut cx = 0i64;
    for _ in 0..(WARP_WINDOW_SAMPLES * (WARP_ENTER_STREAK + 2)) {
        cx += 60;
        w.observe_command_absolute(cx, 0);
        assert!(!w.observe_cursor(500, 500));
    }
    assert!(!w.app_grab);
}

/// Drive converging windows (captured tracks commanded 1:1) until the
/// detector trusts the position source. Returns the next position cursor.
fn establish_trust(w: &mut WarpDetector, start: i64) -> i64 {
    let mut p = start;
    for _ in 0..(WARP_WINDOW_SAMPLES * WARP_EXIT_STREAK) {
        p += 60;
        w.observe_command_absolute(p, 0);
        w.observe_cursor(p as i32, 0);
    }
    assert!(w.position_trusted, "tracking cursor must establish trust");
    assert!(!w.app_grab);
    p
}

#[test]
fn warp_detector_untrusted_position_never_grabs() {
    // Backend reports a static / unavailable cursor position: the client
    // commands the cursor all over the desktop but the captured position
    // never moves. Without trust this looks like a warp — it must NOT grab,
    // or the desktop cursor would vanish. (The live regression guard.)
    let mut w = enabled_warp();
    let mut cx = 0i64;
    for _ in 0..(WARP_WINDOW_SAMPLES * (WARP_ENTER_STREAK + 5)) {
        cx += 60;
        w.observe_command_absolute(cx, 0);
        w.observe_cursor(500, 500);
    }
    assert!(!w.position_trusted);
    assert!(!w.app_grab, "untrusted position must never grab");
}

#[test]
fn warp_detector_enters_then_exits() {
    let mut w = enabled_warp();
    let mut cx = establish_trust(&mut w, 0);
    let pin = cx; // captured parks here while the client keeps commanding

    // Diverge: client commands the cursor across the screen, captured pinned
    // (warp-to-centre / raw-input park).
    for _ in 0..(WARP_WINDOW_SAMPLES * WARP_ENTER_STREAK) {
        cx += 60;
        w.observe_command_absolute(cx, 0);
        w.observe_cursor(pin as i32, 0);
    }
    assert!(w.app_grab, "sustained divergence must grab once trusted");

    // Converge: the app released — the captured cursor tracks again.
    let mut pos = pin;
    for _ in 0..(WARP_WINDOW_SAMPLES * WARP_EXIT_STREAK) {
        cx += 60;
        pos += 60;
        w.observe_command_absolute(cx, 0);
        w.observe_cursor(pos as i32, 0);
    }
    assert!(!w.app_grab, "tracking cursor must release");
}

#[test]
fn warp_detector_holds_verdict_while_idle() {
    let mut w = enabled_warp();
    let mut cx = establish_trust(&mut w, 0);
    let pin = cx;
    for _ in 0..(WARP_WINDOW_SAMPLES * WARP_ENTER_STREAK) {
        cx += 60;
        w.observe_command_absolute(cx, 0);
        w.observe_cursor(pin as i32, 0);
    }
    assert!(w.app_grab);
    // Idle: barely any commanded motion. The verdict must not flip on its own
    // (an afk player stays captured; a false positive only clears once real
    // motion is seen to track).
    for _ in 0..(WARP_WINDOW_SAMPLES * 4) {
        cx += 2;
        w.observe_command_absolute(cx, 0);
        w.observe_cursor(pin as i32, 0);
    }
    assert!(w.app_grab, "idle must hold the existing verdict");
}

#[test]
fn warp_detection_is_switched_by_words() {
    assert!(warp_detect_enabled(Some(" ON ")));
    assert!(warp_detect_enabled(Some("1")));
    assert!(!warp_detect_enabled(Some("maybe")));
    assert!(!warp_detect_enabled(None));
}

fn predictive_cursor_inner() -> InputRuntimeInner {
    InputRuntimeInner {
        backend: InputBackend::Unavailable,
        backend_label: "test".to_string(),
        capabilities: InputCapabilities {
            mouse_absolute: true,
            mouse_relative: true,
            keyboard: true,
            separate_cursor: true,
            hover_capture: true,
            cursor_position_reliable: true,
            text_input: false,
        },
        controller_id: Some(1),
        last_input_seq_by_client: BTreeMap::new(),
        button_mask: 0,
        keyboard_state: [0u8; KEYBOARD_STATE_BYTES],
        cursor_shape: Some(CursorShape {
            serial: 7,
            width: 16,
            height: 16,
            hotspot_x: 3,
            hotspot_y: 5,
            rgba: vec![0; 16 * 16 * 4],
        }),
        cursor_state: CursorState { serial: 7, x: 10, y: 20, visible: true, app_grab: false },
        cursor_shape_version: 1,
        cursor_state_version: 1,
        stream_width: 1920,
        stream_height: 1080,
        warp: WarpDetector::new(false),
    }
}

#[test]
fn input_seq_rejects_duplicates_and_older_packets() {
    assert!(!input_seq_is_newer(10, 10));
    assert!(!input_seq_is_newer(9, 10));
    assert!(!input_seq_is_newer(0, 0x8000));
}

#[test]
fn input_seq_accepts_forward_progress_and_wraparound() {
    assert!(input_seq_is_newer(11, 10));
    assert!(input_seq_is_newer(0, u16::MAX));
    assert!(input_seq_is_newer(2, u16::MAX));
}

#[test]
fn neutral_bootstrap_relearns_media_port_without_claiming_control() {
    let mut runtime = InputRuntime::new(false);
    let initial = addr(1, 5000);
    let live = addr(1, 61000);
    let registration = runtime.register_direct_client(1, credential(), initial.ip, initial, 0);

    let effect = runtime.handle_input_packet(7, credential(), buttons(1, 0), live);

    assert_eq!(effect.media_moved, Some(live));
    assert_eq!(media_dest(&runtime, 1), Some(live));
    assert_eq!(runtime.inner.controller_id, None);
    assert_eq!(runtime.inner.last_input_seq_by_client.get(&1), Some(&7));

    runtime.unregister_client(registration);
    assert!(runtime.active_clients.get(&1).is_none());
    let effect = runtime.handle_input_packet(8, credential(), buttons(1, 0), addr(1, 62000));
    assert_eq!(effect.media_moved, None);
    assert!(runtime.inner.last_input_seq_by_client.get(&1).is_none());
}

#[test]
fn unknown_or_wrong_ip_input_does_not_allocate_sequence_or_relearn_destination() {
    let mut runtime = InputRuntime::new(false);
    let initial = addr(1, 5000);
    let _registration = runtime.register_direct_client(1, credential(), initial.ip, initial, 0);

    runtime.handle_input_packet(1, credential(), buttons(99, 0), addr(1, 61000));
    runtime.handle_input_packet(2, credential(), buttons(1, 0), addr(2, 61000));
    runtime.handle_input_packet(3, wrong_credential(), buttons(1, 0), addr(1, 62000));

    assert_eq!(media_dest(&runtime, 1), Some(initial));
    assert!(runtime.inner.last_input_seq_by_client.get(&99).is_none());
    assert!(runtime.inner.last_input_seq_by_client.get(&1).is_none());
}

#[test]
fn wrong_credential_is_rejected_before_sequence_and_destination_updates() {
    let mut runtime = InputRuntime::new(false);
    let initial = addr(1, 5000);
    let forged_source = addr(1, 61000);
    let _registration = runtime.register_direct_client(1, credential(), initial.ip, initial, 0);

    runtime.handle_input_packet(55, wrong_credential(), buttons(1, 0), forged_source);

    assert_eq!(media_dest(&runtime, 1), Some(initial));
    assert!(runtime.inner.last_input_seq_by_client.get(&1).is_none());
}

#[test]
fn registration_drop_releases_owned_input_and_controller_state() {
    let mut runtime = InputRuntime::new(false);
    let registration = runtime.register_tunnel_client(7, credential(), 0);
    runtime.inner.controller_id = Some(7);
    runtime.inner.button_mask = MOUSE_BUTTON_PRIMARY;
    let (byte, bit) = KeyboardKey::A.bit();
    runtime.inner.keyboard_state[byte] = bit;
    runtime.active_controller_id = 7;

    runtime.unregister_client(registration);

    assert_eq!(runtime.inner.controller_id, None);
    assert_eq!(runtime.inner.button_mask, 0);
    assert_eq!(runtime.inner.keyboard_state, [0; KEYBOARD_STATE_BYTES]);
    assert_eq!(runtime.active_controller_id, 0);
}

#[test]
fn neutral_packet_classification_excludes_motion() {
    assert!(input_packet_is_neutral(&InputPacket::MouseButtons(MouseButtonsInput {
        client_id: 1,
        buttons: 0,
    })));
    assert!(input_packet_is_neutral(&InputPacket::KeyboardState(KeyboardStateInput {
        client_id: 1,
        pressed: [0; KEYBOARD_STATE_BYTES],
    })));
    assert!(!input_packet_is_neutral(&InputPacket::MouseRelative(MouseRelativeInput {
        client_id: 1,
        dx: 1,
        dy: 0,
        buttons: 0,
    })));
}

#[test]
fn keyboard_chords_press_modifiers_first_and_release_them_last() {
    let mut chord = [0u8; KEYBOARD_STATE_BYTES];
    for key in [KeyboardKey::A, KeyboardKey::LeftShift, KeyboardKey::LeftCtrl] {
        let (byte, bit) = key.bit();
        chord[byte] |= bit;
    }

    let down = for_each_keyboard_transition([0; KEYBOARD_STATE_BYTES], chord);
    assert_eq!(
        down,
        vec![
            (KeyboardKey::LeftShift, true),
            (KeyboardKey::LeftCtrl, true),
            (KeyboardKey::A, true),
        ]
    );

    let up = for_each_keyboard_transition(chord, [0; KEYBOARD_STATE_BYTES]);
    assert_eq!(
        up,
        vec![
            (KeyboardKey::A, false),
            (KeyboardKey::LeftShift, false),
            (KeyboardKey::LeftCtrl, false),
        ]
    );
}

#[test]
fn text_input_rate_limit_bounds_messages_and_bytes_then_resets() {
    let start = 77;
    let mut message_limited = TextInputRateLimiter { window_started: start, bytes: 0, messages: 0 };
    for _ in 0..TEXT_INPUT_RATE_MESSAGES {
        assert!(message_limited.allow(1, start));
    }
    assert!(!message_limited.allow(1, start));
    assert!(message_limited.allow(1, start + TEXT_INPUT_RATE_WINDOW_NANOS));

    let mut byte_limited = TextInputRateLimiter { window_started: start, bytes: 0, messages: 0 };
    for _ in 0..(TEXT_INPUT_RATE_BYTES / MAX_TEXT_INPUT_BYTES) {
        assert!(byte_limited.allow(MAX_TEXT_INPUT_BYTES, start));
    }
    assert!(!byte_limited.allow(1, start));
}

#[test]
fn text_input_requires_registration_capability_and_nonempty_safe_payload() {
    let mut runtime = InputRuntime::new(false);
    assert!(runtime.handle_text_input(1, "text", 0).is_none());
    let _registration = runtime.register_tunnel_client(1, credential(), 0);
    assert!(runtime.handle_text_input(1, "", 0).is_none());
    assert!(runtime.handle_text_input(1, "a\0b", 0).is_none());
    assert!(runtime.handle_text_input(1, &"x".repeat(MAX_TEXT_INPUT_BYTES + 1), 0).is_none());
    assert!(runtime.handle_text_input(1, "still unavailable", 0).is_none());
    assert_eq!(runtime.inner.controller_id, None);
}

#[test]
fn expanded_linux_keys_preserve_physical_identity() {
    for wire_id in 0..KeyboardKey::COUNT as u8 {
        let key = KeyboardKey::from_u8(wire_id).unwrap();
        assert!(linux_key_code(key).is_some(), "missing Linux key {key:?}");
        assert_eq!(
            x11_key_name(key).is_none(),
            key == KeyboardKey::IntlBackslash,
            "unexpected X11 support result for {key:?}"
        );
    }
    assert_ne!(linux_key_code(KeyboardKey::Num1), linux_key_code(KeyboardKey::Numpad1));
    assert_ne!(linux_key_code(KeyboardKey::Enter), linux_key_code(KeyboardKey::NumpadEnter));
    assert_eq!(linux_key_code(KeyboardKey::CapsLock), Some(KEY_CAPSLOCK));
    assert_eq!(linux_key_code(KeyboardKey::Application), Some(KEY_MENU));
    assert_eq!(linux_key_code(KeyboardKey::MediaPlayPause), Some(KEY_PLAYPAUSE));
    assert_eq!(linux_key_code(KeyboardKey::IntlBackslash), Some(KEY_102ND));
    assert_ne!(x11_key_name(KeyboardKey::Num1), x11_key_name(KeyboardKey::Numpad1));
}

#[test]
fn expanded_windows_keys_preserve_physical_identity() {
    for wire_id in 0..KeyboardKey::COUNT as u8 {
        let key = KeyboardKey::from_u8(wire_id).unwrap();
        assert!(
            windows_key_virtual_key(key).is_some() || windows_key_scan_code(key).is_some(),
            "missing Windows key {key:?}"
        );
    }
    assert_ne!(
        windows_key_scan_code(KeyboardKey::Num1),
        windows_key_scan_code(KeyboardKey::Numpad1)
    );
    assert_ne!(
        windows_key_scan_code(KeyboardKey::Enter),
        windows_key_scan_code(KeyboardKey::NumpadEnter)
    );
    assert_eq!(windows_key_virtual_key(KeyboardKey::Pause), Some(0x13));
    assert_eq!(windows_key_scan_code(KeyboardKey::Pause), None);
    assert_eq!(windows_key_virtual_key(KeyboardKey::NumpadEquals), None);
    assert_eq!(windows_key_virtual_key(KeyboardKey::NumpadComma), None);
    assert_eq!(windows_key_scan_code(KeyboardKey::NumpadEquals), Some((0x59, false)));
    assert_eq!(windows_key_scan_code(KeyboardKey::NumpadComma), Some((0x7E, false)));
    assert_eq!(windows_key_scan_code(KeyboardKey::MediaPlayPause), Some((0x22, true)));
}

#[test]
fn macos_key_mapping_reports_unsupported_keys_without_aliasing() {
    let unsupported = [
        KeyboardKey::NumLock,
        KeyboardKey::ScrollLock,
        KeyboardKey::PrintScreen,
        KeyboardKey::Pause,
        KeyboardKey::F21,
        KeyboardKey::F22,
        KeyboardKey::F23,
        KeyboardKey::F24,
        KeyboardKey::MediaPrevious,
        KeyboardKey::MediaNext,
        KeyboardKey::MediaPlayPause,
        KeyboardKey::MediaStop,
    ];
    for wire_id in 0..KeyboardKey::COUNT as u8 {
        let key = KeyboardKey::from_u8(wire_id).unwrap();
        assert_eq!(
            macos_key_code(key).is_none(),
            unsupported.contains(&key),
            "unexpected macOS support result for {key:?}"
        );
    }
    assert_ne!(macos_key_code(KeyboardKey::Num1), macos_key_code(KeyboardKey::Numpad1));
    assert_ne!(macos_key_code(KeyboardKey::Enter), macos_key_code(KeyboardKey::NumpadEnter));
}

#[test]
fn cursor_prediction_updates_relative_position_without_capture_frame() {
    let mut inner = predictive_cursor_inner();

    inner.predict_cursor_relative(10, -5);

    assert_eq!(inner.cursor_state.x, 20);
    assert_eq!(inner.cursor_state.y, 15);
    assert_eq!(inner.cursor_state_version, 2);
}

#[test]
fn cursor_prediction_updates_absolute_position_without_capture_frame() {
    let mut inner = predictive_cursor_inner();

    inner.predict_cursor_absolute(u16::MAX, 0);

    assert_eq!(inner.cursor_state.x, 1916);
    assert_eq!(inner.cursor_state.y, -5);
    assert_eq!(inner.cursor_state_version, 2);
}

#[test]
fn cursor_prediction_does_not_make_hidden_cursor_visible() {
    let mut inner = predictive_cursor_inner();
    inner.cursor_state.visible = false;

    inner.predict_cursor_relative(10, 10);

    assert_eq!(inner.cursor_state.x, 10);
    assert_eq!(inner.cursor_state.y, 20);
    assert_eq!(inner.cursor_state_version, 1);
}

/// A runtime whose devices take everything.
fn able_runtime() -> InputRuntime {
    let mut runtime = InputRuntime::new(false);
    runtime.inner.backend = InputBackend::Uinput;
    runtime.inner.backend_label = "test".to_string();
    runtime.inner.capabilities = InputCapabilities {
        mouse_absolute: true,
        mouse_relative: true,
        keyboard: true,
        separate_cursor: true,
        hover_capture: true,
        cursor_position_reliable: true,
        text_input: true,
    };
    runtime.inner.stream_width = 1920;
    runtime.inner.stream_height = 1080;
    runtime
}

#[test]
fn credentials_are_drawn_at_random() {
    let a = generate_input_credential().unwrap();
    let b = generate_input_credential().unwrap();
    assert!(!a.same(&b));
    assert!(a.same(&InputCredential::from_bytes(a.bytes)));
}

#[test]
fn client_numbers_count_up() {
    let mut runtime = InputRuntime::new(false);
    assert_eq!(runtime.allocate_client_id(), 1);
    assert_eq!(runtime.allocate_client_id(), 2);
    runtime.next_client_id = u32::MAX;
    assert_eq!(runtime.allocate_client_id(), u32::MAX);
    assert_eq!(runtime.allocate_client_id(), 0);
}

#[test]
fn first_input_claims_control_and_others_wait() {
    let mut runtime = able_runtime();
    let one = runtime.register_tunnel_client(1, credential(), 0);
    let _two = runtime.register_tunnel_client(2, wrong_credential(), 0);
    let effect = runtime.handle_tunnel_input_packet(1, credential(), buttons(1, 1), 1);
    assert_eq!(runtime.controller_state_for(1), ControllerState::OwnedByYou);
    assert_eq!(runtime.controller_state_for(2), ControllerState::OwnedByOther);
    assert_eq!(effect.injections.len(), 1);
    assert!(matches!(effect.injections[0], Injection::Button { pressed: true, .. }));
    assert!(runtime.control_active());
    // The other client's input changes nothing.
    let effect = runtime.handle_tunnel_input_packet(1, wrong_credential(), buttons(2, 2), 2);
    assert!(effect.injections.is_empty());
    assert_eq!(runtime.controller_state_for(1), ControllerState::OwnedByYou);
    // Its button is let go with its registration.
    let let_go = runtime.unregister_client(one);
    assert_eq!(let_go.len(), 1);
    assert!(matches!(let_go[0], Injection::Button { pressed: false, .. }));
    assert_eq!(runtime.controller_state_for(2), ControllerState::Available);
}

#[test]
fn tunnel_packets_must_carry_their_own_number() {
    let mut runtime = able_runtime();
    let _one = runtime.register_tunnel_client(1, credential(), 0);
    let effect = runtime.handle_tunnel_input_packet(1, credential(), buttons(1, 1), 2);
    assert!(effect.injections.is_empty());
    assert!(!runtime.control_active());
}

#[test]
fn replayed_packets_are_ignored() {
    let mut runtime = able_runtime();
    let _one = runtime.register_tunnel_client(1, credential(), 0);
    let first = runtime.handle_tunnel_input_packet(9, credential(), buttons(1, 1), 1);
    assert_eq!(first.injections.len(), 1);
    let again = runtime.handle_tunnel_input_packet(9, credential(), buttons(1, 0), 1);
    assert!(again.injections.is_empty());
    assert_eq!(runtime.inner.button_mask, 1);
}

#[test]
fn control_is_acquired_and_released_on_request() {
    let mut runtime = able_runtime();
    assert_eq!(runtime.acquire_control(4).0, ControllerState::OwnedByYou);
    assert_eq!(runtime.acquire_control(5).0, ControllerState::OwnedByYou);
    assert_eq!(runtime.controller_state_for(4), ControllerState::OwnedByOther);
    assert_eq!(runtime.release_control(4).0, ControllerState::Available);
    assert_eq!(runtime.controller_state_for(5), ControllerState::OwnedByYou);
    assert_eq!(runtime.release_control(5).0, ControllerState::Available);
    assert_eq!(runtime.controller_state_for(5), ControllerState::Available);
    let mut none = InputRuntime::new(false);
    assert_eq!(none.acquire_control(4).0, ControllerState::Unavailable);
    assert_eq!(none.release_control(4).0, ControllerState::Unavailable);
    assert_eq!(none.backend_label(), "unavailable");
    assert!(!none.capabilities().keyboard);
}

#[test]
fn text_is_typed_by_the_client_in_control() {
    let mut runtime = able_runtime();
    runtime.inner.backend = InputBackend::Windows;
    let _one = runtime.register_tunnel_client(1, credential(), 0);
    let list = runtime.handle_text_input(1, "h\u{e9}llo", 0).unwrap();
    assert!(matches!(list.last(), Some(Injection::Text)));
    assert_eq!(runtime.controller_state_for(1), ControllerState::OwnedByYou);
    // Somebody else in control is not disturbed.
    runtime.acquire_control(9);
    assert!(runtime.handle_text_input(1, "again", 0).is_none());
    assert_eq!(runtime.controller_state_for(9), ControllerState::OwnedByYou);
}

#[test]
fn keyboard_state_is_injected_as_events() {
    let mut runtime = able_runtime();
    let _one = runtime.register_tunnel_client(1, credential(), 0);
    let mut pressed = [0u8; KEYBOARD_STATE_BYTES];
    let (byte, bit) = KeyboardKey::LeftAlt.bit();
    pressed[byte] |= bit;
    let (byte, bit) = KeyboardKey::F4.bit();
    pressed[byte] |= bit;
    assert!(keyboard_state_contains(&pressed, KeyboardKey::F4));
    assert!(!keyboard_state_contains(&pressed, KeyboardKey::F5));
    assert_eq!(pressed_modifiers(&pressed), vec![KeyboardKey::LeftAlt]);
    let packet = InputPacket::KeyboardState(KeyboardStateInput { client_id: 1, pressed });
    let effect = runtime.handle_tunnel_input_packet(1, credential(), packet, 1);
    assert_eq!(
        effect.injections,
        vec![
            Injection::Key { key: KeyboardKey::LeftAlt, down: true },
            Injection::Key { key: KeyboardKey::F4, down: true },
        ]
    );
    // Releasing control lets the keys go, the modifier last.
    let (_, out) = runtime.release_control(1);
    assert_eq!(
        out,
        vec![
            Injection::Key { key: KeyboardKey::F4, down: false },
            Injection::Key { key: KeyboardKey::LeftAlt, down: false },
        ]
    );
}

#[test]
fn packets_name_their_sender() {
    let wheel = InputPacket::MouseWheel(MouseWheelInput {
        client_id: 8,
        delta_x: 0,
        delta_y: 120,
        buttons: 0,
    });
    assert_eq!(input_packet_client_id(&wheel), 8);
    assert!(!input_packet_is_neutral(&wheel));
    let motion = InputPacket::MouseAbsolute(MouseAbsoluteInput {
        client_id: 6,
        x: 0,
        y: 0,
        buttons: 0,
    });
    assert_eq!(input_packet_client_id(&motion), 6);
}

fn captured(x: i32, y: i32, serial: u64, visible: bool) -> CapturedCursor {
    CapturedCursor {
        x,
        y,
        visible,
        width: 2,
        height: 2,
        hotspot_x: 0,
        hotspot_y: 0,
        shape_serial: serial,
        // Blue-first: an opaque red pixel and three opaque blue ones.
        pixels: vec![0, 0, 255, 255, 255, 0, 0, 255, 255, 0, 0, 255, 255, 0, 0, 255],
    }
}

#[test]
fn captured_cursor_reaches_the_client_once() {
    let mut runtime = able_runtime();
    runtime.acquire_control(1);
    runtime.update_cursor(Some(&captured(40, 50, 3, true)));
    let mut versions = CursorVersionCursor::new();
    let messages = runtime.cursor_messages(&mut versions);
    assert_eq!(messages.len(), 2);
    match &messages[0] {
        CursorMessage::Shape(shape) => {
            assert_eq!((shape.width, shape.height), (2, 2));
            assert_eq!(&shape.rgba[0..4], &[255, 0, 0, 255]);
            assert_eq!(&shape.rgba[4..8], &[0, 0, 255, 255]);
        }
        CursorMessage::State(_) => panic!("the shape comes first"),
    }
    match &messages[1] {
        CursorMessage::State(state) => {
            assert_eq!((state.x, state.y, state.visible), (40, 50, true));
        }
        CursorMessage::Shape(_) => panic!("the state comes second"),
    }
    assert!(runtime.cursor_messages(&mut versions).is_empty());
    // Moving it makes only a new state.
    runtime.update_cursor(Some(&captured(41, 50, 3, true)));
    assert_eq!(runtime.cursor_messages(&mut versions).len(), 1);
}

#[test]
fn nobody_in_control_gets_no_cursor() {
    let mut runtime = able_runtime();
    runtime.update_cursor(Some(&captured(40, 50, 3, true)));
    assert!(runtime.cursor_messages(&mut CursorVersionCursor::new()).is_empty());
}

#[test]
fn a_game_hides_a_missing_cursor() {
    let mut runtime = able_runtime();
    runtime.acquire_control(1);
    runtime.update_cursor(Some(&captured(40, 50, 3, true)));
    runtime.update_cursor(None);
    assert!(runtime.inner.cursor_state.visible, "a desktop keeps the last cursor");
    runtime.set_game_mode(true);
    runtime.update_cursor(None);
    assert!(!runtime.inner.cursor_state.visible);
    runtime.set_game_mode(false);
    assert!(runtime.inner.cursor_state.visible);
}

#[test]
fn no_two_keys_share_a_code() {
    let mut linux = Vec::new();
    for number in 0..KeyboardKey::COUNT as u8 {
        let key = KeyboardKey::from_u8(number).unwrap();
        assert_eq!(key.index(), number);
        if let Some(code) = linux_key_code(key) {
            assert!(!linux.contains(&code), "{key:?}");
            linux.push(code);
        }
    }
    assert!(KeyboardKey::from_u8(KeyboardKey::COUNT as u8).is_none());
}

#[test]
fn a_credential_is_what_was_drawn() {
    assert_eq!(credential_of(Some([7; 16])).unwrap().bytes, [7; 16]);
    assert!(credential_of(None).is_none());
}

#[test]
fn cursors_need_the_pixels_that_are_sampled() {
    let large = |len: usize, visible: bool| CapturedCursor {
        width: 200,
        height: 200,
        pixels: vec![255; len],
        ..captured(0, 0, 1, visible)
    };
    assert!(cursor_is_readable(&large(160000, true)));
    assert!(cursor_is_readable(&large(159196, true)));
    assert!(!cursor_is_readable(&large(159192, true)));
    assert!(!cursor_is_readable(&large(70000, true)));
    assert!(cursor_is_readable(&large(65519, true)));
    assert!(cursor_is_readable(&large(70000, false)));
}

#[test]
fn x11_names_belong_to_one_key_each() {
    let mut names: Vec<&str> = (0..KeyboardKey::COUNT as u8)
        .filter_map(|wire_id| x11_key_name(KeyboardKey::from_u8(wire_id).unwrap()))
        .collect();
    assert_eq!(names.len(), KeyboardKey::COUNT as usize - 1);
    names.sort();
    names.dedup();
    assert_eq!(names.len(), KeyboardKey::COUNT as usize - 1);
}
