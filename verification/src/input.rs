//! Who controls the pointer and the keyboard, and what is injected for them.
//!
//! Points in time are nanoseconds on a monotonic clock.

use std::collections::{BTreeMap, HashMap};
use vstd::prelude::*;
use crate::auth::constant_time_eq;
use crate::bitrate::elapsed;
use crate::cursor::{CursorShape, ShapeView};
use crate::keyboard::{
    for_each_keyboard_transition, held_modifiers, key_events, modifier_keys, nothing_pressed,
    pressed_modifiers,
};
use crate::keys::{KeyboardKey, KEYBOARD_STATE_BYTES};
use crate::net::{IpAddress, MediaAddr};
use crate::pointer::{button_events, button_transitions, normalized_to_stream_coord, stream_coord};
use crate::warp::WarpDetector;
use rand::RngCore;

verus! {

broadcast use {
    vstd::std_specs::btree::group_btree_axioms,
    vstd::std_specs::hash::group_hash_axioms,
};

pub const INPUT_CREDENTIAL_BYTES: usize = 16;

/// The most bytes of text that one message carries.
pub const MAX_TEXT_INPUT_BYTES: usize = 4096;

pub const TEXT_INPUT_RATE_WINDOW_NANOS: u64 = 1_000_000_000;

/// The most bytes of text that a client sends in a window.
pub const TEXT_INPUT_RATE_BYTES: usize = 16384;

/// The most messages of text that a client sends in a window.
pub const TEXT_INPUT_RATE_MESSAGES: u32 = 32;

/// The secret that a client's input packets carry.
#[derive(Clone, Copy, Debug)]
pub struct InputCredential {
    pub bytes: [u8; INPUT_CREDENTIAL_BYTES],
}

impl InputCredential {
    pub fn from_bytes(bytes: [u8; INPUT_CREDENTIAL_BYTES]) -> (out: Self)
        ensures
            out.bytes == bytes,
    {
        InputCredential { bytes }
    }

    /// Whether two credentials are the same.
    pub fn same(&self, other: &InputCredential) -> (yes: bool)
        ensures
            yes == (self.bytes@ == other.bytes@),
    {
        constant_time_eq(self.bytes.as_slice(), other.bytes.as_slice())
    }
}

/// `OsRng.try_fill_bytes` of the `rand` crate: sixteen bytes from the random source of the
/// operating system, or nothing where that source fails. Nothing is claimed of their values.
#[verifier::external_body]
fn os_random_bytes() -> (out: Option<[u8; INPUT_CREDENTIAL_BYTES]>) {
    let mut bytes = [0u8; INPUT_CREDENTIAL_BYTES];
    match rand::rngs::OsRng.try_fill_bytes(&mut bytes) {
        Ok(()) => Some(bytes),
        Err(_) => None,
    }
}

/// The credential that bytes make up which were drawn, where they could be.
pub fn credential_of(drawn: Option<[u8; INPUT_CREDENTIAL_BYTES]>) -> (out: Option<InputCredential>)
    ensures
        match (drawn, out) {
            (Some(bytes), Some(credential)) => credential.bytes == bytes,
            (None, None) => true,
            _ => false,
        },
{
    match drawn {
        Some(bytes) => Some(InputCredential::from_bytes(bytes)),
        None => None,
    }
}

/// A new random credential; `None` where the system gives no random bytes.
pub fn generate_input_credential() -> (out: Option<InputCredential>) {
    credential_of(os_random_bytes())
}

/// Limits how much text a client sends.
#[derive(Clone, Copy, Debug, PartialEq, Eq, Structural)]
pub struct TextInputRateLimiter {
    pub window_started: u64,
    pub bytes: usize,
    pub messages: u32,
}

impl TextInputRateLimiter {
    /// The limiter once a window that is over has been closed.
    pub open spec fn rolled(self, now: u64) -> TextInputRateLimiter {
        if elapsed(now, self.window_started) >= TEXT_INPUT_RATE_WINDOW_NANOS {
            TextInputRateLimiter { window_started: now, bytes: 0, messages: 0 }
        } else {
            self
        }
    }

    /// That `bytes` more may be sent in the window.
    pub open spec fn has_room(self, bytes: usize) -> bool {
        self.messages < TEXT_INPUT_RATE_MESSAGES && self.bytes + bytes <= TEXT_INPUT_RATE_BYTES
    }

    /// The limiter after a message of `bytes` was offered.
    pub open spec fn after(self, bytes: usize, now: u64) -> TextInputRateLimiter {
        let r = self.rolled(now);
        if r.has_room(bytes) {
            TextInputRateLimiter {
                bytes: (r.bytes + bytes) as usize,
                messages: (r.messages + 1) as u32,
                ..r
            }
        } else {
            r
        }
    }

    pub fn new(now: u64) -> (out: Self)
        ensures
            out == (TextInputRateLimiter { window_started: now, bytes: 0, messages: 0 }),
    {
        TextInputRateLimiter { window_started: now, bytes: 0, messages: 0 }
    }

    /// Takes a message into the window, where it fits.
    pub fn allow(&mut self, bytes: usize, now: u64) -> (ok: bool)
        ensures
            ok == old(self).rolled(now).has_room(bytes),
            *final(self) == old(self).after(bytes, now),
    {
        if now.saturating_sub(self.window_started) >= TEXT_INPUT_RATE_WINDOW_NANOS {
            self.window_started = now;
            self.bytes = 0;
            self.messages = 0;
        }
        if self.messages >= TEXT_INPUT_RATE_MESSAGES || self.bytes > TEXT_INPUT_RATE_BYTES || bytes
            > TEXT_INPUT_RATE_BYTES - self.bytes {
            return false;
        }
        self.messages = self.messages + 1;
        self.bytes = self.bytes + bytes;
        true
    }
}

/// In a window no more is let through than the limits say.
pub proof fn text_rate_is_bounded(l: TextInputRateLimiter, bytes: usize, now: u64)
    requires
        l.messages <= TEXT_INPUT_RATE_MESSAGES,
        l.bytes <= TEXT_INPUT_RATE_BYTES,
    ensures
        l.after(bytes, now).messages <= TEXT_INPUT_RATE_MESSAGES,
        l.after(bytes, now).bytes <= TEXT_INPUT_RATE_BYTES,
{
}

/// What a client is told about who controls the input.
#[derive(Clone, Copy, Debug, PartialEq, Eq, Structural)]
pub enum ControllerState {
    Unavailable,
    Available,
    OwnedByYou,
    OwnedByOther,
}

/// What the input devices and the capture can do.
#[derive(Clone, Copy, Debug, PartialEq, Eq, Structural)]
pub struct InputCapabilities {
    pub mouse_absolute: bool,
    pub mouse_relative: bool,
    pub keyboard: bool,
    pub separate_cursor: bool,
    pub hover_capture: bool,
    pub cursor_position_reliable: bool,
    pub text_input: bool,
}

impl InputCapabilities {
    /// That nothing can be done.
    pub open spec fn nothing() -> InputCapabilities {
        InputCapabilities {
            mouse_absolute: false,
            mouse_relative: false,
            keyboard: false,
            separate_cursor: false,
            hover_capture: false,
            cursor_position_reliable: false,
            text_input: false,
        }
    }

    pub fn none() -> (out: Self)
        ensures
            out == InputCapabilities::nothing(),
    {
        InputCapabilities {
            mouse_absolute: false,
            mouse_relative: false,
            keyboard: false,
            separate_cursor: false,
            hover_capture: false,
            cursor_position_reliable: false,
            text_input: false,
        }
    }
}

/// Where the cursor is and whether it shows.
#[derive(Clone, Copy, Debug, PartialEq, Eq, Structural)]
pub struct CursorState {
    pub serial: u64,
    pub x: i32,
    pub y: i32,
    pub visible: bool,
    /// That an application holds the pointer while the cursor shows.
    pub app_grab: bool,
}

impl CursorState {
    pub open spec fn unknown() -> CursorState {
        CursorState { serial: 0, x: 0, y: 0, visible: false, app_grab: false }
    }

    pub fn none() -> (out: Self)
        ensures
            out == CursorState::unknown(),
    {
        CursorState { serial: 0, x: 0, y: 0, visible: false, app_grab: false }
    }
}

/// The cursor as the capture reports it, with blue-first pixels.
#[derive(Debug)]
pub struct CapturedCursor {
    pub x: i32,
    pub y: i32,
    pub visible: bool,
    pub width: u32,
    pub height: u32,
    pub hotspot_x: u32,
    pub hotspot_y: u32,
    pub shape_serial: u64,
    pub pixels: Vec<u8>,
}

#[derive(Clone, Copy, Debug)]
pub struct MouseAbsoluteInput {
    pub client_id: u32,
    pub x: u16,
    pub y: u16,
    pub buttons: u8,
}

#[derive(Clone, Copy, Debug)]
pub struct MouseRelativeInput {
    pub client_id: u32,
    pub dx: i16,
    pub dy: i16,
    pub buttons: u8,
}

#[derive(Clone, Copy, Debug)]
pub struct MouseButtonsInput {
    pub client_id: u32,
    pub buttons: u8,
}

#[derive(Clone, Copy, Debug)]
pub struct MouseWheelInput {
    pub client_id: u32,
    pub delta_x: i16,
    pub delta_y: i16,
    pub buttons: u8,
}

#[derive(Clone, Copy, Debug)]
pub struct KeyboardStateInput {
    pub client_id: u32,
    pub pressed: [u8; KEYBOARD_STATE_BYTES],
}

/// A packet of input.
#[derive(Clone, Copy, Debug)]
pub enum InputPacket {
    MouseAbsolute(MouseAbsoluteInput),
    MouseRelative(MouseRelativeInput),
    MouseButtons(MouseButtonsInput),
    MouseWheel(MouseWheelInput),
    KeyboardState(KeyboardStateInput),
}

impl InputPacket {
    /// The client that a packet names.
    pub open spec fn sender(self) -> u32 {
        match self {
            InputPacket::MouseAbsolute(p) => p.client_id,
            InputPacket::MouseRelative(p) => p.client_id,
            InputPacket::MouseButtons(p) => p.client_id,
            InputPacket::MouseWheel(p) => p.client_id,
            InputPacket::KeyboardState(p) => p.client_id,
        }
    }

    /// That a packet presses nothing and moves nothing.
    pub open spec fn neutral(self) -> bool {
        match self {
            InputPacket::MouseButtons(p) => p.buttons == 0,
            InputPacket::KeyboardState(p) => nothing_pressed(p.pressed@),
            _ => false,
        }
    }
}

/// The client that a packet names.
pub fn input_packet_client_id(packet: &InputPacket) -> (id: u32)
    ensures
        id == packet.sender(),
{
    match packet {
        InputPacket::MouseAbsolute(p) => p.client_id,
        InputPacket::MouseRelative(p) => p.client_id,
        InputPacket::MouseButtons(p) => p.client_id,
        InputPacket::MouseWheel(p) => p.client_id,
        InputPacket::KeyboardState(p) => p.client_id,
    }
}

/// Whether a packet presses nothing and moves nothing.
pub fn input_packet_is_neutral(packet: &InputPacket) -> (yes: bool)
    ensures
        yes == packet.neutral(),
{
    match packet {
        InputPacket::MouseButtons(p) => p.buttons == 0,
        InputPacket::KeyboardState(p) => {
            let mut i: usize = 0;
            while i < 16
                invariant
                    i <= 16,
                    *packet == InputPacket::KeyboardState(*p),
                    forall|k: int| 0 <= k < i ==> p.pressed@[k] == 0,
                decreases 16 - i,
            {
                if p.pressed[i] != 0 {
                    return false;
                }
                i = i + 1;
            }
            true
        },
        _ => false,
    }
}

/// That `seq` comes after `last`, on a number circle of sixteen bits.
pub open spec fn seq_newer(seq: u16, last: u16) -> bool {
    0 < (seq - last) % 0x10000 < 0x8000
}

/// Whether `seq` comes after `last_seq`, on a number circle of sixteen bits.
pub fn input_seq_is_newer(seq: u16, last_seq: u16) -> (yes: bool)
    ensures
        yes == seq_newer(seq, last_seq),
{
    let delta: u16 = seq.wrapping_sub(last_seq);
    delta != 0 && delta < 0x8000
}

/// Of two numbers at most one comes after the other.
pub proof fn newer_is_one_way(a: u16, b: u16)
    ensures
        !(seq_newer(a, b) && seq_newer(b, a)),
        !seq_newer(a, a),
{
}

/// The kind of device that input is injected through.
#[derive(Clone, Copy, Debug, PartialEq, Eq, Structural)]
pub enum InputBackend {
    Unavailable,
    X11,
    Uinput,
    PortalRemoteDesktop,
    Windows,
    Macos,
}

/// One thing to inject.
#[derive(Clone, Copy, Debug, PartialEq, Eq, Structural)]
pub enum Injection {
    Button { button: u32, pressed: bool },
    MoveAbsolute { x: u16, y: u16 },
    MoveRelative { dx: i16, dy: i16 },
    Scroll { delta_x: i16, delta_y: i16 },
    Key { key: KeyboardKey, down: bool },
    /// The text of the request.
    Text,
}

/// A client whose input is accepted.
#[derive(Clone, Copy, Debug)]
pub enum ActiveInputClient {
    /// Over the network, from one address.
    Direct {
        credential: InputCredential,
        source_ip: IpAddress,
        media_dest: MediaAddr,
        text_rate: TextInputRateLimiter,
    },
    /// Through a tunnel.
    Tunnel { credential: InputCredential, text_rate: TextInputRateLimiter },
}

impl ActiveInputClient {
    pub open spec fn secret(self) -> Seq<u8> {
        match self {
            ActiveInputClient::Direct { credential, .. } => credential.bytes@,
            ActiveInputClient::Tunnel { credential, .. } => credential.bytes@,
        }
    }

    pub open spec fn rate(self) -> TextInputRateLimiter {
        match self {
            ActiveInputClient::Direct { text_rate, .. } => text_rate,
            ActiveInputClient::Tunnel { text_rate, .. } => text_rate,
        }
    }

    /// The client with another text rate.
    pub open spec fn with_rate(self, rate: TextInputRateLimiter) -> ActiveInputClient {
        match self {
            ActiveInputClient::Direct { credential, source_ip, media_dest, .. } =>
                ActiveInputClient::Direct { credential, source_ip, media_dest, text_rate: rate },
            ActiveInputClient::Tunnel { credential, .. } => ActiveInputClient::Tunnel {
                credential,
                text_rate: rate,
            },
        }
    }
}

/// Proof that a client is registered; it is handed back to unregister.
#[derive(Debug, PartialEq, Eq)]
pub struct RegisteredInputClient {
    pub client_id: u32,
}

/// Which cursor messages a client has had.
#[derive(Clone, Copy, Debug, PartialEq, Eq, Structural)]
pub struct CursorVersionCursor {
    pub shape: u64,
    pub state: u64,
}

impl CursorVersionCursor {
    pub fn new() -> (out: Self)
        ensures
            out == (CursorVersionCursor { shape: 0, state: 0 }),
    {
        CursorVersionCursor { shape: 0, state: 0 }
    }
}

/// No key pressed, as the bytes of a set.
pub open spec fn no_keys() -> Seq<u8> {
    Seq::new(KEYBOARD_STATE_BYTES as nat, |i: int| 0u8)
}

pub(crate) fn zero_keys() -> (out: [u8; KEYBOARD_STATE_BYTES])
    ensures
        out@ == no_keys(),
{
    let out: [u8; KEYBOARD_STATE_BYTES] = [0u8, 0, 0, 0, 0, 0, 0, 0, 0, 0, 0, 0, 0, 0, 0, 0];
    proof {
        assert(out@ =~= no_keys());
    }
    out
}

/// The devices, their controller, and the cursor.
#[derive(Debug)]
pub struct InputRuntimeInner {
    pub backend: InputBackend,
    pub backend_label: String,
    pub capabilities: InputCapabilities,
    pub controller_id: Option<u32>,
    pub last_input_seq_by_client: BTreeMap<u32, u16>,
    pub button_mask: u8,
    pub keyboard_state: [u8; KEYBOARD_STATE_BYTES],
    pub cursor_shape: Option<CursorShape>,
    pub cursor_state: CursorState,
    pub cursor_shape_version: u64,
    pub cursor_state_version: u64,
    pub stream_width: u32,
    pub stream_height: u32,
    pub warp: WarpDetector,
}

/// The same as values of mathematics.
#[verifier::ext_equal]
pub ghost struct InnerView {
    pub backend: InputBackend,
    pub backend_label: Seq<char>,
    pub capabilities: InputCapabilities,
    pub controller_id: Option<u32>,
    pub last_seq: Map<u32, u16>,
    pub button_mask: u8,
    pub keyboard: Seq<u8>,
    pub cursor_shape: Option<ShapeView>,
    pub cursor_state: CursorState,
    pub cursor_shape_version: u64,
    pub cursor_state_version: u64,
    pub stream_width: u32,
    pub stream_height: u32,
    pub warp: WarpDetector,
}

/// The view of an optional image.
pub open spec fn shape_view(shape: Option<CursorShape>) -> Option<ShapeView> {
    match shape {
        Some(s) => Some(s@),
        None => None,
    }
}

impl View for InputRuntimeInner {
    type V = InnerView;

    open spec fn view(&self) -> InnerView {
        InnerView {
            backend: self.backend,
            backend_label: self.backend_label@,
            capabilities: self.capabilities,
            controller_id: self.controller_id,
            last_seq: self.last_input_seq_by_client@,
            button_mask: self.button_mask,
            keyboard: self.keyboard_state@,
            cursor_shape: shape_view(self.cursor_shape),
            cursor_state: self.cursor_state,
            cursor_shape_version: self.cursor_shape_version,
            cursor_state_version: self.cursor_state_version,
            stream_width: self.stream_width,
            stream_height: self.stream_height,
            warp: self.warp,
        }
    }
}

impl InnerView {
    pub open spec fn available(self) -> bool {
        self.backend != InputBackend::Unavailable
    }

    /// What a new button mask injects.
    pub open spec fn button_out(self, next: u8) -> Seq<Injection> {
        if self.available() {
            button_events(self.button_mask, next, 5).map_values(
                |e: (u32, bool)| Injection::Button { button: e.0, pressed: e.1 },
            )
        } else {
            Seq::empty()
        }
    }

    /// What a new set of pressed keys injects.
    pub open spec fn key_out(self, next: Seq<u8>) -> Seq<Injection> {
        if self.available() {
            key_events(self.keyboard, next).map_values(
                |e: (KeyboardKey, bool)| Injection::Key { key: e.0, down: e.1 },
            )
        } else {
            Seq::empty()
        }
    }

    /// With nothing held.
    pub open spec fn released(self) -> InnerView {
        InnerView { button_mask: 0, keyboard: no_keys(), ..self }
    }

    /// What letting go of everything injects.
    pub open spec fn release_out(self) -> Seq<Injection> {
        self.button_out(0) + self.key_out(no_keys())
    }

    /// With `client_id` in control; a new controller starts with nothing held.
    pub open spec fn activated(self, client_id: u32) -> InnerView {
        if self.controller_id == Some(client_id) {
            self
        } else {
            InnerView { controller_id: Some(client_id), ..self.released() }
        }
    }

    pub open spec fn activate_out(self, client_id: u32) -> Seq<Injection> {
        if self.controller_id == Some(client_id) {
            Seq::empty()
        } else {
            self.release_out()
        }
    }

    /// With another cursor state; a change is a new version.
    pub open spec fn published(self, next: CursorState) -> InnerView {
        if self.cursor_state == next {
            self
        } else {
            InnerView {
                cursor_state: next,
                cursor_state_version: self.cursor_state_version.wrapping_add(1),
                ..self
            }
        }
    }

    /// With another cursor image; a change is a new version.
    pub open spec fn with_shape(self, next: ShapeView) -> InnerView {
        if self.cursor_shape == Some(next) {
            self
        } else {
            InnerView {
                cursor_shape: Some(next),
                cursor_shape_version: self.cursor_shape_version.wrapping_add(1),
                ..self
            }
        }
    }

    /// With the cursor forgotten, which is a new version of both.
    pub open spec fn without_cursor(self) -> InnerView {
        InnerView {
            cursor_shape: None,
            cursor_state: CursorState::unknown(),
            cursor_shape_version: self.cursor_shape_version.wrapping_add(1),
            cursor_state_version: self.cursor_state_version.wrapping_add(1),
            ..self
        }
    }

    /// That a sequence number is accepted from a client.
    pub open spec fn accepts_seq(self, client_id: u32, seq: u16) -> bool {
        self.last_seq.contains_key(client_id) ==> seq_newer(seq, self.last_seq[client_id])
    }

    /// With a sequence number noted.
    pub open spec fn with_seq(self, client_id: u32, seq: u16) -> InnerView {
        InnerView { last_seq: self.last_seq.insert(client_id, seq), ..self }
    }

    /// What a packet does once its sender is in control.
    pub open spec fn driven(self, packet: InputPacket) -> InnerView {
        match packet {
            InputPacket::MouseAbsolute(p) => InnerView {
                button_mask: p.buttons,
                warp: self.warp.after_absolute(
                    (stream_coord(p.x, self.stream_width) as i32) as i64,
                    (stream_coord(p.y, self.stream_height) as i32) as i64,
                ),
                ..self
            },
            InputPacket::MouseRelative(p) => InnerView {
                button_mask: p.buttons,
                warp: self.warp.after_relative(p.dx as i64, p.dy as i64),
                ..self
            },
            InputPacket::MouseButtons(p) => InnerView { button_mask: p.buttons, ..self },
            InputPacket::MouseWheel(p) => InnerView { button_mask: p.buttons, ..self },
            InputPacket::KeyboardState(p) => InnerView { keyboard: p.pressed@, ..self },
        }
    }

    /// What a packet injects: the buttons first, then the motion.
    pub open spec fn drive_out(self, packet: InputPacket) -> Seq<Injection> {
        match packet {
            InputPacket::MouseAbsolute(p) => self.button_out(p.buttons) + if self.available() {
                seq![Injection::MoveAbsolute { x: p.x, y: p.y }]
            } else {
                Seq::empty()
            },
            InputPacket::MouseRelative(p) => self.button_out(p.buttons) + if self.available() {
                seq![Injection::MoveRelative { dx: p.dx, dy: p.dy }]
            } else {
                Seq::empty()
            },
            InputPacket::MouseButtons(p) => self.button_out(p.buttons),
            InputPacket::MouseWheel(p) => self.button_out(p.buttons) + if self.available() {
                seq![Injection::Scroll { delta_x: p.delta_x, delta_y: p.delta_y }]
            } else {
                Seq::empty()
            },
            InputPacket::KeyboardState(p) => self.key_out(p.pressed@),
        }
    }

    /// What a text injects: the modifiers that are held are let go, last one first, and
    /// pressed again behind the text.
    pub open spec fn text_out(self) -> Seq<Injection> {
        let held = held_modifiers(self.keyboard, modifier_keys());
        let up = Seq::new(
            held.len(),
            |i: int| Injection::Key { key: held[held.len() - 1 - i], down: false },
        );
        let down = Seq::new(held.len(), |i: int| Injection::Key { key: held[i], down: true });
        if !self.available() {
            Seq::empty()
        } else if self.backend == InputBackend::Windows || self.backend == InputBackend::Macos {
            up.push(Injection::Text) + down
        } else {
            up + down
        }
    }
}

impl InputRuntimeInner {
    pub open spec fn wf(self) -> bool {
        &&& self.warp.wf()
    }

    pub(crate) fn is_available(&self) -> (yes: bool)
        ensures
            yes == self@.available(),
    {
        match self.backend {
            InputBackend::Unavailable => false,
            _ => true,
        }
    }

    /// Brings the buttons to a mask.
    fn sync_buttons(&mut self, next: u8, out: &mut Vec<Injection>)
        requires
            old(self).wf(),
        ensures
            final(self).wf(),
            final(self)@ == (InnerView { button_mask: next, ..old(self)@ }),
            final(out)@ == old(out)@ + old(self)@.button_out(next),
    {
        if self.is_available() {
            let events = button_transitions(self.button_mask, next);
            let ghost before = out@;
            let ghost all = self@.button_out(next);
            let mut i: usize = 0;
            while i < events.len()
                invariant
                    i <= events@.len(),
                    all.len() == events@.len(),
                    forall|k: int|
                        #![trigger all[k]]
                        0 <= k < all.len() ==> all[k] == (Injection::Button {
                            button: events@[k].0,
                            pressed: events@[k].1,
                        }),
                    out@ == before + all.subrange(0, i as int),
                decreases events@.len() - i,
            {
                let (button, pressed) = events[i];
                out.push(Injection::Button { button, pressed });
                i = i + 1;
                proof {
                    assert(out@ =~= before + all.subrange(0, i as int));
                }
            }
            proof {
                assert(all.subrange(0, i as int) =~= all);
            }
        } else {
            proof {
                assert(out@ =~= out@ + self@.button_out(next));
            }
        }
        self.button_mask = next;
    }

    /// Brings the pressed keys to a set.
    fn sync_keyboard(&mut self, next: [u8; KEYBOARD_STATE_BYTES], out: &mut Vec<Injection>)
        requires
            old(self).wf(),
        ensures
            final(self).wf(),
            final(self)@ == (InnerView { keyboard: next@, ..old(self)@ }),
            final(out)@ == old(out)@ + old(self)@.key_out(next@),
    {
        if self.is_available() {
            let events = for_each_keyboard_transition(self.keyboard_state, next);
            let ghost before = out@;
            let ghost all = self@.key_out(next@);
            let mut i: usize = 0;
            while i < events.len()
                invariant
                    i <= events@.len(),
                    all.len() == events@.len(),
                    forall|k: int|
                        #![trigger all[k]]
                        0 <= k < all.len() ==> all[k] == (Injection::Key {
                            key: events@[k].0,
                            down: events@[k].1,
                        }),
                    out@ == before + all.subrange(0, i as int),
                decreases events@.len() - i,
            {
                let (key, down) = events[i];
                out.push(Injection::Key { key, down });
                i = i + 1;
                proof {
                    assert(out@ =~= before + all.subrange(0, i as int));
                }
            }
            proof {
                assert(all.subrange(0, i as int) =~= all);
            }
        } else {
            proof {
                assert(out@ =~= out@ + self@.key_out(next@));
            }
        }
        self.keyboard_state = next;
    }

    /// Lets go of everything that is held.
    pub(crate) fn release_all_inputs(&mut self, out: &mut Vec<Injection>)
        requires
            old(self).wf(),
        ensures
            final(self).wf(),
            final(self)@ == old(self)@.released(),
            final(out)@ == old(out)@ + old(self)@.release_out(),
    {
        let ghost before = out@;
        let ghost start = self@;
        self.sync_buttons(0, out);
        self.sync_keyboard(zero_keys(), out);
        proof {
            assert(self@ =~= start.released());
            assert(out@ =~= before + start.release_out());
        }
    }

    /// Puts a client in control.
    fn activate_controller(&mut self, client_id: u32, out: &mut Vec<Injection>)
        requires
            old(self).wf(),
        ensures
            final(self).wf(),
            final(self)@ == old(self)@.activated(client_id),
            final(out)@ == old(out)@ + old(self)@.activate_out(client_id),
    {
        if let Some(owner) = self.controller_id {
            if owner == client_id {
                proof {
                    assert(out@ =~= out@ + self@.activate_out(client_id));
                }
                return;
            }
        }
        self.release_all_inputs(out);
        self.controller_id = Some(client_id);
    }

    /// Notes a sequence number, where it is newer than the last.
    fn accept_input_seq(&mut self, client_id: u32, seq: u16) -> (ok: bool)
        requires
            old(self).wf(),
        ensures
            final(self).wf(),
            ok == old(self)@.accepts_seq(client_id, seq),
            final(self)@ == if ok {
                old(self)@.with_seq(client_id, seq)
            } else {
                old(self)@
            },
    {
        if let Some(last) = self.last_input_seq_by_client.get(&client_id) {
            if !input_seq_is_newer(seq, *last) {
                return false;
            }
        }
        let _ = self.last_input_seq_by_client.insert(client_id, seq);
        true
    }

    /// Publishes a cursor state.
    pub(crate) fn publish(&mut self, next: CursorState)
        requires
            old(self).wf(),
        ensures
            final(self).wf(),
            final(self)@ == old(self)@.published(next),
    {
        if self.cursor_state == next {
            return;
        }
        self.cursor_state = next;
        self.cursor_state_version = self.cursor_state_version.wrapping_add(1);
    }

    pub(crate) fn forget_cursor(&mut self)
        requires
            old(self).wf(),
        ensures
            final(self).wf(),
            final(self)@ == old(self)@.without_cursor(),
    {
        self.cursor_shape = None;
        self.cursor_state = CursorState::none();
        self.cursor_shape_version = self.cursor_shape_version.wrapping_add(1);
        self.cursor_state_version = self.cursor_state_version.wrapping_add(1);
    }
}

/// The input side of the server.
#[derive(Debug)]
pub struct InputRuntime {
    pub next_client_id: u32,
    /// The client in control, and zero where there is none.
    pub active_controller_id: u32,
    /// That the session reported a game in front.
    pub game_mode: bool,
    pub inner: InputRuntimeInner,
    pub active_clients: HashMap<u32, ActiveInputClient>,
}

/// The same as values of mathematics.
#[verifier::ext_equal]
pub ghost struct RuntimeView {
    pub next_client_id: u32,
    pub active_controller_id: u32,
    pub game_mode: bool,
    pub inner: InnerView,
    pub clients: Map<u32, ActiveInputClient>,
}

impl View for InputRuntime {
    type V = RuntimeView;

    open spec fn view(&self) -> RuntimeView {
        RuntimeView {
            next_client_id: self.next_client_id,
            active_controller_id: self.active_controller_id,
            game_mode: self.game_mode,
            inner: self.inner@,
            clients: self.active_clients@,
        }
    }
}

/// The number that is kept for a controller.
pub open spec fn active_id(controller: Option<u32>) -> u32 {
    match controller {
        Some(id) => id,
        None => 0,
    }
}

/// Where a packet came from.
#[derive(Clone, Copy, Debug, PartialEq, Eq, Structural)]
pub enum InputPacketSource {
    Direct(MediaAddr),
    Tunnel,
}

/// What a packet leads to.
#[derive(Debug)]
pub struct PacketEffect {
    /// Where the client's media goes from now on, where that changed.
    pub media_moved: Option<MediaAddr>,
    pub injections: Vec<Injection>,
}

/// A message about the cursor.
#[derive(Debug, PartialEq, Eq)]
pub enum CursorMessage {
    Shape(CursorShape),
    State(CursorState),
}

/// The same as a value of mathematics.
pub ghost enum CursorMessageView {
    Shape(ShapeView),
    State(CursorState),
}

impl View for CursorMessage {
    type V = CursorMessageView;

    open spec fn view(&self) -> CursorMessageView {
        match self {
            CursorMessage::Shape(s) => CursorMessageView::Shape(s@),
            CursorMessage::State(s) => CursorMessageView::State(*s),
        }
    }
}

/// The views of a list of messages.
pub open spec fn message_views(messages: Seq<CursorMessage>) -> Seq<CursorMessageView> {
    messages.map_values(|m: CursorMessage| m@)
}

/// How many bytes a text takes.
pub open spec fn byte_len(text: Seq<char>) -> usize {
    vstd::utf8::encode_utf8(text).len() as usize
}

impl RuntimeView {
    /// With the controller that `inner` has.
    pub open spec fn with_inner(self, inner: InnerView) -> RuntimeView {
        RuntimeView { inner, active_controller_id: active_id(inner.controller_id), ..self }
    }

    /// Without a client: what it held is let go.
    pub open spec fn unregistered(self, client_id: u32) -> RuntimeView {
        let inner = InnerView { last_seq: self.inner.last_seq.remove(client_id), ..self.inner };
        let inner = if inner.controller_id == Some(client_id) {
            InnerView {
                controller_id: None,
                warp: WarpDetector::fresh(inner.warp.enabled),
                ..inner.released()
            }
        } else {
            inner
        };
        RuntimeView { clients: self.clients.remove(client_id), ..self }.with_inner(inner)
    }

    /// What the state of control is to a client.
    pub open spec fn control_seen_by(self, client_id: u32) -> ControllerState {
        if !self.inner.available() {
            ControllerState::Unavailable
        } else {
            match self.inner.controller_id {
                Some(owner) => if owner == client_id {
                    ControllerState::OwnedByYou
                } else {
                    ControllerState::OwnedByOther
                },
                None => ControllerState::Available,
            }
        }
    }

    /// That a packet comes from a registered client, with its credential and by its way.
    pub open spec fn admits(
        self,
        credential: Seq<u8>,
        packet: InputPacket,
        source: InputPacketSource,
    ) -> bool {
        let id = packet.sender();
        &&& self.clients.contains_key(id)
        &&& self.clients[id].secret() == credential
        &&& match (self.clients[id], source) {
            (
                ActiveInputClient::Direct { source_ip, .. },
                InputPacketSource::Direct(src),
            ) => source_ip == src.ip,
            (ActiveInputClient::Tunnel { .. }, InputPacketSource::Tunnel) => true,
            _ => false,
        }
    }

    /// The clients once the return path of one has been learned from a packet.
    pub open spec fn moved_clients(self, packet: InputPacket, source: InputPacketSource) -> Map<
        u32,
        ActiveInputClient,
    > {
        let id = packet.sender();
        match (self.clients[id], source) {
            (
                ActiveInputClient::Direct { credential, source_ip, text_rate, .. },
                InputPacketSource::Direct(src),
            ) => self.clients.insert(
                id,
                ActiveInputClient::Direct { credential, source_ip, media_dest: src, text_rate },
            ),
            _ => self.clients,
        }
    }

    /// Where a client's media goes from now on, where a packet changes that.
    pub open spec fn new_destination(self, packet: InputPacket, source: InputPacketSource) -> Option<
        MediaAddr,
    > {
        match (self.clients[packet.sender()], source) {
            (
                ActiveInputClient::Direct { media_dest, .. },
                InputPacketSource::Direct(src),
            ) => if media_dest != src {
                Some(src)
            } else {
                None
            },
            _ => None,
        }
    }

    /// That a packet may drive the devices: its sender is in control, or nobody is and the
    /// packet does something.
    pub open spec fn may_drive(self, packet: InputPacket) -> bool {
        self.inner.available() && match self.inner.controller_id {
            Some(owner) => owner == packet.sender(),
            None => !packet.neutral(),
        }
    }

    /// The runtime after a packet.
    pub open spec fn after_packet(
        self,
        seq: u16,
        credential: Seq<u8>,
        packet: InputPacket,
        source: InputPacketSource,
    ) -> RuntimeView {
        let id = packet.sender();
        if !self.admits(credential, packet, source) || !self.inner.accepts_seq(id, seq) {
            self
        } else {
            let noted = RuntimeView {
                inner: self.inner.with_seq(id, seq),
                clients: self.moved_clients(packet, source),
                ..self
            };
            if self.may_drive(packet) {
                noted.with_inner(noted.inner.activated(id).driven(packet))
            } else {
                noted
            }
        }
    }

    /// What a packet injects.
    pub open spec fn packet_out(
        self,
        seq: u16,
        credential: Seq<u8>,
        packet: InputPacket,
        source: InputPacketSource,
    ) -> Seq<Injection> {
        let id = packet.sender();
        if self.admits(credential, packet, source) && self.inner.accepts_seq(id, seq)
            && self.may_drive(packet) {
            self.inner.activate_out(id) + self.inner.activated(id).drive_out(packet)
        } else {
            Seq::empty()
        }
    }

    /// Where a packet moves its sender's media to.
    pub open spec fn packet_moves(
        self,
        seq: u16,
        credential: Seq<u8>,
        packet: InputPacket,
        source: InputPacketSource,
    ) -> Option<MediaAddr> {
        if self.admits(credential, packet, source) && self.inner.accepts_seq(packet.sender(), seq) {
            self.new_destination(packet, source)
        } else {
            None
        }
    }

    /// That a text is one to inject at all.
    pub open spec fn is_plain_text(text: Seq<char>) -> bool {
        &&& text.len() > 0
        &&& byte_len(text) <= MAX_TEXT_INPUT_BYTES
        &&& !text.contains(0 as char)
    }

    /// The runtime once a client's text has been counted.
    pub open spec fn text_counted(self, client_id: u32, bytes: usize, now: u64) -> RuntimeView {
        let client = self.clients[client_id];
        RuntimeView {
            clients: self.clients.insert(
                client_id,
                client.with_rate(client.rate().after(bytes, now)),
            ),
            ..self
        }
    }

    /// That a client's text is injected: it is plain, the client is registered and within
    /// its rate, the devices take text, and nobody else is in control.
    pub open spec fn accepts_text(self, client_id: u32, text: Seq<char>, now: u64) -> bool {
        &&& RuntimeView::is_plain_text(text)
        &&& self.clients.contains_key(client_id)
        &&& self.clients[client_id].rate().rolled(now).has_room(byte_len(text))
        &&& self.inner.capabilities.keyboard
        &&& self.inner.capabilities.text_input
        &&& self.inner.available()
        &&& self.inner.controller_id matches Some(owner) ==> owner == client_id
    }

    /// The runtime after a text.
    pub open spec fn after_text(self, client_id: u32, text: Seq<char>, now: u64) -> RuntimeView {
        if !RuntimeView::is_plain_text(text) || !self.clients.contains_key(client_id) {
            self
        } else {
            let counted = self.text_counted(client_id, byte_len(text), now);
            if self.accepts_text(client_id, text, now) {
                counted.with_inner(counted.inner.activated(client_id))
            } else {
                counted
            }
        }
    }
}

fn contains_nul(text: &str) -> (yes: bool)
    ensures
        yes == text@.contains(0 as char),
{
    let len: usize = text.unicode_len();
    let mut i: usize = 0;
    while i < len
        invariant
            len == text@.len(),
            i <= len,
            forall|k: int| 0 <= k < i ==> text@[k] != 0 as char,
        decreases len - i,
    {
        if text.get_char(i) == '\0' {
            proof {
                assert(text@[i as int] == 0 as char);
            }
            return true;
        }
        i = i + 1;
    }
    false
}

impl InputRuntime {
    pub open spec fn wf(self) -> bool {
        &&& self.inner.wf()
        &&& self.active_controller_id == active_id(self.inner.controller_id)
    }

    /// A runtime without devices and without clients.
    pub fn new(warp_detect: bool) -> (out: Self)
        ensures
            out.wf(),
            out@ == (RuntimeView {
                next_client_id: 1,
                active_controller_id: 0,
                game_mode: false,
                inner: InnerView {
                    backend: InputBackend::Unavailable,
                    backend_label: "unavailable"@,
                    capabilities: InputCapabilities::nothing(),
                    controller_id: None,
                    last_seq: Map::empty(),
                    button_mask: 0,
                    keyboard: no_keys(),
                    cursor_shape: None,
                    cursor_state: CursorState::unknown(),
                    cursor_shape_version: 0,
                    cursor_state_version: 0,
                    stream_width: 0,
                    stream_height: 0,
                    warp: WarpDetector::fresh(warp_detect),
                },
                clients: Map::empty(),
            }),
    {
        InputRuntime {
            next_client_id: 1,
            active_controller_id: 0,
            game_mode: false,
            inner: InputRuntimeInner {
                backend: InputBackend::Unavailable,
                backend_label: "unavailable".to_owned(),
                capabilities: InputCapabilities::none(),
                controller_id: None,
                last_input_seq_by_client: BTreeMap::new(),
                button_mask: 0,
                keyboard_state: zero_keys(),
                cursor_shape: None,
                cursor_state: CursorState::none(),
                cursor_shape_version: 0,
                cursor_state_version: 0,
                stream_width: 0,
                stream_height: 0,
                warp: WarpDetector::new(warp_detect),
            },
            active_clients: HashMap::new(),
        }
    }

    /// Registers an authenticated client that sends input over the network. Its input may
    /// change the port that media goes to, but it must come from its own address.
    pub fn register_direct_client(
        &mut self,
        client_id: u32,
        credential: InputCredential,
        source_ip: IpAddress,
        media_dest: MediaAddr,
        now: u64,
    ) -> (token: RegisteredInputClient)
        requires
            old(self).wf(),
        ensures
            final(self).wf(),
            token.client_id == client_id,
            final(self)@ == (RuntimeView {
                clients: old(self)@.clients.insert(
                    client_id,
                    ActiveInputClient::Direct {
                        credential,
                        source_ip,
                        media_dest,
                        text_rate: TextInputRateLimiter {
                            window_started: now,
                            bytes: 0,
                            messages: 0,
                        },
                    },
                ),
                ..old(self)@
            }),
    {
        let _ = self.active_clients.insert(
            client_id,
            ActiveInputClient::Direct {
                credential,
                source_ip,
                media_dest,
                text_rate: TextInputRateLimiter::new(now),
            },
        );
        RegisteredInputClient { client_id }
    }

    /// Registers an authenticated client that sends input through a tunnel.
    pub fn register_tunnel_client(
        &mut self,
        client_id: u32,
        credential: InputCredential,
        now: u64,
    ) -> (token: RegisteredInputClient)
        requires
            old(self).wf(),
        ensures
            final(self).wf(),
            token.client_id == client_id,
            final(self)@ == (RuntimeView {
                clients: old(self)@.clients.insert(
                    client_id,
                    ActiveInputClient::Tunnel {
                        credential,
                        text_rate: TextInputRateLimiter {
                            window_started: now,
                            bytes: 0,
                            messages: 0,
                        },
                    },
                ),
                ..old(self)@
            }),
    {
        let _ = self.active_clients.insert(
            client_id,
            ActiveInputClient::Tunnel { credential, text_rate: TextInputRateLimiter::new(now) },
        );
        RegisteredInputClient { client_id }
    }

    /// Ends a registration. What the client held is let go.
    pub fn unregister_client(&mut self, token: RegisteredInputClient) -> (out: Vec<Injection>)
        requires
            old(self).wf(),
        ensures
            final(self).wf(),
            final(self)@ == old(self)@.unregistered(token.client_id),
            out@ == if old(self)@.inner.controller_id == Some(token.client_id) {
                old(self)@.inner.release_out()
            } else {
                Seq::empty()
            },
    {
        let client_id: u32 = token.client_id;
        let mut out: Vec<Injection> = Vec::new();
        let ghost start = self@;
        let _ = self.active_clients.remove(&client_id);
        let _ = self.inner.last_input_seq_by_client.remove(&client_id);
        let owned: bool = match self.inner.controller_id {
            Some(owner) => owner == client_id,
            None => false,
        };
        if owned {
            self.inner.release_all_inputs(&mut out);
            self.inner.controller_id = None;
            self.inner.warp.reset();
            proof {
                assert(out@ =~= start.inner.release_out());
            }
        }
        self.set_active_controller();
        proof {
            assert(self@ =~= start.unregistered(client_id));
        }
        out
    }

    pub(crate) fn set_active_controller(&mut self)
        requires
            old(self).inner.wf(),
        ensures
            final(self).wf(),
            final(self)@ == old(self)@.with_inner(old(self)@.inner),
    {
        self.active_controller_id = match self.inner.controller_id {
            Some(id) => id,
            None => 0,
        };
    }

    /// A number for the next client.
    pub fn allocate_client_id(&mut self) -> (id: u32)
        requires
            old(self).wf(),
        ensures
            final(self).wf(),
            id == old(self).next_client_id,
            final(self)@ == (RuntimeView {
                next_client_id: old(self).next_client_id.wrapping_add(1),
                ..old(self)@
            }),
    {
        let id: u32 = self.next_client_id;
        self.next_client_id = id.wrapping_add(1);
        id
    }

    /// What the state of control is to a client.
    pub fn controller_state_for(&self, client_id: u32) -> (state: ControllerState)
        ensures
            state == self@.control_seen_by(client_id),
    {
        if !self.inner.is_available() {
            return ControllerState::Unavailable;
        }
        match self.inner.controller_id {
            Some(owner) => if owner == client_id {
                ControllerState::OwnedByYou
            } else {
                ControllerState::OwnedByOther
            },
            None => ControllerState::Available,
        }
    }

    pub fn capabilities(&self) -> (out: InputCapabilities)
        ensures
            out == self@.inner.capabilities,
    {
        self.inner.capabilities
    }

    pub fn backend_label(&self) -> (out: String)
        ensures
            out@ == self@.inner.backend_label,
    {
        self.inner.backend_label.clone()
    }

    /// Whether a client is in control.
    pub fn control_active(&self) -> (yes: bool)
        ensures
            yes == (self@.active_controller_id != 0),
    {
        self.active_controller_id != 0
    }

    /// Gives control to a client that asks for it, from whoever has it.
    pub fn acquire_control(&mut self, client_id: u32) -> (out: (ControllerState, Vec<Injection>))
        requires
            old(self).wf(),
        ensures
            final(self).wf(),
            if old(self)@.inner.available() {
                &&& out.0 == ControllerState::OwnedByYou
                &&& out.1@ == old(self)@.inner.release_out()
                &&& final(self)@ == old(self)@.with_inner(
                    InnerView { controller_id: Some(client_id), ..old(self)@.inner.released() },
                )
            } else {
                &&& out.0 == ControllerState::Unavailable
                &&& out.1@ == Seq::<Injection>::empty()
                &&& final(self)@ == old(self)@
            },
    {
        let mut out: Vec<Injection> = Vec::new();
        if !self.inner.is_available() {
            return (ControllerState::Unavailable, out);
        }
        let ghost start = self@;
        self.inner.release_all_inputs(&mut out);
        self.inner.controller_id = Some(client_id);
        self.set_active_controller();
        proof {
            assert(out@ =~= start.inner.release_out());
        }
        (ControllerState::OwnedByYou, out)
    }

    /// Takes control back from a client that has it.
    pub fn release_control(&mut self, client_id: u32) -> (out: (ControllerState, Vec<Injection>))
        requires
            old(self).wf(),
        ensures
            final(self).wf(),
            out.0 == if old(self)@.inner.available() {
                ControllerState::Available
            } else {
                ControllerState::Unavailable
            },
            if old(self)@.inner.controller_id == Some(client_id) {
                &&& out.1@ == old(self)@.inner.release_out()
                &&& final(self)@ == old(self)@.with_inner(
                    InnerView { controller_id: None, ..old(self)@.inner.released() },
                )
            } else {
                &&& out.1@ == Seq::<Injection>::empty()
                &&& final(self)@ == old(self)@
            },
    {
        let mut out: Vec<Injection> = Vec::new();
        let ghost start = self@;
        let owned: bool = match self.inner.controller_id {
            Some(owner) => owner == client_id,
            None => false,
        };
        if owned {
            self.inner.release_all_inputs(&mut out);
            self.inner.controller_id = None;
            proof {
                assert(out@ =~= start.inner.release_out());
            }
        }
        self.set_active_controller();
        let state = if self.inner.is_available() {
            ControllerState::Available
        } else {
            ControllerState::Unavailable
        };
        (state, out)
    }
}

impl InputRuntime {
    /// Handles a packet that came over the network.
    pub fn handle_input_packet(
        &mut self,
        seq: u16,
        credential: InputCredential,
        packet: InputPacket,
        src: MediaAddr,
    ) -> (effect: PacketEffect)
        requires
            old(self).wf(),
        ensures
            final(self).wf(),
            final(self)@ == old(self)@.after_packet(
                seq,
                credential.bytes@,
                packet,
                InputPacketSource::Direct(src),
            ),
            effect.injections@ == old(self)@.packet_out(
                seq,
                credential.bytes@,
                packet,
                InputPacketSource::Direct(src),
            ),
            effect.media_moved == old(self)@.packet_moves(
                seq,
                credential.bytes@,
                packet,
                InputPacketSource::Direct(src),
            ),
    {
        self.handle_registered_input_packet(
            seq,
            credential,
            packet,
            InputPacketSource::Direct(src),
        )
    }

    /// Handles a packet that came through the tunnel of a client. It counts only where it
    /// names that client.
    pub fn handle_tunnel_input_packet(
        &mut self,
        seq: u16,
        credential: InputCredential,
        packet: InputPacket,
        client_id: u32,
    ) -> (effect: PacketEffect)
        requires
            old(self).wf(),
        ensures
            final(self).wf(),
            effect.media_moved is None,
            if packet.sender() == client_id {
                &&& final(self)@ == old(self)@.after_packet(
                    seq,
                    credential.bytes@,
                    packet,
                    InputPacketSource::Tunnel,
                )
                &&& effect.injections@ == old(self)@.packet_out(
                    seq,
                    credential.bytes@,
                    packet,
                    InputPacketSource::Tunnel,
                )
            } else {
                &&& final(self)@ == old(self)@
                &&& effect.injections@ == Seq::<Injection>::empty()
            },
    {
        if input_packet_client_id(&packet) != client_id {
            return PacketEffect { media_moved: None, injections: Vec::new() };
        }
        self.handle_registered_input_packet(seq, credential, packet, InputPacketSource::Tunnel)
    }

    fn handle_registered_input_packet(
        &mut self,
        seq: u16,
        credential: InputCredential,
        packet: InputPacket,
        source: InputPacketSource,
    ) -> (effect: PacketEffect)
        requires
            old(self).wf(),
        ensures
            final(self).wf(),
            final(self)@ == old(self)@.after_packet(seq, credential.bytes@, packet, source),
            effect.injections@ == old(self)@.packet_out(seq, credential.bytes@, packet, source),
            effect.media_moved == old(self)@.packet_moves(seq, credential.bytes@, packet, source),
    {
        let client_id: u32 = input_packet_client_id(&packet);
        if !self.is_admitted(&credential, &packet, source) {
            return PacketEffect { media_moved: None, injections: Vec::new() };
        }
        if !self.inner.accept_input_seq(client_id, seq) {
            return PacketEffect { media_moved: None, injections: Vec::new() };
        }
        let media_moved = self.learn_return_path(&packet, source);
        let injections = self.drive_by(packet);
        PacketEffect { media_moved, injections }
    }

    fn is_admitted(
        &self,
        credential: &InputCredential,
        packet: &InputPacket,
        source: InputPacketSource,
    ) -> (yes: bool)
        requires
            self.wf(),
        ensures
            yes == self@.admits(credential.bytes@, *packet, source),
    {
        let client: ActiveInputClient = match self.active_clients.get(&input_packet_client_id(packet)) {
            Some(client) => *client,
            None => {
                return false;
            },
        };
        let known: bool = match &client {
            ActiveInputClient::Direct { credential: expected, .. } => expected.same(credential),
            ActiveInputClient::Tunnel { credential: expected, .. } => expected.same(credential),
        };
        if !known {
            return false;
        }
        match (client, source) {
            (
                ActiveInputClient::Direct { source_ip, .. },
                InputPacketSource::Direct(src),
            ) => source_ip == src.ip,
            (ActiveInputClient::Tunnel { .. }, InputPacketSource::Tunnel) => true,
            _ => false,
        }
    }

    fn learn_return_path(&mut self, packet: &InputPacket, source: InputPacketSource) -> (moved:
        Option<MediaAddr>)
        requires
            old(self).wf(),
            old(self)@.clients.contains_key(packet.sender()),
        ensures
            final(self).wf(),
            final(self)@ == (RuntimeView {
                clients: old(self)@.moved_clients(*packet, source),
                ..old(self)@
            }),
            moved == old(self)@.new_destination(*packet, source),
    {
        let ghost start = self@;
        let client_id: u32 = input_packet_client_id(packet);
        let client: ActiveInputClient = match self.active_clients.get(&client_id) {
            Some(client) => *client,
            None => {
                return None;
            },
        };
        match (client, source) {
            (
                ActiveInputClient::Direct { credential, source_ip, media_dest, text_rate },
                InputPacketSource::Direct(src),
            ) => {
                if media_dest != src {
                    let _ = self.active_clients.insert(
                        client_id,
                        ActiveInputClient::Direct {
                            credential,
                            source_ip,
                            media_dest: src,
                            text_rate,
                        },
                    );
                    Some(src)
                } else {
                    proof {
                        assert(start.moved_clients(*packet, source) =~= start.clients);
                    }
                    None
                }
            },
            _ => None,
        }
    }

    fn drive_by(&mut self, packet: InputPacket) -> (out: Vec<Injection>)
        requires
            old(self).wf(),
        ensures
            final(self).wf(),
            if old(self)@.may_drive(packet) {
                let id = packet.sender();
                &&& final(self)@ == old(self)@.with_inner(
                    old(self)@.inner.activated(id).driven(packet),
                )
                &&& out@ == old(self)@.inner.activate_out(id) + old(self)@.inner.activated(
                    id,
                ).drive_out(packet)
            } else {
                &&& final(self)@ == old(self)@
                &&& out@ == Seq::<Injection>::empty()
            },
    {
        let mut out: Vec<Injection> = Vec::new();
        let ghost start = self@;
        let client_id: u32 = input_packet_client_id(&packet);
        if !self.inner.is_available() {
            return out;
        }
        match self.inner.controller_id {
            Some(owner) => {
                if owner != client_id {
                    return out;
                }
            },
            None => {
                if input_packet_is_neutral(&packet) {
                    return out;
                }
            },
        }
        self.inner.activate_controller(client_id, &mut out);
        proof {
            assert(out@ =~= start.inner.activate_out(client_id));
        }
        self.inner.drive(packet, &mut out);
        self.set_active_controller();
        out
    }

    /// Handles a text that a client wants typed. Where it is accepted, gives what to
    /// inject; the text itself goes where the list says.
    pub fn handle_text_input(&mut self, client_id: u32, text: &str, now: u64) -> (out: Option<
        Vec<Injection>,
    >)
        requires
            old(self).wf(),
        ensures
            final(self).wf(),
            final(self)@ == old(self)@.after_text(client_id, text@, now),
            match out {
                Some(list) => old(self)@.accepts_text(client_id, text@, now) && list@ == old(
                    self,
                )@.inner.activate_out(client_id) + old(self)@.inner.activated(client_id).text_out(),
                None => !old(self)@.accepts_text(client_id, text@, now),
            },
    {
        let ghost start = self@;
        if text.is_empty() || text.len() > MAX_TEXT_INPUT_BYTES || contains_nul(text) {
            return None;
        }
        let client: ActiveInputClient = match self.active_clients.get(&client_id) {
            Some(client) => *client,
            None => {
                return None;
            },
        };
        let mut rate: TextInputRateLimiter = match client {
            ActiveInputClient::Direct { text_rate, .. } => text_rate,
            ActiveInputClient::Tunnel { text_rate, .. } => text_rate,
        };
        let allowed: bool = rate.allow(text.len(), now);
        let counted: ActiveInputClient = match client {
            ActiveInputClient::Direct { credential, source_ip, media_dest, .. } =>
                ActiveInputClient::Direct { credential, source_ip, media_dest, text_rate: rate },
            ActiveInputClient::Tunnel { credential, .. } => ActiveInputClient::Tunnel {
                credential,
                text_rate: rate,
            },
        };
        let _ = self.active_clients.insert(client_id, counted);
        proof {
            assert(self@ =~= start.text_counted(client_id, text.len(), now));
        }
        if !allowed {
            return None;
        }
        if !self.inner.capabilities.keyboard || !self.inner.capabilities.text_input
            || !self.inner.is_available() {
            return None;
        }
        if let Some(owner) = self.inner.controller_id {
            if owner != client_id {
                return None;
            }
        }
        let mut out: Vec<Injection> = Vec::new();
        self.inner.activate_controller(client_id, &mut out);
        proof {
            assert(out@ =~= start.inner.activate_out(client_id));
        }
        self.inner.inject_text(&mut out);
        self.set_active_controller();
        Some(out)
    }
}

impl InputRuntimeInner {
    /// Carries out a packet of the client in control.
    fn drive(&mut self, packet: InputPacket, out: &mut Vec<Injection>)
        requires
            old(self).wf(),
        ensures
            final(self).wf(),
            final(self)@ == old(self)@.driven(packet),
            final(out)@ == old(out)@ + old(self)@.drive_out(packet),
    {
        let ghost start = self@;
        let ghost before = out@;
        match packet {
            InputPacket::MouseAbsolute(p) => {
                self.sync_buttons(p.buttons, out);
                if self.is_available() {
                    out.push(Injection::MoveAbsolute { x: p.x, y: p.y });
                }
                let sx: i32 = normalized_to_stream_coord(p.x, self.stream_width);
                let sy: i32 = normalized_to_stream_coord(p.y, self.stream_height);
                self.warp.observe_command_absolute(sx as i64, sy as i64);
            },
            InputPacket::MouseRelative(p) => {
                self.sync_buttons(p.buttons, out);
                if self.is_available() {
                    out.push(Injection::MoveRelative { dx: p.dx, dy: p.dy });
                }
                self.warp.observe_command_relative(p.dx as i64, p.dy as i64);
            },
            InputPacket::MouseButtons(p) => {
                self.sync_buttons(p.buttons, out);
            },
            InputPacket::MouseWheel(p) => {
                self.sync_buttons(p.buttons, out);
                if self.is_available() {
                    out.push(Injection::Scroll { delta_x: p.delta_x, delta_y: p.delta_y });
                }
            },
            InputPacket::KeyboardState(p) => {
                self.sync_keyboard(p.pressed, out);
            },
        }
        proof {
            assert(self@ =~= start.driven(packet));
            assert(out@ =~= before + start.drive_out(packet));
        }
    }

    /// Lists what typing a text injects.
    fn inject_text(&self, out: &mut Vec<Injection>)
        ensures
            final(out)@ == old(out)@ + self@.text_out(),
    {
        if !self.is_available() {
            proof {
                assert(out@ =~= out@ + self@.text_out());
            }
            return;
        }
        let held = pressed_modifiers(&self.keyboard_state);
        let ghost before = out@;
        let ghost h = held@;
        let ghost up = Seq::new(
            h.len(),
            |i: int| Injection::Key { key: h[h.len() - 1 - i], down: false },
        );
        let ghost down = Seq::new(h.len(), |i: int| Injection::Key { key: h[i], down: true });
        let count: usize = held.len();
        let mut i: usize = count;
        proof {
            assert(out@ =~= before + up.subrange(0, 0));
        }
        while i > 0
            invariant
                i <= count,
                count == h.len(),
                h == held@,
                up == Seq::new(
                    h.len(),
                    |i: int| Injection::Key { key: h[h.len() - 1 - i], down: false },
                ),
                out@ == before + up.subrange(0, count - i),
            decreases i,
        {
            i = i - 1;
            out.push(Injection::Key { key: held[i], down: false });
            proof {
                assert(out@ =~= before + up.subrange(0, count - i));
            }
        }
        let types: bool = match self.backend {
            InputBackend::Windows => true,
            InputBackend::Macos => true,
            _ => false,
        };
        proof {
            assert(up.subrange(0, count as int) =~= up);
        }
        let ghost mut middle = before + up;
        if types {
            out.push(Injection::Text);
            proof {
                middle = (before + up).push(Injection::Text);
            }
        }
        let mut j: usize = 0;
        proof {
            assert(out@ =~= middle + down.subrange(0, 0));
        }
        while j < count
            invariant
                j <= count,
                count == h.len(),
                h == held@,
                down == Seq::new(h.len(), |i: int| Injection::Key { key: h[i], down: true }),
                out@ == middle + down.subrange(0, j as int),
            decreases count - j,
        {
            out.push(Injection::Key { key: held[j], down: true });
            j = j + 1;
            proof {
                assert(out@ =~= middle + down.subrange(0, j as int));
            }
        }
        proof {
            assert(down.subrange(0, count as int) =~= down);
            assert(out@ =~= before + self@.text_out());
        }
    }
}

/// A packet that does not carry the credential of a registered client, or that comes from
/// elsewhere, changes nothing: no sequence number, no destination, no input.
pub proof fn unadmitted_packet_changes_nothing(
    v: RuntimeView,
    seq: u16,
    credential: Seq<u8>,
    packet: InputPacket,
    source: InputPacketSource,
)
    requires
        !v.admits(credential, packet, source),
    ensures
        v.after_packet(seq, credential, packet, source) == v,
        v.packet_out(seq, credential, packet, source) == Seq::<Injection>::empty(),
        v.packet_moves(seq, credential, packet, source) is None,
{
}

/// A packet never takes control from its owner: one of another client injects nothing and
/// leaves what the owner holds as it is.
pub proof fn packets_never_steal_control(
    v: RuntimeView,
    seq: u16,
    credential: Seq<u8>,
    packet: InputPacket,
    source: InputPacketSource,
)
    requires
        v.inner.controller_id matches Some(owner) && owner != packet.sender(),
    ensures
        v.packet_out(seq, credential, packet, source) == Seq::<Injection>::empty(),
        ({
            let after = v.after_packet(seq, credential, packet, source);
            &&& after.inner.controller_id == v.inner.controller_id
            &&& after.inner.button_mask == v.inner.button_mask
            &&& after.inner.keyboard == v.inner.keyboard
            &&& after.active_controller_id == v.active_controller_id
        }),
{
}

/// A packet that presses nothing and moves nothing does not claim control.
pub proof fn neutral_packets_claim_nothing(
    v: RuntimeView,
    seq: u16,
    credential: Seq<u8>,
    packet: InputPacket,
    source: InputPacketSource,
)
    requires
        v.inner.controller_id is None,
        packet.neutral(),
    ensures
        v.after_packet(seq, credential, packet, source).inner.controller_id is None,
        v.packet_out(seq, credential, packet, source) == Seq::<Injection>::empty(),
{
}

/// A packet that comes a second time does nothing more.
pub proof fn replayed_packet_changes_nothing(
    v: RuntimeView,
    seq: u16,
    credential: Seq<u8>,
    packet: InputPacket,
    source: InputPacketSource,
)
    requires
        v.admits(credential, packet, source),
    ensures
        ({
            let after = v.after_packet(seq, credential, packet, source);
            &&& after.after_packet(seq, credential, packet, source) == after
            &&& after.packet_out(seq, credential, packet, source) == Seq::<Injection>::empty()
        }),
{
    let after = v.after_packet(seq, credential, packet, source);
    let id = packet.sender();
    if v.inner.accepts_seq(id, seq) {
        assert(after.inner.last_seq[id] == seq);
        newer_is_one_way(seq, seq);
        assert(!after.inner.accepts_seq(id, seq));
    }
}

/// Ending a registration lets go of everything that the client held and forgets it.
pub proof fn unregistering_releases_everything(v: RuntimeView, client_id: u32)
    ensures
        ({
            let after = v.unregistered(client_id);
            &&& !after.clients.contains_key(client_id)
            &&& !after.inner.last_seq.contains_key(client_id)
            &&& after.inner.controller_id != Some(client_id)
            &&& v.inner.controller_id == Some(client_id) ==> after.inner.button_mask == 0
                && nothing_pressed(after.inner.keyboard) && after.active_controller_id == 0
        }),
{
}

/// Whoever sends input while nobody is in control takes control, where the packet does
/// something and is newer than the last.
pub proof fn first_input_takes_control(
    v: RuntimeView,
    seq: u16,
    credential: Seq<u8>,
    packet: InputPacket,
    source: InputPacketSource,
)
    requires
        v.admits(credential, packet, source),
        v.inner.accepts_seq(packet.sender(), seq),
        v.inner.available(),
        v.inner.controller_id is None,
        !packet.neutral(),
    ensures
        v.after_packet(seq, credential, packet, source).inner.controller_id == Some(
            packet.sender(),
        ),
{
}

} // verus!
