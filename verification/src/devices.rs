//! The events that each kind of input device is sent.

use vstd::prelude::*;
use crate::keys::{
    linux_code, linux_key_code, windows_key_scan_code, windows_key_virtual_key, windows_scan,
    windows_virtual, x11_key_name, x11_name, KeyboardKey,
};
use crate::pointer::{
    clamped, linux_button, linux_button_code, wheel_steps, WheelAccumulator, MOUSE_BUTTON_EXTRA1,
    MOUSE_BUTTON_EXTRA2, MOUSE_BUTTON_MIDDLE, MOUSE_BUTTON_PRIMARY, MOUSE_BUTTON_SECONDARY,
};

verus! {

/// The pixel of a side of `span` pixels that a normalized coordinate falls on.
pub open spec fn side_coord(value: u16, span: i32) -> int {
    let span = if span < 1 {
        1
    } else {
        span as int
    };
    (value * (span - 1) + 32767) / 65535
}

fn coord_on_side(value: u16, span: i32) -> (out: i32)
    ensures
        out == side_coord(value, span),
        0 <= out,
        out < span || out == 0,
{
    let span: i64 = if span < 1 {
        1
    } else {
        span as i64
    };
    proof {
        assert(0 <= value * (span - 1) <= 65535 * (span - 1)) by (nonlinear_arith)
            requires
                0 <= value <= 65535,
                span >= 1,
        ;
    }
    ((value as i64 * (span - 1) + 32767) / 65535) as i32
}

fn clamp(n: i64, low: i32, high: i32) -> (out: i32)
    requires
        low <= high,
    ensures
        out == clamped(n as int, low as int, high as int),
{
    if n < low as i64 {
        low
    } else if n > high as i64 {
        high
    } else {
        n as i32
    }
}

/// The last pixel of a side.
pub open spec fn last_pixel(span: i32) -> int {
    if span < 1 {
        0
    } else {
        span - 1
    }
}

fn last_of(span: i32) -> (out: i32)
    ensures
        out == last_pixel(span),
{
    if span < 1 {
        0
    } else {
        span - 1
    }
}

/// A request to the XTest extension. Each one is followed by a flush.
#[derive(Clone, Copy, Debug, PartialEq, Eq)]
pub enum X11Event {
    Motion { x: i32, y: i32 },
    RelativeMotion { dx: i16, dy: i16 },
    Button { button: u32, pressed: bool },
    Key { name: &'static str, pressed: bool },
}

/// The pointer and wheel state of an X11 display.
#[derive(Clone, Copy, Debug)]
pub struct X11Controller {
    pub width: i32,
    pub height: i32,
    pub tracked_x: i32,
    pub tracked_y: i32,
    pub wheel: WheelAccumulator,
}

/// Clicks of the wheel button, press and release in turn, for a number of steps: at most
/// thirty-two, on one button for steps up and on the other for steps down.
pub open spec fn wheel_clicks(steps: int, up: u32, down: u32) -> Seq<X11Event> {
    let button = if steps > 0 {
        up
    } else {
        down
    };
    let count = clamped(if steps < 0 {
        -steps
    } else {
        steps
    }, 0, 32);
    Seq::new((2 * count) as nat, |i: int| X11Event::Button { button, pressed: i % 2 == 0 })
}

fn scroll_axis(out: &mut Vec<X11Event>, steps: i16, up: u32, down: u32)
    ensures
        final(out)@ == old(out)@ + wheel_clicks(steps as int, up, down),
{
    let magnitude: i32 = if steps < 0 {
        -(steps as i32)
    } else {
        steps as i32
    };
    let count: i32 = if magnitude > 32 {
        32
    } else {
        magnitude
    };
    let button: u32 = if steps > 0 {
        up
    } else {
        down
    };
    let ghost before = out@;
    let ghost clicks = wheel_clicks(steps as int, up, down);
    let mut i: i32 = 0;
    proof {
        assert(out@ =~= before + clicks.subrange(0, 0));
    }
    while i < count
        invariant
            0 <= i <= count <= 32,
            clicks == wheel_clicks(steps as int, up, down),
            clicks.len() == 2 * count,
            button == if steps > 0 {
                up
            } else {
                down
            },
            out@ == before + clicks.subrange(0, 2 * i),
        decreases count - i,
    {
        out.push(X11Event::Button { button, pressed: true });
        out.push(X11Event::Button { button, pressed: false });
        i = i + 1;
        proof {
            assert((2 * i - 2) % 2 == 0);
            assert((2 * i - 1) % 2 == 1);
            assert(out@ =~= before + clicks.subrange(0, 2 * i));
        }
    }
    proof {
        assert(clicks.subrange(0, 2 * i) =~= clicks);
    }
}

impl X11Controller {
    pub open spec fn wf(self) -> bool {
        self.wheel.wf()
    }

    pub fn new(width: i32, height: i32, pointer_x: i32, pointer_y: i32) -> (out: Self)
        ensures
            out.wf(),
            out.width == width,
            out.height == height,
            out.tracked_x == pointer_x,
            out.tracked_y == pointer_y,
            out.wheel.x_units == 0 && out.wheel.y_units == 0,
    {
        X11Controller {
            width,
            height,
            tracked_x: pointer_x,
            tracked_y: pointer_y,
            wheel: WheelAccumulator::new(),
        }
    }

    /// Moves the pointer to a normalized position; it lands there exactly.
    pub fn move_absolute(&mut self, x: u16, y: u16) -> (event: X11Event)
        requires
            old(self).wf(),
        ensures
            final(self).wf(),
            event == (X11Event::Motion {
                x: side_coord(x, old(self).width) as i32,
                y: side_coord(y, old(self).height) as i32,
            }),
            *final(self) == (X11Controller {
                tracked_x: side_coord(x, old(self).width) as i32,
                tracked_y: side_coord(y, old(self).height) as i32,
                ..*old(self)
            }),
    {
        self.tracked_x = coord_on_side(x, self.width);
        self.tracked_y = coord_on_side(y, self.height);
        X11Event::Motion { x: self.tracked_x, y: self.tracked_y }
    }

    /// Moves the pointer by a distance.
    pub fn move_relative(&mut self, dx: i16, dy: i16) -> (event: X11Event)
        requires
            old(self).wf(),
        ensures
            final(self).wf(),
            event == (X11Event::RelativeMotion { dx, dy }),
            *final(self) == (X11Controller {
                tracked_x: clamped(old(self).tracked_x + dx, 0, last_pixel(old(self).width)) as i32,
                tracked_y: clamped(old(self).tracked_y + dy, 0, last_pixel(old(self).height)) as i32,
                ..*old(self)
            }),
    {
        self.tracked_x = clamp(self.tracked_x as i64 + dx as i64, 0, last_of(self.width));
        self.tracked_y = clamp(self.tracked_y as i64 + dy as i64, 0, last_of(self.height));
        X11Event::RelativeMotion { dx, dy }
    }

    pub fn button(&self, button: u32, pressed: bool) -> (event: X11Event)
        ensures
            event == (X11Event::Button { button, pressed }),
    {
        X11Event::Button { button, pressed }
    }

    /// Turns wheel units into clicks: buttons four and five for the vertical axis, six
    /// and seven for the horizontal one.
    pub fn scroll(&mut self, delta_x: i16, delta_y: i16) -> (events: Vec<X11Event>)
        requires
            old(self).wf(),
        ensures
            final(self).wf(),
            events@ == wheel_clicks(wheel_steps(old(self).wheel.y_units, delta_y), 4, 5)
                + wheel_clicks(wheel_steps(old(self).wheel.x_units, delta_x), 6, 7),
            *final(self) == (X11Controller {
                wheel: old(self).wheel.after(delta_x, delta_y),
                ..*old(self)
            }),
    {
        let (step_x, step_y) = self.wheel.push_and_take_steps(delta_x, delta_y);
        let mut events: Vec<X11Event> = Vec::new();
        scroll_axis(&mut events, step_y, 4, 5);
        scroll_axis(&mut events, step_x, 6, 7);
        events
    }

    /// The request for a key; `None` for a key that X11 has no name for.
    pub fn key(&self, key: KeyboardKey, pressed: bool) -> (event: Option<X11Event>)
        ensures
            match event {
                Some(e) => e matches X11Event::Key { name, pressed: down } && x11_name(key) == Some(
                    name@,
                ) && down == pressed,
                None => x11_name(key) is None,
            },
    {
        match x11_key_name(key) {
            Some(name) => Some(X11Event::Key { name, pressed }),
            None => None,
        }
    }
}

pub const EV_SYN: u16 = 0x00;

pub const EV_KEY: u16 = 0x01;

pub const EV_REL: u16 = 0x02;

pub const EV_ABS: u16 = 0x03;

pub const ABS_X: u16 = 0x00;

pub const ABS_Y: u16 = 0x01;

/// The range of the absolute axes, that of normalized coordinates.
pub const ABS_AXIS_MAX: i32 = 65535;

pub const SYN_REPORT: u16 = 0;

pub const REL_X: u16 = 0x00;

pub const REL_Y: u16 = 0x01;

pub const REL_HWHEEL: u16 = 0x06;

pub const REL_WHEEL: u16 = 0x08;

pub const REL_WHEEL_HI_RES: u16 = 0x0b;

pub const REL_HWHEEL_HI_RES: u16 = 0x0c;

/// An event for a virtual device of the kernel.
#[derive(Clone, Copy, Debug, PartialEq, Eq, Structural)]
pub struct UinputEvent {
    /// Whether it goes to the device with absolute axes.
    pub absolute: bool,
    pub kind: u16,
    pub code: u16,
    pub value: i32,
}

/// An event of the device with relative axes.
pub open spec fn rel_event(kind: u16, code: u16, value: int) -> UinputEvent {
    UinputEvent { absolute: false, kind, code, value: value as i32 }
}

/// The end of a report of that device.
pub open spec fn rel_sync() -> UinputEvent {
    rel_event(EV_SYN, SYN_REPORT, 0)
}

/// One event, unless its value is zero.
pub open spec fn unless_zero(kind: u16, code: u16, value: int) -> Seq<UinputEvent> {
    if value == 0 {
        Seq::empty()
    } else {
        seq![rel_event(kind, code, value)]
    }
}

fn emit(kind: u16, code: u16, value: i32) -> (event: UinputEvent)
    ensures
        event == rel_event(kind, code, value as int),
{
    UinputEvent { absolute: false, kind, code, value }
}

fn emit_unless_zero(out: &mut Vec<UinputEvent>, kind: u16, code: u16, value: i32)
    ensures
        final(out)@ == old(out)@ + unless_zero(kind, code, value as int),
{
    let ghost before = out@;
    if value != 0 {
        out.push(emit(kind, code, value));
        proof {
            assert(out@ =~= before + unless_zero(kind, code, value as int));
        }
    } else {
        proof {
            assert(before =~= before + unless_zero(kind, code, value as int));
        }
    }
}

/// A virtual mouse and keyboard, perhaps with a second pointer with absolute axes.
#[derive(Clone, Copy, Debug, PartialEq, Eq, Structural)]
pub struct UinputController {
    pub absolute: bool,
    pub wheel: WheelAccumulator,
}

/// What a button or key event of that device looks like.
pub open spec fn key_report(code: u16, pressed: bool) -> Seq<UinputEvent> {
    seq![rel_event(EV_KEY, code, if pressed {
        1
    } else {
        0
    }), rel_sync()]
}

/// A scroll as the kernel takes it: fine units first, then whole steps, then the end of
/// the report if there was anything.
pub open spec fn scroll_report(wheel: WheelAccumulator, dx: i16, dy: i16) -> Seq<UinputEvent> {
    let body = unless_zero(EV_REL, REL_WHEEL_HI_RES, dy as int) + unless_zero(
        EV_REL,
        REL_HWHEEL_HI_RES,
        dx as int,
    ) + unless_zero(EV_REL, REL_WHEEL, wheel_steps(wheel.y_units, dy)) + unless_zero(
        EV_REL,
        REL_HWHEEL,
        wheel_steps(wheel.x_units, dx),
    );
    if body.len() == 0 {
        body
    } else {
        body.push(rel_sync())
    }
}

fn report(code: u16, pressed: bool) -> (events: Vec<UinputEvent>)
    ensures
        events@ == key_report(code, pressed),
{
    let mut events: Vec<UinputEvent> = Vec::new();
    let value: i32 = if pressed {
        1
    } else {
        0
    };
    events.push(emit(EV_KEY, code, value));
    events.push(emit(EV_SYN, SYN_REPORT, 0));
    proof {
        assert(events@ =~= key_report(code, pressed));
    }
    events
}

impl UinputController {
    pub open spec fn wf(self) -> bool {
        self.wheel.wf()
    }

    pub fn new(absolute: bool) -> (out: Self)
        ensures
            out.wf(),
            out.absolute == absolute,
            out.wheel.x_units == 0 && out.wheel.y_units == 0,
    {
        UinputController { absolute, wheel: WheelAccumulator::new() }
    }

    pub fn supports_absolute(&self) -> (yes: bool)
        ensures
            yes == self.absolute,
    {
        self.absolute
    }

    /// Moves the pointer to a normalized position, where the absolute device exists.
    pub fn move_absolute(&self, x: u16, y: u16) -> (events: Vec<UinputEvent>)
        ensures
            events@ == if self.absolute {
                seq![
                    UinputEvent { absolute: true, kind: EV_ABS, code: ABS_X, value: x as i32 },
                    UinputEvent { absolute: true, kind: EV_ABS, code: ABS_Y, value: y as i32 },
                    UinputEvent { absolute: true, kind: EV_SYN, code: SYN_REPORT, value: 0 },
                ]
            } else {
                Seq::empty()
            },
    {
        let mut events: Vec<UinputEvent> = Vec::new();
        if self.absolute {
            events.push(UinputEvent { absolute: true, kind: EV_ABS, code: ABS_X, value: x as i32 });
            events.push(UinputEvent { absolute: true, kind: EV_ABS, code: ABS_Y, value: y as i32 });
            events.push(UinputEvent { absolute: true, kind: EV_SYN, code: SYN_REPORT, value: 0 });
        }
        events
    }

    /// Moves the pointer by a distance.
    pub fn move_relative(&self, dx: i16, dy: i16) -> (events: Vec<UinputEvent>)
        ensures
            events@ == (unless_zero(EV_REL, REL_X, dx as int) + unless_zero(
                EV_REL,
                REL_Y,
                dy as int,
            )).push(rel_sync()),
    {
        let mut events: Vec<UinputEvent> = Vec::new();
        emit_unless_zero(&mut events, EV_REL, REL_X, dx as i32);
        emit_unless_zero(&mut events, EV_REL, REL_Y, dy as i32);
        proof {
            assert(events@ =~= unless_zero(EV_REL, REL_X, dx as int) + unless_zero(
                EV_REL,
                REL_Y,
                dy as int,
            ));
        }
        events.push(emit(EV_SYN, SYN_REPORT, 0));
        events
    }

    /// Presses or releases a button; a number that no button has does nothing.
    pub fn button(&self, button: u32, pressed: bool) -> (events: Vec<UinputEvent>)
        ensures
            events@ == match linux_button(button) {
                Some(code) => key_report(code, pressed),
                None => Seq::empty(),
            },
    {
        match linux_button_code(button) {
            Some(code) => report(code, pressed),
            None => Vec::new(),
        }
    }

    /// Scrolls by wheel units.
    pub fn scroll(&mut self, delta_x: i16, delta_y: i16) -> (events: Vec<UinputEvent>)
        requires
            old(self).wf(),
        ensures
            final(self).wf(),
            events@ == scroll_report(old(self).wheel, delta_x, delta_y),
            *final(self) == (UinputController {
                wheel: old(self).wheel.after(delta_x, delta_y),
                ..*old(self)
            }),
    {
        let mut events: Vec<UinputEvent> = Vec::new();
        emit_unless_zero(&mut events, EV_REL, REL_WHEEL_HI_RES, delta_y as i32);
        emit_unless_zero(&mut events, EV_REL, REL_HWHEEL_HI_RES, delta_x as i32);
        let (step_x, step_y) = self.wheel.push_and_take_steps(delta_x, delta_y);
        emit_unless_zero(&mut events, EV_REL, REL_WHEEL, step_y as i32);
        emit_unless_zero(&mut events, EV_REL, REL_HWHEEL, step_x as i32);
        proof {
            assert(events@ =~= unless_zero(EV_REL, REL_WHEEL_HI_RES, delta_y as int) + unless_zero(
                EV_REL,
                REL_HWHEEL_HI_RES,
                delta_x as int,
            ) + unless_zero(EV_REL, REL_WHEEL, step_y as int) + unless_zero(
                EV_REL,
                REL_HWHEEL,
                step_x as int,
            ));
        }
        if events.len() > 0 {
            events.push(emit(EV_SYN, SYN_REPORT, 0));
        }
        events
    }

    /// Presses or releases a key.
    pub fn key(&self, key: KeyboardKey, pressed: bool) -> (events: Vec<UinputEvent>)
        ensures
            events@ == match linux_code(key) {
                Some(code) => key_report(code, pressed),
                None => Seq::empty(),
            },
    {
        match linux_key_code(key) {
            Some(code) => report(code, pressed),
            None => Vec::new(),
        }
    }
}

/// The codes of the first `n` keys.
pub open spec fn key_codes(n: int) -> Seq<u16>
    decreases n,
{
    if n <= 0 {
        Seq::empty()
    } else {
        match linux_code(KeyboardKey::numbered(n - 1)->0) {
            Some(code) => key_codes(n - 1).push(code),
            None => key_codes(n - 1),
        }
    }
}

/// The key and button codes that the virtual mouse and keyboard announces, in order.
pub fn uinput_key_bits() -> (out: Vec<u16>)
    ensures
        out@ == seq![0x110u16, 0x111, 0x112, 0x113, 0x114] + key_codes(KeyboardKey::COUNT as int),
{
    let mut out: Vec<u16> = Vec::new();
    out.push(0x110);
    out.push(0x111);
    out.push(0x112);
    out.push(0x113);
    out.push(0x114);
    let ghost buttons = seq![0x110u16, 0x111, 0x112, 0x113, 0x114];
    let mut number: u8 = 0;
    proof {
        assert(out@ =~= buttons + key_codes(0));
    }
    while (number as usize) < KeyboardKey::COUNT
        invariant
            number <= KeyboardKey::COUNT,
            out@ == buttons + key_codes(number as int),
        decreases KeyboardKey::COUNT - number,
    {
        if let Some(key) = KeyboardKey::from_u8(number) {
            if let Some(code) = linux_key_code(key) {
                let ghost before = out@;
                out.push(code);
                proof {
                    assert(out@ =~= buttons + key_codes(number + 1));
                }
            }
        }
        number = number + 1;
    }
    out
}

/// Whether the second pointer with absolute axes is created, by `ST_UINPUT_ABSOLUTE`.
pub fn uinput_absolute_enabled(value: Option<&str>) -> (on: bool)
    ensures
        on == crate::transport::on_by_default(crate::transport::text_of(value)),
{
    crate::transport::enabled_by_default(value)
}

/// The desktop that all screens of a Windows machine make up.
#[derive(Clone, Copy, Debug, PartialEq, Eq, Structural)]
pub struct VirtualScreen {
    pub origin_x: i32,
    pub origin_y: i32,
    pub width: i32,
    pub height: i32,
}

impl VirtualScreen {
    /// That the desktop has pixels and that they have coordinates.
    pub open spec fn wf(self) -> bool {
        &&& self.width >= 1
        &&& self.height >= 1
        &&& self.origin_x + self.width - 1 <= i32::MAX
        &&& self.origin_y + self.height - 1 <= i32::MAX
    }
}

/// The desktop for what the system reports of it; a side is at least one pixel.
pub fn virtual_screen_of(origin_x: i32, origin_y: i32, width: i32, height: i32) -> (out:
    VirtualScreen)
    ensures
        out == (VirtualScreen {
            origin_x,
            origin_y,
            width: (last_pixel(width) + 1) as i32,
            height: (last_pixel(height) + 1) as i32,
        }),
{
    VirtualScreen {
        origin_x,
        origin_y,
        width: if width < 1 {
            1
        } else {
            width
        },
        height: if height < 1 {
            1
        } else {
            height
        },
    }
}

/// What a mouse event does.
#[derive(Clone, Copy, Debug, PartialEq, Eq, Structural)]
pub enum WindowsMouseAction {
    /// To a position on the whole desktop.
    MoveAbsolute,
    MoveRelative,
    LeftDown,
    LeftUp,
    MiddleDown,
    MiddleUp,
    RightDown,
    RightUp,
    ExtraDown,
    ExtraUp,
    Wheel,
    HorizontalWheel,
}

/// A mouse event of Windows.
#[derive(Clone, Copy, Debug, PartialEq, Eq, Structural)]
pub struct WindowsMouseEvent {
    pub action: WindowsMouseAction,
    pub dx: i32,
    pub dy: i32,
    /// The wheel units, or the number of the extra button.
    pub data: i32,
}

/// A keyboard event of Windows.
#[derive(Clone, Copy, Debug, PartialEq, Eq, Structural)]
pub struct WindowsKeyEvent {
    pub virtual_key: u16,
    pub scan: u16,
    /// Whether the scan code says which key it is.
    pub by_scan_code: bool,
    pub extended: bool,
    /// Whether the scan code is a unit of text.
    pub unicode: bool,
    pub key_up: bool,
}

/// A pixel as a fraction of a side, in the units of an absolute move.
pub open spec fn windows_absolute(coord: int, span: int) -> int {
    if span <= 1 {
        0
    } else {
        (coord * 65535 + (span - 1) / 2) / (span - 1)
    }
}

/// Turns a pixel into the units of an absolute move.
pub fn normalize_windows_absolute(coord: i32, span: i32) -> (out: i32)
    requires
        0 <= coord,
        coord < span || span <= 1,
    ensures
        out == windows_absolute(coord as int, span as int),
{
    if span <= 1 {
        0
    } else {
        let last: i64 = span as i64 - 1;
        proof {
            assert(0 <= (coord * 65535 + last / 2) / (last as int) <= 65536) by (nonlinear_arith)
                requires
                    0 <= coord <= last,
                    0 < last,
            ;
        }
        ((coord as i64 * 65535 + last / 2) / last) as i32
    }
}

/// The mouse event of a button, where the number is one of a button.
pub open spec fn windows_button(button: u32, pressed: bool) -> Option<(WindowsMouseAction, int)> {
    if button == 1 {
        Some((if pressed {
            WindowsMouseAction::LeftDown
        } else {
            WindowsMouseAction::LeftUp
        }, 0))
    } else if button == 2 {
        Some((if pressed {
            WindowsMouseAction::MiddleDown
        } else {
            WindowsMouseAction::MiddleUp
        }, 0))
    } else if button == 3 {
        Some((if pressed {
            WindowsMouseAction::RightDown
        } else {
            WindowsMouseAction::RightUp
        }, 0))
    } else if button == 8 || button == 9 {
        Some((if pressed {
            WindowsMouseAction::ExtraDown
        } else {
            WindowsMouseAction::ExtraUp
        }, button - 7))
    } else {
        None
    }
}

/// The keyboard event of a key on Windows.
pub open spec fn windows_key_event(key: KeyboardKey, pressed: bool) -> Option<WindowsKeyEvent> {
    match windows_virtual(key) {
        Some(virtual_key) => Some(
            WindowsKeyEvent {
                virtual_key,
                scan: 0,
                by_scan_code: false,
                extended: false,
                unicode: false,
                key_up: !pressed,
            },
        ),
        None => match windows_scan(key) {
            Some((scan, extended)) => Some(
                WindowsKeyEvent {
                    virtual_key: 0,
                    scan,
                    by_scan_code: true,
                    extended,
                    unicode: false,
                    key_up: !pressed,
                },
            ),
            None => None,
        },
    }
}

/// The keyboard event of a unit of text.
pub open spec fn text_event(unit: u16, key_up: bool) -> WindowsKeyEvent {
    WindowsKeyEvent {
        virtual_key: 0,
        scan: unit,
        by_scan_code: false,
        extended: false,
        unicode: true,
        key_up,
    }
}

/// The keyboard events of a text: each unit goes down and up.
pub open spec fn text_events(units: Seq<u16>) -> Seq<WindowsKeyEvent> {
    Seq::new(2 * units.len(), |i: int| text_event(units[i / 2], i % 2 == 1))
}

/// The pointer on a Windows desktop.
#[derive(Clone, Copy, Debug, PartialEq, Eq, Structural)]
pub struct WindowsController {
    pub screen: VirtualScreen,
    pub tracked_x: i32,
    pub tracked_y: i32,
}

impl WindowsController {
    /// A controller for a desktop, where the desktop has pixels.
    pub fn new(screen: VirtualScreen, pointer_x: i32, pointer_y: i32) -> (out: Result<
        Self,
        &'static str,
    >)
        ensures
            match out {
                Ok(c) => screen.width > 0 && screen.height > 0 && c == (WindowsController {
                    screen,
                    tracked_x: pointer_x,
                    tracked_y: pointer_y,
                }),
                Err(e) => (screen.width <= 0 || screen.height <= 0) && e@
                    == "virtual desktop size unavailable"@,
            },
    {
        if screen.width <= 0 || screen.height <= 0 {
            return Err("virtual desktop size unavailable");
        }
        Ok(WindowsController { screen, tracked_x: pointer_x, tracked_y: pointer_y })
    }

    /// Moves the pointer to a normalized position on the desktop as it is now.
    pub fn move_absolute(&mut self, screen: VirtualScreen, x: u16, y: u16) -> (event:
        WindowsMouseEvent)
        requires
            screen.wf(),
        ensures
            *final(self) == (WindowsController {
                screen,
                tracked_x: (screen.origin_x + side_coord(x, screen.width)) as i32,
                tracked_y: (screen.origin_y + side_coord(y, screen.height)) as i32,
            }),
            event == (WindowsMouseEvent {
                action: WindowsMouseAction::MoveAbsolute,
                dx: windows_absolute(side_coord(x, screen.width), screen.width as int) as i32,
                dy: windows_absolute(side_coord(y, screen.height), screen.height as int) as i32,
                data: 0,
            }),
    {
        let px: i32 = coord_on_side(x, screen.width);
        let py: i32 = coord_on_side(y, screen.height);
        self.screen = screen;
        self.tracked_x = screen.origin_x + px;
        self.tracked_y = screen.origin_y + py;
        WindowsMouseEvent {
            action: WindowsMouseAction::MoveAbsolute,
            dx: normalize_windows_absolute(px, screen.width),
            dy: normalize_windows_absolute(py, screen.height),
            data: 0,
        }
    }

    /// Moves the pointer by a distance, on the desktop as it is now.
    pub fn move_relative(&mut self, screen: VirtualScreen, dx: i16, dy: i16) -> (event:
        WindowsMouseEvent)
        requires
            screen.wf(),
        ensures
            *final(self) == (WindowsController {
                screen,
                tracked_x: clamped(
                    old(self).tracked_x + dx,
                    screen.origin_x as int,
                    screen.origin_x + screen.width - 1,
                ) as i32,
                tracked_y: clamped(
                    old(self).tracked_y + dy,
                    screen.origin_y as int,
                    screen.origin_y + screen.height - 1,
                ) as i32,
            }),
            event == (WindowsMouseEvent {
                action: WindowsMouseAction::MoveRelative,
                dx: dx as i32,
                dy: dy as i32,
                data: 0,
            }),
    {
        self.screen = screen;
        self.tracked_x = clamp(
            self.tracked_x as i64 + dx as i64,
            screen.origin_x,
            screen.origin_x + (screen.width - 1),
        );
        self.tracked_y = clamp(
            self.tracked_y as i64 + dy as i64,
            screen.origin_y,
            screen.origin_y + (screen.height - 1),
        );
        WindowsMouseEvent {
            action: WindowsMouseAction::MoveRelative,
            dx: dx as i32,
            dy: dy as i32,
            data: 0,
        }
    }

    /// The event of a button; a number that no button has does nothing.
    pub fn button(&self, button: u32, pressed: bool) -> (event: Option<WindowsMouseEvent>)
        ensures
            event == match windows_button(button, pressed) {
                Some((action, data)) => Some(
                    WindowsMouseEvent { action, dx: 0, dy: 0, data: data as i32 },
                ),
                None => None,
            },
    {
        let (action, data): (WindowsMouseAction, i32) = match (button, pressed) {
            (1, true) => (WindowsMouseAction::LeftDown, 0),
            (1, false) => (WindowsMouseAction::LeftUp, 0),
            (2, true) => (WindowsMouseAction::MiddleDown, 0),
            (2, false) => (WindowsMouseAction::MiddleUp, 0),
            (3, true) => (WindowsMouseAction::RightDown, 0),
            (3, false) => (WindowsMouseAction::RightUp, 0),
            (8, true) => (WindowsMouseAction::ExtraDown, 1),
            (8, false) => (WindowsMouseAction::ExtraUp, 1),
            (9, true) => (WindowsMouseAction::ExtraDown, 2),
            (9, false) => (WindowsMouseAction::ExtraUp, 2),
            _ => {
                return None;
            },
        };
        Some(WindowsMouseEvent { action, dx: 0, dy: 0, data })
    }

    /// The events of a scroll, the vertical axis first; an axis without units has none.
    pub fn scroll(&self, delta_x: i16, delta_y: i16) -> (events: Vec<WindowsMouseEvent>)
        ensures
            events@ == (if delta_y != 0 {
                seq![
                    WindowsMouseEvent {
                        action: WindowsMouseAction::Wheel,
                        dx: 0,
                        dy: 0,
                        data: delta_y as i32,
                    },
                ]
            } else {
                Seq::empty()
            }) + (if delta_x != 0 {
                seq![
                    WindowsMouseEvent {
                        action: WindowsMouseAction::HorizontalWheel,
                        dx: 0,
                        dy: 0,
                        data: delta_x as i32,
                    },
                ]
            } else {
                Seq::empty()
            }),
    {
        let mut events: Vec<WindowsMouseEvent> = Vec::new();
        if delta_y != 0 {
            events.push(
                WindowsMouseEvent {
                    action: WindowsMouseAction::Wheel,
                    dx: 0,
                    dy: 0,
                    data: delta_y as i32,
                },
            );
        }
        if delta_x != 0 {
            events.push(
                WindowsMouseEvent {
                    action: WindowsMouseAction::HorizontalWheel,
                    dx: 0,
                    dy: 0,
                    data: delta_x as i32,
                },
            );
        }
        events
    }

    /// The event of a key.
    pub fn key(&self, key: KeyboardKey, pressed: bool) -> (event: Option<WindowsKeyEvent>)
        ensures
            event == windows_key_event(key, pressed),
    {
        if let Some(virtual_key) = windows_key_virtual_key(key) {
            return Some(
                WindowsKeyEvent {
                    virtual_key,
                    scan: 0,
                    by_scan_code: false,
                    extended: false,
                    unicode: false,
                    key_up: !pressed,
                },
            );
        }
        match windows_key_scan_code(key) {
            Some((scan, extended)) => Some(
                WindowsKeyEvent {
                    virtual_key: 0,
                    scan,
                    by_scan_code: true,
                    extended,
                    unicode: false,
                    key_up: !pressed,
                },
            ),
            None => None,
        }
    }

    /// The events of a text, given as its UTF-16 units.
    pub fn text(&self, units: &[u16]) -> (events: Vec<WindowsKeyEvent>)
        ensures
            events@ == text_events(units@),
    {
        let mut events: Vec<WindowsKeyEvent> = Vec::new();
        let mut i: usize = 0;
        while i < units.len()
            invariant
                i <= units@.len(),
                events@.len() == 2 * i,
                forall|k: int| 0 <= k < 2 * i ==> events@[k] == text_events(units@)[k],
            decreases units@.len() - i,
        {
            let unit: u16 = units[i];
            events.push(
                WindowsKeyEvent {
                    virtual_key: 0,
                    scan: unit,
                    by_scan_code: false,
                    extended: false,
                    unicode: true,
                    key_up: false,
                },
            );
            events.push(
                WindowsKeyEvent {
                    virtual_key: 0,
                    scan: unit,
                    by_scan_code: false,
                    extended: false,
                    unicode: true,
                    key_up: true,
                },
            );
            i = i + 1;
        }
        proof {
            assert(events@ =~= text_events(units@));
        }
        events
    }
}

pub const KCG_EVENT_LEFT_MOUSE_DOWN: u32 = 1;

pub const KCG_EVENT_LEFT_MOUSE_UP: u32 = 2;

pub const KCG_EVENT_RIGHT_MOUSE_DOWN: u32 = 3;

pub const KCG_EVENT_RIGHT_MOUSE_UP: u32 = 4;

pub const KCG_EVENT_MOUSE_MOVED: u32 = 5;

pub const KCG_EVENT_LEFT_MOUSE_DRAGGED: u32 = 6;

pub const KCG_EVENT_RIGHT_MOUSE_DRAGGED: u32 = 7;

pub const KCG_EVENT_OTHER_MOUSE_DOWN: u32 = 25;

pub const KCG_EVENT_OTHER_MOUSE_UP: u32 = 26;

pub const KCG_EVENT_OTHER_MOUSE_DRAGGED: u32 = 27;

/// The event type of a button on macOS, and the number of the button there.
pub open spec fn macos_button(button: u32, pressed: bool) -> (u32, u32) {
    let other = if pressed {
        KCG_EVENT_OTHER_MOUSE_DOWN
    } else {
        KCG_EVENT_OTHER_MOUSE_UP
    };
    if button == 1 {
        (if pressed {
            KCG_EVENT_LEFT_MOUSE_DOWN
        } else {
            KCG_EVENT_LEFT_MOUSE_UP
        }, 0)
    } else if button == 3 {
        (if pressed {
            KCG_EVENT_RIGHT_MOUSE_DOWN
        } else {
            KCG_EVENT_RIGHT_MOUSE_UP
        }, 1)
    } else if button == 2 {
        (other, 2)
    } else if button == 8 {
        (other, 3)
    } else if button == 9 {
        (other, 4)
    } else {
        (KCG_EVENT_MOUSE_MOVED, 0)
    }
}

/// The event type of a button on macOS, and the number of the button there.
pub fn macos_button_event(button: u32, pressed: bool) -> (out: (u32, u32))
    ensures
        out == macos_button(button, pressed),
{
    let other: u32 = if pressed {
        KCG_EVENT_OTHER_MOUSE_DOWN
    } else {
        KCG_EVENT_OTHER_MOUSE_UP
    };
    match button {
        1 => (
            if pressed {
                KCG_EVENT_LEFT_MOUSE_DOWN
            } else {
                KCG_EVENT_LEFT_MOUSE_UP
            },
            0,
        ),
        3 => (
            if pressed {
                KCG_EVENT_RIGHT_MOUSE_DOWN
            } else {
                KCG_EVENT_RIGHT_MOUSE_UP
            },
            1,
        ),
        2 => (other, 2),
        8 => (other, 3),
        9 => (other, 4),
        _ => (KCG_EVENT_MOUSE_MOVED, 0),
    }
}

/// The mask bit of a button number; none for a number that no button has.
pub open spec fn button_bit(button: u32) -> u8 {
    if button == 1 {
        MOUSE_BUTTON_PRIMARY
    } else if button == 2 {
        MOUSE_BUTTON_MIDDLE
    } else if button == 3 {
        MOUSE_BUTTON_SECONDARY
    } else if button == 8 {
        MOUSE_BUTTON_EXTRA1
    } else if button == 9 {
        MOUSE_BUTTON_EXTRA2
    } else {
        0
    }
}

/// The button and wheel state of a macOS display.
#[derive(Clone, Copy, Debug, PartialEq, Eq, Structural)]
pub struct MacosController {
    pub button_mask: u8,
    pub wheel: WheelAccumulator,
}

impl MacosController {
    pub open spec fn wf(self) -> bool {
        self.wheel.wf()
    }

    pub fn new() -> (out: Self)
        ensures
            out.wf(),
            out.button_mask == 0,
            out.wheel.x_units == 0 && out.wheel.y_units == 0,
    {
        MacosController { button_mask: 0, wheel: WheelAccumulator::new() }
    }

    /// What a move is called while the buttons of a mask are down.
    pub open spec fn move_event(mask: u8) -> (u32, u32) {
        if mask & MOUSE_BUTTON_PRIMARY != 0 {
            (KCG_EVENT_LEFT_MOUSE_DRAGGED, 0)
        } else if mask & MOUSE_BUTTON_SECONDARY != 0 {
            (KCG_EVENT_RIGHT_MOUSE_DRAGGED, 1)
        } else if mask & (MOUSE_BUTTON_MIDDLE | MOUSE_BUTTON_EXTRA1 | MOUSE_BUTTON_EXTRA2) != 0 {
            (KCG_EVENT_OTHER_MOUSE_DRAGGED, 2)
        } else {
            (KCG_EVENT_MOUSE_MOVED, 0)
        }
    }

    /// The event type of a move: a drag while a button is down.
    pub fn post_move_event(&self) -> (out: (u32, u32))
        ensures
            out == MacosController::move_event(self.button_mask),
    {
        if self.button_mask & MOUSE_BUTTON_PRIMARY != 0 {
            (KCG_EVENT_LEFT_MOUSE_DRAGGED, 0)
        } else if self.button_mask & MOUSE_BUTTON_SECONDARY != 0 {
            (KCG_EVENT_RIGHT_MOUSE_DRAGGED, 1)
        } else if self.button_mask & (MOUSE_BUTTON_MIDDLE | MOUSE_BUTTON_EXTRA1
            | MOUSE_BUTTON_EXTRA2) != 0 {
            (KCG_EVENT_OTHER_MOUSE_DRAGGED, 2)
        } else {
            (KCG_EVENT_MOUSE_MOVED, 0)
        }
    }

    /// Presses or releases a button, and gives its event type.
    pub fn button(&mut self, button: u32, pressed: bool) -> (out: (u32, u32))
        requires
            old(self).wf(),
        ensures
            final(self).wf(),
            out == macos_button(button, pressed),
            *final(self) == (MacosController {
                button_mask: if button_bit(button) == 0 {
                    old(self).button_mask
                } else if pressed {
                    old(self).button_mask | button_bit(button)
                } else {
                    old(self).button_mask & !button_bit(button)
                },
                ..*old(self)
            }),
    {
        let mask: u8 = match button {
            1 => MOUSE_BUTTON_PRIMARY,
            2 => MOUSE_BUTTON_MIDDLE,
            3 => MOUSE_BUTTON_SECONDARY,
            8 => MOUSE_BUTTON_EXTRA1,
            9 => MOUSE_BUTTON_EXTRA2,
            _ => 0,
        };
        if mask != 0 {
            if pressed {
                self.button_mask = self.button_mask | mask;
            } else {
                self.button_mask = self.button_mask & !mask;
            }
        }
        macos_button_event(button, pressed)
    }

    /// The lines to scroll, vertical first; `None` where no step is complete.
    pub fn scroll(&mut self, delta_x: i16, delta_y: i16) -> (lines: Option<(i32, i32)>)
        requires
            old(self).wf(),
        ensures
            final(self).wf(),
            *final(self) == (MacosController {
                wheel: old(self).wheel.after(delta_x, delta_y),
                ..*old(self)
            }),
            ({
                let x = wheel_steps(old(self).wheel.x_units, delta_x);
                let y = wheel_steps(old(self).wheel.y_units, delta_y);
                match lines {
                    Some(l) => (x != 0 || y != 0) && l.0 == y && l.1 == x,
                    None => x == 0 && y == 0,
                }
            }),
    {
        let (step_x, step_y) = self.wheel.push_and_take_steps(delta_x, delta_y);
        if step_x == 0 && step_y == 0 {
            None
        } else {
            Some((step_y as i32, step_x as i32))
        }
    }
}

} // verus!
