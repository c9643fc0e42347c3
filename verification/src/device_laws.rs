//! What the input devices and the cursor images do, told of their operations from the outside.

use vstd::prelude::*;
use crate::cursor::{
    bgra_to_rgba_premultiplied, crop_cursor_to_opaque, estimate_cursor_hotspot,
    fit_cursor_shape_to_payload_budget, resize_rgba_premultiplied_nearest, CroppedCursor, CursorShape,
};
use crate::devices::{
    normalize_windows_absolute, uinput_key_bits, virtual_screen_of, MacosController,
    UinputController, UinputEvent, VirtualScreen, WindowsController, WindowsKeyEvent,
    WindowsMouseAction, WindowsMouseEvent, X11Controller, X11Event,
};
use crate::keys::{
    linux_key_code, macos_key_code, windows_key_scan_code, windows_key_virtual_key, x11_key_name,
    KEYBOARD_STATE_BYTES, KeyboardKey,
};
use crate::warp::WarpDetector;
use crate::pointer::linux_button_code;
use crate::keyboard::{keyboard_state_contains, pressed_modifiers};

verus! {

/// That `pixel` is the pixel of a side of `span` pixels nearest to a fraction of it.
pub open spec fn is_nearest(pixel: int, value: u16, span: i32) -> bool {
    if span <= 1 {
        pixel == 0
    } else {
        &&& 0 <= pixel < span
        &&& -32767 <= pixel * 65535 - value * (span - 1) <= 32767
    }
}

proof fn lemma_nearest(value: u16, span: i32)
    ensures
        is_nearest(crate::devices::side_coord(value, span), value, span),
        0 <= crate::devices::side_coord(value, span) <= i32::MAX,
{
    if span > 1 {
        let s = span - 1;
        assert(0 <= value * s <= 65535 * s) by (nonlinear_arith)
            requires
                0 <= value <= 65535,
                0 < s,
        ;
    } else {
        assert(value * 0 == 0);
    }
}

/// Magnitude of a whole number.
pub open spec fn magnitude(n: int) -> int {
    if n < 0 {
        -n
    } else {
        n
    }
}

/// That wheel units `rest` are what is left of `total` once whole steps are taken out.
pub open spec fn is_rest(rest: int, total: int, steps: int) -> bool {
    &&& rest + 120 * steps == total
    &&& -120 < rest < 120
    &&& total >= 0 ==> rest >= 0 && steps >= 0
    &&& total <= 0 ==> rest <= 0 && steps <= 0
}

proof fn lemma_rest(pending: i32, delta: i16)
    requires
        -120 < pending < 120,
    ensures
        is_rest(
            crate::pointer::wheel_rest(pending, delta),
            pending + delta,
            crate::pointer::wheel_steps(pending, delta),
        ),
{
}

/// On X11 an absolute move goes to the pixel nearest to it, each axis by its own side, and the
/// pointer is remembered where it went.
pub proof fn x11_moves_land(c: &mut X11Controller, x: u16, y: u16, event: X11Event)
    requires
        call_ensures(X11Controller::move_absolute, (c, x, y), event),
    ensures
        event matches X11Event::Motion { x: px, y: py } && is_nearest(px as int, x, old(c).width)
            && is_nearest(py as int, y, old(c).height) && final(c).tracked_x == px && final(c).tracked_y == py,
        final(c).width == old(c).width && final(c).height == old(c).height,
        final(c).wheel == old(c).wheel,
{
    lemma_nearest(x, old(c).width);
    lemma_nearest(y, old(c).height);
}

/// On X11 a relative move goes by its distance, and the pointer is remembered within the screen.
pub proof fn x11_moves_by_a_distance(c: &mut X11Controller, dx: i16, dy: i16, event: X11Event)
    requires
        call_ensures(X11Controller::move_relative, (c, dx, dy), event),
    ensures
        event == (X11Event::RelativeMotion { dx, dy }),
        old(c).width > 0 ==> 0 <= final(c).tracked_x < old(c).width,
        old(c).height > 0 ==> 0 <= final(c).tracked_y < old(c).height,
        0 <= old(c).tracked_x + dx < old(c).width ==> final(c).tracked_x == old(c).tracked_x + dx,
        0 <= old(c).tracked_y + dy < old(c).height ==> final(c).tracked_y == old(c).tracked_y + dy,
        old(c).tracked_x + dx < 0 ==> final(c).tracked_x == 0,
        old(c).tracked_y + dy < 0 ==> final(c).tracked_y == 0,
        final(c).wheel == old(c).wheel,
{
}

/// A button or key on X11 goes down when it is pressed and up when it is released.
pub proof fn x11_buttons_and_keys(
    c: X11Controller,
    button: u32,
    key: KeyboardKey,
    pressed: bool,
    event: X11Event,
    stroke: Option<X11Event>,
    name: Option<&'static str>,
)
    requires
        call_ensures(X11Controller::button, (&c, button, pressed), event),
        call_ensures(X11Controller::key, (&c, key, pressed), stroke),
        call_ensures(x11_key_name, (key,), name),
    ensures
        event == (X11Event::Button { button, pressed }),
        stroke is Some <==> name is Some,
        stroke matches Some(e) ==> (e matches X11Event::Key { name: n, pressed: down } && n@
            == name->0@ && down == pressed),
{
}

/// On X11 the wheel clicks once for each whole step, at most thirty-two times an axis, on buttons
/// four and five for up and down and on six and seven for the sides; what makes no step is kept.
pub proof fn x11_wheels_click(
    c: &mut X11Controller,
    dx: i16,
    dy: i16,
    events: Vec<X11Event>,
    x: int,
    y: int,
    i: int,
)
    requires
        old(c).wf(),
        call_ensures(X11Controller::scroll, (c, dx, dy), events),
        is_rest(old(c).wheel.x_units + dx - 120 * x, old(c).wheel.x_units + dx, x),
        is_rest(old(c).wheel.y_units + dy - 120 * y, old(c).wheel.y_units + dy, y),
        0 <= i < events@.len(),
    ensures
        final(c).wheel.x_units == old(c).wheel.x_units + dx - 120 * x,
        final(c).wheel.y_units == old(c).wheel.y_units + dy - 120 * y,
        ({
            let ny = if magnitude(y) > 32 {
                32
            } else {
                magnitude(y)
            };
            let nx = if magnitude(x) > 32 {
                32
            } else {
                magnitude(x)
            };
            &&& events@.len() == 2 * ny + 2 * nx
            &&& i < 2 * ny ==> events@[i] == (X11Event::Button {
                button: if y > 0 {
                    4
                } else {
                    5
                },
                pressed: i % 2 == 0,
            })
            &&& i >= 2 * ny ==> events@[i] == (X11Event::Button {
                button: if x > 0 {
                    6
                } else {
                    7
                },
                pressed: i % 2 == 0,
            })
        }),
{
    lemma_rest(old(c).wheel.x_units, dx);
    lemma_rest(old(c).wheel.y_units, dy);
    let sx = crate::pointer::wheel_steps(old(c).wheel.x_units, dx);
    let sy = crate::pointer::wheel_steps(old(c).wheel.y_units, dy);
    assert(sx == x);
    assert(sy == y);
}

/// On Linux an absolute move is an absolute position on each axis, and nothing without the device
/// for it.
pub proof fn uinput_moves_land(c: UinputController, x: u16, y: u16, events: Vec<UinputEvent>)
    requires
        call_ensures(UinputController::move_absolute, (&c, x, y), events),
    ensures
        !c.absolute ==> events@.len() == 0,
        c.absolute ==> {
            &&& events@.len() == 3
            &&& events@[0] == (UinputEvent { absolute: true, kind: 3, code: 0, value: x as i32 })
            &&& events@[1] == (UinputEvent { absolute: true, kind: 3, code: 1, value: y as i32 })
            &&& events@[2] == (UinputEvent { absolute: true, kind: 0, code: 0, value: 0 })
        },
{
}

/// A relative move tells each axis that moves, and ends its report.
pub proof fn uinput_moves_by_a_distance(
    c: UinputController,
    dx: i16,
    dy: i16,
    events: Vec<UinputEvent>,
    code: u16,
    value: i32,
)
    requires
        call_ensures(UinputController::move_relative, (&c, dx, dy), events),
    ensures
        events@.len() > 0,
        events@.last() == (UinputEvent { absolute: false, kind: 0, code: 0, value: 0 }),
        events@.contains(UinputEvent { absolute: false, kind: 2, code, value }) <==> value != 0 && (
        code == 0 && value == dx || code == 1 && value == dy),
{
    let e = events@;
    let a = crate::devices::unless_zero(2, 0, dx as int);
    let b = crate::devices::unless_zero(2, 1, dy as int);
    if dx != 0 {
        assert(e[0] == a[0]);
        if dy != 0 {
            assert(e[1] == b[0]);
        }
    } else if dy != 0 {
        assert(e[0] == b[0]);
    }
}

/// A button on Linux is a key event with the code of that button, and its end.
pub proof fn uinput_buttons(c: UinputController, button: u32, pressed: bool, events: Vec<UinputEvent>)
    requires
        call_ensures(UinputController::button, (&c, button, pressed), events),
    ensures
        events@.len() == 0 <==> !(button == 1 || button == 2 || button == 3 || button == 8 || button
            == 9),
        events@.len() == 0 || events@.len() == 2,
        events@.len() == 2 ==> {
            &&& events@[0].kind == 1 && !events@[0].absolute
            &&& events@[0].value == 1 <==> pressed
            &&& events@[0].value == 0 <==> !pressed
            &&& events@[0].code == 0x110 <==> button == 1
            &&& events@[0].code == 0x111 <==> button == 3
            &&& events@[0].code == 0x112 <==> button == 2
            &&& events@[0].code == 0x113 <==> button == 8
            &&& events@[0].code == 0x114 <==> button == 9
            &&& events@[1] == (UinputEvent { absolute: false, kind: 0, code: 0, value: 0 })
        },
{
}

/// A key on Linux is a key event with the code of that key, and its end.
pub proof fn uinput_keys(
    c: UinputController,
    key: KeyboardKey,
    pressed: bool,
    events: Vec<UinputEvent>,
    code: Option<u16>,
)
    requires
        call_ensures(UinputController::key, (&c, key, pressed), events),
        call_ensures(linux_key_code, (key,), code),
    ensures
        code is Some,
        events@.len() == 2,
        events@[0] == (UinputEvent {
            absolute: false,
            kind: 1,
            code: code->0,
            value: if pressed {
                1
            } else {
                0
            },
        }),
        events@[1] == (UinputEvent { absolute: false, kind: 0, code: 0, value: 0 }),
{
}

/// A scroll on Linux tells its fine units on each axis that moves and its whole steps where there
/// are any; what makes no step is kept, and the report ends where there is one.
pub proof fn uinput_wheels_turn(
    c: &mut UinputController,
    dx: i16,
    dy: i16,
    events: Vec<UinputEvent>,
    x: int,
    y: int,
    code: u16,
    value: i32,
)
    requires
        old(c).wf(),
        call_ensures(UinputController::scroll, (c, dx, dy), events),
        is_rest(old(c).wheel.x_units + dx - 120 * x, old(c).wheel.x_units + dx, x),
        is_rest(old(c).wheel.y_units + dy - 120 * y, old(c).wheel.y_units + dy, y),
    ensures
        final(c).wheel.x_units == old(c).wheel.x_units + dx - 120 * x,
        final(c).wheel.y_units == old(c).wheel.y_units + dy - 120 * y,
        final(c).absolute == old(c).absolute,
        events@.len() == 0 <==> dx == 0 && dy == 0,
        events@.len() > 0 ==> events@.last() == (UinputEvent {
            absolute: false,
            kind: 0,
            code: 0,
            value: 0,
        }),
        events@.contains(UinputEvent { absolute: false, kind: 2, code, value }) <==> value != 0 && (
        code == 0x0b && value == dy || code == 0x0c && value == dx || code == 8 && value == y
            || code == 6 && value == x),
{
    lemma_rest(old(c).wheel.x_units, dx);
    lemma_rest(old(c).wheel.y_units, dy);
    assert(crate::pointer::wheel_steps(old(c).wheel.x_units, dx) == x);
    assert(crate::pointer::wheel_steps(old(c).wheel.y_units, dy) == y);
    let p = crate::devices::unless_zero(2, 0x0b, dy as int);
    let q = crate::devices::unless_zero(2, 0x0c, dx as int);
    let r = crate::devices::unless_zero(2, 8, y);
    let s = crate::devices::unless_zero(2, 6, x);
    let body = p + q + r + s;
    let e = events@;
    assert(body.len() == p.len() + q.len() + r.len() + s.len());
    if body.len() > 0 {
        assert(e == body.push(crate::devices::rel_sync()));
        assert forall|i: int| 0 <= i < body.len() implies e[i] == body[i] by {}
        if dy != 0 {
            assert(e[0] == p[0]);
        }
        if dx != 0 {
            assert(e[p.len() as int] == q[0]);
        }
        if y != 0 {
            assert(e[(p.len() + q.len()) as int] == r[0]);
        }
        if x != 0 {
            assert(e[(p.len() + q.len() + r.len()) as int] == s[0]);
        }
    }
}

/// That `out` is a pixel of a side as the nearest fraction of it.
pub open spec fn is_fraction(out: int, pixel: int, span: int) -> bool {
    if span <= 1 {
        out == 0
    } else {
        &&& 0 <= out <= 65535
        &&& -(span - 1) <= 2 * (out * (span - 1) - pixel * 65535) <= span - 1
    }
}

proof fn lemma_fraction(pixel: int, span: int)
    requires
        span <= 1 || 0 <= pixel < span,
    ensures
        is_fraction(crate::devices::windows_absolute(pixel, span), pixel, span),
{
    if span > 1 {
        let d = span - 1;
        let n = pixel * 65535 + d / 2;
        let q = n / d;
        assert(n == q * d + n % d && 0 <= n % d < d) by {
            vstd::arithmetic::div_mod::lemma_fundamental_div_mod(n, d);
            assert(d * q == q * d) by (nonlinear_arith);
        }
        assert(0 <= q <= 65535) by (nonlinear_arith)
            requires
                n == q * d + n % d,
                0 <= n % d < d,
                0 <= n,
                n <= d * 65535 + d / 2,
                d > 0,
        ;
    }
}

/// A pixel on Windows is told as the nearest fraction of the side.
pub proof fn windows_pixels_are_fractions(pixel: i32, span: i32, out: i32)
    requires
        0 <= pixel,
        pixel < span || span <= 1,
        call_ensures(normalize_windows_absolute, (pixel, span), out),
    ensures
        is_fraction(out as int, pixel as int, span as int),
{
    lemma_fraction(pixel as int, span as int);
}

/// On Windows an absolute move goes to the pixel of the desktop nearest to it, each axis by its own
/// side and from its own origin, and is told as the fraction of that pixel.
pub proof fn windows_moves_land(
    c: &mut WindowsController,
    screen: VirtualScreen,
    x: u16,
    y: u16,
    event: WindowsMouseEvent,
)
    requires
        screen.wf(),
        call_ensures(WindowsController::move_absolute, (c, screen, x, y), event),
    ensures
        final(c).screen == screen,
        is_nearest(final(c).tracked_x - screen.origin_x, x, screen.width),
        is_nearest(final(c).tracked_y - screen.origin_y, y, screen.height),
        event.action == WindowsMouseAction::MoveAbsolute,
        event.data == 0,
        is_fraction(
            event.dx as int,
            final(c).tracked_x - screen.origin_x,
            screen.width as int,
        ),
        is_fraction(
            event.dy as int,
            final(c).tracked_y - screen.origin_y,
            screen.height as int,
        ),
{
    lemma_nearest(x, screen.width);
    lemma_nearest(y, screen.height);
    lemma_fraction(crate::devices::side_coord(x, screen.width), screen.width as int);
    lemma_fraction(crate::devices::side_coord(y, screen.height), screen.height as int);
}

/// On Windows a relative move goes by its distance, and the pointer is remembered on the desktop.
pub proof fn windows_moves_by_a_distance(
    c: &mut WindowsController,
    screen: VirtualScreen,
    dx: i16,
    dy: i16,
    event: WindowsMouseEvent,
)
    requires
        screen.wf(),
        call_ensures(WindowsController::move_relative, (c, screen, dx, dy), event),
    ensures
        final(c).screen == screen,
        event == (WindowsMouseEvent {
            action: WindowsMouseAction::MoveRelative,
            dx: dx as i32,
            dy: dy as i32,
            data: 0,
        }),
        0 <= final(c).tracked_x - screen.origin_x < screen.width,
        0 <= final(c).tracked_y - screen.origin_y < screen.height,
        0 <= old(c).tracked_x + dx - screen.origin_x < screen.width ==> final(c).tracked_x == old(c).tracked_x + dx,
        0 <= old(c).tracked_y + dy - screen.origin_y < screen.height ==> final(c).tracked_y == old(c).tracked_y + dy,
{
}

/// On Windows each button has its own events, and the extra ones their numbers.
pub proof fn windows_buttons(
    c: WindowsController,
    button: u32,
    down: Option<WindowsMouseEvent>,
    up: Option<WindowsMouseEvent>,
)
    requires
        call_ensures(WindowsController::button, (&c, button, true), down),
        call_ensures(WindowsController::button, (&c, button, false), up),
    ensures
        down is Some <==> button == 1 || button == 2 || button == 3 || button == 8 || button == 9,
        up is Some <==> down is Some,
        down matches Some(d) ==> {
            let u = up->0;
            &&& d.dx == 0 && d.dy == 0 && u.dx == 0 && u.dy == 0
            &&& d.data == u.data
            &&& d.action == WindowsMouseAction::LeftDown <==> button == 1
            &&& u.action == WindowsMouseAction::LeftUp <==> button == 1
            &&& d.action == WindowsMouseAction::MiddleDown <==> button == 2
            &&& u.action == WindowsMouseAction::MiddleUp <==> button == 2
            &&& d.action == WindowsMouseAction::RightDown <==> button == 3
            &&& u.action == WindowsMouseAction::RightUp <==> button == 3
            &&& d.action == WindowsMouseAction::ExtraDown <==> button == 8 || button == 9
            &&& u.action == WindowsMouseAction::ExtraUp <==> button == 8 || button == 9
            &&& d.data == 1 <==> button == 8
            &&& d.data == 2 <==> button == 9
            &&& d.data == 0 <==> button < 8
        },
{
}

/// A scroll on Windows is an event for each axis that moves, with its units.
pub proof fn windows_wheels_turn(
    c: WindowsController,
    dx: i16,
    dy: i16,
    events: Vec<WindowsMouseEvent>,
    action: WindowsMouseAction,
    data: i32,
)
    requires
        call_ensures(WindowsController::scroll, (&c, dx, dy), events),
    ensures
        events@.contains(WindowsMouseEvent { action, dx: 0, dy: 0, data }) <==> data != 0 && (action
            == WindowsMouseAction::Wheel && data == dy || action
            == WindowsMouseAction::HorizontalWheel && data == dx),
        dx == 0 && dy == 0 ==> events@.len() == 0,
        events@.len() <= 2,
{
    let e = events@;
    if dy != 0 {
        assert(e[0].data == dy as i32);
        if dx != 0 {
            assert(e[1].data == dx as i32);
        }
    } else if dx != 0 {
        assert(e[0].data == dx as i32);
    }
}

/// A key on Windows is told by its scan code where it has one and by its virtual key else, and
/// goes down and up as it is pressed and released.
pub proof fn windows_keys(
    c: WindowsController,
    key: KeyboardKey,
    pressed: bool,
    event: Option<WindowsKeyEvent>,
    scan: Option<(u16, bool)>,
    virtual_key: Option<u16>,
)
    requires
        call_ensures(WindowsController::key, (&c, key, pressed), event),
        call_ensures(windows_key_scan_code, (key,), scan),
        call_ensures(windows_key_virtual_key, (key,), virtual_key),
    ensures
        event matches Some(e) && {
            &&& e.key_up == !pressed
            &&& !e.unicode
            &&& scan matches Some((code, extended)) ==> e.by_scan_code && e.scan == code
                && e.extended == extended && e.virtual_key == 0
            &&& scan is None ==> !e.by_scan_code && virtual_key == Some(e.virtual_key) && e.scan
                == 0
        },
{
}

/// A text on Windows is typed unit by unit, each down and up again.
pub proof fn windows_texts(
    c: WindowsController,
    units: &[u16],
    events: Vec<WindowsKeyEvent>,
    i: int,
)
    requires
        call_ensures(WindowsController::text, (&c, units), events),
        0 <= i < units@.len(),
    ensures
        events@.len() == 2 * units@.len(),
        events@[2 * i].unicode && events@[2 * i + 1].unicode,
        events@[2 * i].scan == units@[i] && events@[2 * i + 1].scan == units@[i],
        !events@[2 * i].key_up && events@[2 * i + 1].key_up,
{
}

/// On macOS a button that is pressed turns moves into drags until it is released; the left one
/// before the right one before the others.
pub proof fn macos_buttons_drag(
    c: &mut MacosController,
    button: u32,
    pressed: bool,
    out: (u32, u32),
    before: (u32, u32),
    after: (u32, u32),
)
    requires
        call_ensures(MacosController::post_move_event, (old(c),), before),
        call_ensures(MacosController::button, (c, button, pressed), out),
        call_ensures(MacosController::post_move_event, (final(c),), after),
    ensures
        old(c).button_mask == 0 ==> before == (5u32, 0u32),
        button == 1 && pressed ==> out == (1u32, 0u32) && after == (6u32, 0u32),
        button == 1 && !pressed ==> out == (2u32, 0u32) && after != (6u32, 0u32),
        button == 3 && pressed ==> out == (3u32, 1u32) && (if before == (6u32, 0u32) {
            after == before
        } else {
            after == (7u32, 1u32)
        }),
        button == 3 && !pressed ==> out == (4u32, 1u32) && after != (7u32, 1u32),
        button == 2 ==> out.1 == 2,
        button == 8 ==> out.1 == 3,
        button == 9 ==> out.1 == 4,
        button == 2 || button == 8 || button == 9 ==> out.0 == (if pressed {
            25u32
        } else {
            26u32
        }),
        (button == 2 || button == 8 || button == 9) && pressed ==> (if before == (5u32, 0u32) {
            after == (27u32, 2u32)
        } else {
            after == before
        }),
        !(button == 1 || button == 2 || button == 3 || button == 8 || button == 9) ==> out == (
            5u32,
            0u32,
        ) && after == before,
        final(c).wheel == old(c).wheel,
{
    let m = old(c).button_mask;
    assert(0u8 & 1 == 0 && 0u8 & 2 == 0 && 0u8 & (4u8 | 8 | 16) == 0) by (bit_vector);
    assert((m | 1) & 1 != 0) by (bit_vector);
    assert((m & !1u8) & 1 == 0) by (bit_vector);
    assert((m | 2) & 2 != 0 && (m | 2) & 1 == m & 1) by (bit_vector);
    assert((m & !2u8) & 2 == 0) by (bit_vector);
    assert((m | 4) & (4u8 | 8 | 16) != 0 && (m | 4) & 1 == m & 1 && (m | 4) & 2 == m & 2)
        by (bit_vector);
    assert((m | 8) & (4u8 | 8 | 16) != 0 && (m | 8) & 1 == m & 1 && (m | 8) & 2 == m & 2)
        by (bit_vector);
    assert((m | 16) & (4u8 | 8 | 16) != 0 && (m | 16) & 1 == m & 1 && (m | 16) & 2 == m & 2)
        by (bit_vector);
}

/// On macOS the wheel turns by whole steps, the vertical axis first, and what makes no step is
/// kept.
pub proof fn macos_wheels_turn(
    c: &mut MacosController,
    dx: i16,
    dy: i16,
    lines: Option<(i32, i32)>,
    x: int,
    y: int,
)
    requires
        old(c).wf(),
        call_ensures(MacosController::scroll, (c, dx, dy), lines),
        is_rest(old(c).wheel.x_units + dx - 120 * x, old(c).wheel.x_units + dx, x),
        is_rest(old(c).wheel.y_units + dy - 120 * y, old(c).wheel.y_units + dy, y),
    ensures
        final(c).wheel.x_units == old(c).wheel.x_units + dx - 120 * x,
        final(c).wheel.y_units == old(c).wheel.y_units + dy - 120 * y,
        final(c).button_mask == old(c).button_mask,
        lines is None <==> x == 0 && y == 0,
        lines matches Some((vertical, horizontal)) ==> vertical == y && horizontal == x,
{
    lemma_rest(old(c).wheel.x_units, dx);
    lemma_rest(old(c).wheel.y_units, dy);
    assert(crate::pointer::wheel_steps(old(c).wheel.x_units, dx) == x);
    assert(crate::pointer::wheel_steps(old(c).wheel.y_units, dy) == y);
}

/// The keys of the main block have the same code on Linux as on Windows, and the function keys
/// follow one another.
pub proof fn key_codes_agree(
    key: KeyboardKey,
    number: u8,
    code: Option<u16>,
    scan: Option<(u16, bool)>,
    name: Option<&'static str>,
)
    requires
        call_ensures(KeyboardKey::index, (key,), number),
        call_ensures(linux_key_code, (key,), code),
        call_ensures(windows_key_scan_code, (key,), scan),
        call_ensures(x11_key_name, (key,), name),
    ensures
        code matches Some(n) && (n <= 88 ==> scan == Some((n, false))),
        scan matches Some((n, extended)) ==> n <= 88 && !extended ==> code == Some(n),
        62 <= number <= 71 ==> code == Some((number - 62 + 59) as u16),
        106 <= number <= 117 ==> code == Some((number - 106 + 183) as u16),
        106 <= number <= 116 ==> scan == Some(((number - 106 + 0x64) as u16, false)),
        26 < number <= 35 ==> code == Some((number - 27 + 2) as u16),
        36 <= number <= 61 ==> (name matches Some(n) && n@.len() == 1 && n@[0] as int == number - 36
            + 97),
        26 <= number <= 35 ==> (name matches Some(n) && n@.len() == 1 && n@[0] as int == number - 26
            + 48),
{
    if 26 <= number <= 61 {
        reveal_strlit("0");
        reveal_strlit("1");
        reveal_strlit("2");
        reveal_strlit("3");
        reveal_strlit("4");
        reveal_strlit("5");
        reveal_strlit("6");
        reveal_strlit("7");
        reveal_strlit("8");
        reveal_strlit("9");
        reveal_strlit("a");
        reveal_strlit("b");
        reveal_strlit("c");
        reveal_strlit("d");
        reveal_strlit("e");
        reveal_strlit("f");
        reveal_strlit("g");
        reveal_strlit("h");
        reveal_strlit("i");
        reveal_strlit("j");
        reveal_strlit("k");
        reveal_strlit("l");
        reveal_strlit("m");
        reveal_strlit("n");
        reveal_strlit("o");
        reveal_strlit("p");
        reveal_strlit("q");
        reveal_strlit("r");
        reveal_strlit("s");
        reveal_strlit("t");
        reveal_strlit("u");
        reveal_strlit("v");
        reveal_strlit("w");
        reveal_strlit("x");
        reveal_strlit("y");
        reveal_strlit("z");
    }
}

/// A key comes back from its number, and no other number is one of a key.
pub proof fn keys_come_back(key: KeyboardKey, number: u8, other: u8, back: Option<KeyboardKey>, none: Option<KeyboardKey>)
    requires
        call_ensures(KeyboardKey::index, (key,), number),
        call_ensures(KeyboardKey::from_u8, (number,), back),
        other >= 126,
        call_ensures(KeyboardKey::from_u8, (other,), none),
    ensures
        back == Some(key),
        none is None,
        number < 126,
{
    crate::keys::every_number_has_a_key(number as int);
    crate::keys::numbers_tell_keys_apart(key, back->0);
}

/// No two keys have the same code anywhere.
pub proof fn codes_tell_keys_apart(
    a: KeyboardKey,
    b: KeyboardKey,
    codes: (Option<u16>, Option<u16>),
    macos: (Option<u16>, Option<u16>),
    names: (Option<&'static str>, Option<&'static str>),
)
    requires
        a != b,
        call_ensures(linux_key_code, (a,), codes.0),
        call_ensures(linux_key_code, (b,), codes.1),
        call_ensures(macos_key_code, (a,), macos.0),
        call_ensures(macos_key_code, (b,), macos.1),
        call_ensures(x11_key_name, (a,), names.0),
        call_ensures(x11_key_name, (b,), names.1),
    ensures
        codes.0 != codes.1,
        macos.0 is Some ==> macos.0 != macos.1,
        names.0 is Some && names.1 is Some ==> names.0->0@ != names.1->0@,
{
    crate::keys::linux_codes_tell_keys_apart(a, b);
    if macos.0 is Some {
        crate::keys::macos_codes_tell_keys_apart(a, b);
    }
    crate::key_names::x11_names_tell_keys_apart(a, b);
}

proof fn lemma_pixel(x: int, y: int, c: int, w: int)
    requires
        0 <= x < w,
        0 <= y,
        0 <= c < 4,
    ensures
        ((y * w + x) * 4 + c) / 4 == y * w + x,
        ((y * w + x) * 4 + c) % 4 == c,
        (y * w + x) / w == y,
        (y * w + x) % w == x,
        0 <= y * w,
{
    assert(0 <= y * w) by (nonlinear_arith)
        requires
            0 <= y,
            0 < w,
    ;
    vstd::arithmetic::div_mod::lemma_fundamental_div_mod_converse(y * w + x, w, y, x);
}

/// A pixel of a resized image is the one at the same place in proportion, channel by channel.
pub proof fn resized_pixels_come_from_their_place(
    src: &[u8],
    sw: u16,
    sh: u16,
    dw: u16,
    dh: u16,
    out: Vec<u8>,
    x: int,
    y: int,
    c: int,
)
    requires
        sw > 0 && sh > 0 && dw > 0 && dh > 0,
        call_ensures(resize_rgba_premultiplied_nearest, (src, sw, sh, dw, dh), out),
        0 <= x < dw,
        0 <= y < dh,
        0 <= c < 4,
    ensures
        out@.len() == dw * dh * 4,
        out@[(y * dw + x) * 4 + c] == src@[((y * sh / dh as int) * sw + x * sw / dw as int) * 4 + c],
{
    lemma_pixel(x, y, c, dw as int);
    assert((y * dw + x) * 4 + c < dw * dh * 4) by (nonlinear_arith)
        requires
            0 <= x < dw,
            0 <= y < dh,
            0 <= c < 4,
    ;
    assert(0 <= dw * dh) by (nonlinear_arith)
        requires
            dw > 0,
            dh > 0,
    ;
}

/// An image that a message carries is sent as it is; another one shrinks, keeps its number, and
/// its hotspot stays in it, at the same place in proportion.
pub proof fn large_cursors_shrink(shape: CursorShape, out: (CursorShape, bool))
    requires
        shape.width > 0 && shape.height > 0,
        call_ensures(fit_cursor_shape_to_payload_budget, (shape,), out),
    ensures
        out.1 <==> shape.rgba@.len() > 65519,
        !out.1 ==> out.0@ == shape@,
        out.0.serial == shape.serial,
        out.0.rgba@.len() <= 65519,
        out.1 ==> {
            &&& out.0.rgba@.len() == out.0.width * out.0.height * 4
            &&& 0 < out.0.width && 0 < out.0.height
            &&& out.0.width > 1 ==> out.0.width * out.0.width * shape.height <= shape.width * 16379
            &&& out.0.height > 1 ==> out.0.height * out.0.height * shape.width <= shape.height
                * 16379
            &&& out.0.hotspot_x < out.0.width && out.0.hotspot_y < out.0.height
            &&& out.0.hotspot_x < out.0.width - 1 ==> -(shape.width as int) <= 2 * (out.0.hotspot_x
                * shape.width - shape.hotspot_x * out.0.width) <= shape.width
            &&& out.0.hotspot_y < out.0.height - 1 ==> -(shape.height as int) <= 2 * (
            out.0.hotspot_y * shape.height - shape.hotspot_y * out.0.height) <= shape.height
        },
{
    crate::cursor::fitted_shape_fits(shape@);
    if out.1 {
        crate::cursor::fitted_sides(shape@);
        lemma_hotspot(shape.hotspot_x as int, shape.width as int, out.0.width as int);
        lemma_hotspot(shape.hotspot_y as int, shape.height as int, out.0.height as int);
    }
}

proof fn lemma_hotspot(at: int, s: int, d: int)
    requires
        0 <= at,
        0 < s,
        0 < d,
    ensures
        0 <= crate::cursor::fitted_hotspot(at, s, d) < d,
        crate::cursor::fitted_hotspot(at, s, d) < d - 1 ==> -s <= 2 * (
        crate::cursor::fitted_hotspot(at, s, d) * s - at * d) <= s,
{
    let n = at * d + s / 2;
    let q = n / s;
    assert(0 <= at * d) by (nonlinear_arith)
        requires
            0 <= at,
            0 < d,
    ;
    vstd::arithmetic::div_mod::lemma_fundamental_div_mod(n, s);
    assert(s * q == q * s) by (nonlinear_arith);
    assert(0 <= q) by (nonlinear_arith)
        requires
            n == q * s + n % s,
            0 <= n % s < s,
            0 <= n,
            0 < s,
    ;
}

/// Pixels come out red first: the first and the third byte change places, the others stay.
pub proof fn red_and_blue_change_places(src: &[u8], out: Vec<u8>, p: int)
    requires
        call_ensures(bgra_to_rgba_premultiplied, (src,), out),
        0 <= p,
        p * 4 + 4 <= src@.len(),
    ensures
        out@.len() == src@.len() - src@.len() % 4,
        out@[p * 4] == src@[p * 4 + 2],
        out@[p * 4 + 1] == src@[p * 4 + 1],
        out@[p * 4 + 2] == src@[p * 4],
        out@[p * 4 + 3] == src@[p * 4 + 3],
{
}

/// A cropped image holds every opaque pixel of the source, each at its place from the corner, and
/// no border of it is empty.
pub proof fn cropping_keeps_what_shows(
    pixels: &[u8],
    w: u32,
    h: u32,
    out: Option<CroppedCursor>,
    x: int,
    y: int,
    c: int,
)
    requires
        call_ensures(crop_cursor_to_opaque, (pixels, w, h), out),
        0 <= x < w,
        0 <= y < h,
        0 <= c < 4,
        pixels@.len() >= w * h * 4,
    ensures
        out matches Some(cut) ==> {
            let inside = cut.left <= x < cut.left + cut.width && cut.top <= y < cut.top
                + cut.height;
            &&& cut.left + cut.width <= w && cut.top + cut.height <= h
            &&& cut.width < w || cut.height < h
            &&& cut.pixels@.len() == cut.width * cut.height * 4
            &&& pixels@[(y * w + x) * 4 + 3] != 0 ==> inside
            &&& inside ==> cut.pixels@[((y - cut.top) * cut.width + (x - cut.left)) * 4 + c]
                == pixels@[(y * w + x) * 4 + c]
            &&& exists|k: int|
                0 <= k < h && #[trigger] crate::cursor::opaque_at(
                    pixels@,
                    w as int,
                    cut.left as int,
                    k,
                )
            &&& exists|k: int|
                0 <= k < w && #[trigger] crate::cursor::opaque_at(
                    pixels@,
                    w as int,
                    k,
                    cut.top as int,
                )
            &&& exists|k: int|
                0 <= k < h && #[trigger] crate::cursor::opaque_at(
                    pixels@,
                    w as int,
                    cut.left + cut.width - 1,
                    k,
                )
            &&& exists|k: int|
                0 <= k < w && #[trigger] crate::cursor::opaque_at(
                    pixels@,
                    w as int,
                    k,
                    cut.top + cut.height - 1,
                )
        },
{
    crate::cursor::crop_box_is_inside(pixels@, w as int, h as int);
    if let Some(cut) = out {
        let b = crate::cursor::crop_box(pixels@, w as int, h as int)->0;
        assert(crate::cursor::opaque_at(pixels@, w as int, x, y) == (pixels@[(y * w + x) * 4 + 3]
            != 0));
        let cx = x - b.left;
        let cy = y - b.top;
        let cw = b.width();
        let ch = b.height();
        assert(0 <= cw * ch) by (nonlinear_arith)
            requires
                0 < cw,
                0 < ch,
        ;
        if 0 <= cx < cw && 0 <= cy < ch {
            lemma_pixel(cx, cy, c, cw);
            let i = (cy * cw + cx) * 4 + c;
            assert(i < cw * ch * 4) by (nonlinear_arith)
                requires
                    i == (cy * cw + cx) * 4 + c,
                    0 <= cx < cw,
                    0 <= cy < ch,
                    0 <= c < 4,
            ;
            assert((b.top + cy) * w + b.left + cx == y * w + x);
            assert(i / 4 == cy * cw + cx);
            assert(cut.pixels@[i] == pixels@[((b.top + i / 4 / cw) * w + b.left + i / 4 % cw) * 4 + i
                % 4]);
            assert(i / 4 / cw == cy && i / 4 % cw == cx);
        }
        assert(cut.left + cut.width - 1 == b.right);
        assert(cut.top + cut.height - 1 == b.bottom);
    }
}

/// The pairs of pixels, in the left half and across from it, that agree on whether they show.
pub open spec fn agreeing_pairs(pixels: Seq<u8>, w: int, n: int) -> Set<int> {
    Set::new(
        |i: int|
            0 <= i < n && (pixels[(i / (w / 2) * w + i % (w / 2)) * 4 + 3] != 0 <==> pixels[(i / (w
                / 2) * w + w - 1 - i % (w / 2)) * 4 + 3] != 0),
    )
}

proof fn lemma_agreeing(pixels: Seq<u8>, w: int, n: int)
    requires
        0 <= n,
        2 <= w,
    ensures
        agreeing_pairs(pixels, w, n).finite(),
        agreeing_pairs(pixels, w, n).len() == crate::cursor::mirrored_pairs(pixels, w, n),
    decreases n,
{
    if n > 0 {
        lemma_agreeing(pixels, w, n - 1);
        let before = agreeing_pairs(pixels, w, n - 1);
        if crate::cursor::pair_mirrors(pixels, w, n - 1) {
            assert(agreeing_pairs(pixels, w, n) =~= before.insert(n - 1));
        } else {
            assert(agreeing_pairs(pixels, w, n) =~= before);
        }
    } else {
        assert(agreeing_pairs(pixels, w, n) =~= Set::<int>::empty());
    }
}

/// The hotspot of an image without one is its middle where at least eighty-five in a hundred
/// pairs agree, and its corner else.
pub proof fn symmetric_cursors_point_from_the_middle(
    pixels: &[u8],
    w: u32,
    h: u32,
    out: (u32, u32),
)
    requires
        call_ensures(estimate_cursor_hotspot, (pixels, w, h), out),
        w >= 2,
        h >= 1,
        pixels@.len() >= w * h * 4,
    ensures
        ({
            let pairs = h * (w as int / 2);
            if agreeing_pairs(pixels@, w as int, pairs).len() * 100 >= pairs * 85 {
                out.0 == w / 2 && out.1 == h / 2
            } else {
                out.0 == 0 && out.1 == 0
            }
        }),
{
    assert(0 <= h * (w as int / 2)) by (nonlinear_arith)
        requires
            w >= 2,
            h >= 1,
    ;
    lemma_agreeing(pixels@, w as int, h * (w as int / 2));
}

/// The distance between two positions, along the axes.
pub open spec fn apart(a: (i64, i64), b: (i64, i64)) -> int {
    magnitude(a.0 - b.0) + magnitude(a.1 - b.1)
}

/// A grab is judged every six positions, where the commands went at least 120 pixels: a cursor that
/// moved less than a quarter of that for the third time in a row starts it, if the cursor was ever
/// seen to follow; one that follows for the second time in a row ends it.
pub proof fn grabs_are_judged(
    w: &mut WarpDetector,
    x: i32,
    y: i32,
    grab: bool,
    start: (i64, i64),
    went: (i64, i64),
    to: (i64, i64),
)
    requires
        call_ensures(WarpDetector::observe_cursor, (w, x, y), grab),
        old(w).wf(),
        old(w).enabled,
        old(w).window_captured_start == Some(start),
        old(w).window_commanded_start == Some(went),
        old(w).commanded == Some(to),
        old(w).diverge_streak < u32::MAX && old(w).converge_streak < u32::MAX,
    ensures
        ({
            let full = old(w).window_samples == 5;
            let commanded = apart(to, went);
            let moved = apart((x as i64, y as i64), start);
            let judged = full && commanded >= 120;
            let follows = moved * 4 >= commanded;
            &&& grab == final(w).app_grab
            &&& !judged ==> grab == old(w).app_grab && final(w).diverge_streak
                == old(w).diverge_streak && final(w).converge_streak == old(w).converge_streak
                && final(w).position_trusted == old(w).position_trusted
            &&& judged && follows ==> final(w).position_trusted && final(w).converge_streak
                == old(w).converge_streak + 1 && final(w).diverge_streak == 0
            &&& judged && follows ==> (grab <==> old(w).app_grab && old(w).converge_streak == 0)
            &&& judged && !follows ==> final(w).position_trusted == old(w).position_trusted
                && final(w).converge_streak == 0 && final(w).diverge_streak
                == old(w).diverge_streak + 1
            &&& judged && !follows ==> (grab <==> old(w).app_grab || (old(w).position_trusted
                && old(w).diverge_streak >= 2))
            &&& !full ==> final(w).window_samples == old(w).window_samples + 1 && final(w).window_captured_start == Some(start) && final(w).window_commanded_start == Some(went)
            &&& full ==> final(w).window_samples == 0 && final(w).window_captured_start == Some(
                (x as i64, y as i64),
            ) && final(w).window_commanded_start == Some(to)
            &&& final(w).commanded == Some(to)
        }),
{
}

/// The detector remembers where the pointer was sent to, and starts a window at what it first
/// sees.
pub proof fn commands_are_remembered(
    a: &mut WarpDetector,
    r: &mut WarpDetector,
    f: &mut WarpDetector,
    sx: i64,
    sy: i64,
    dx: i64,
    dy: i64,
    x: i32,
    y: i32,
    grab: bool,
)
    requires
        call_ensures(WarpDetector::observe_command_absolute, (a, sx, sy), ()),
        call_ensures(WarpDetector::observe_command_relative, (r, dx, dy), ()),
        call_ensures(WarpDetector::observe_cursor, (f, x, y), grab),
        old(f).window_captured_start is None,
    ensures
        old(a).enabled ==> final(a).commanded == Some((sx, sy)),
        final(a).app_grab == old(a).app_grab,
        old(r).enabled ==> (old(r).commanded matches Some(c) ==> i64::MIN <= c.0 + dx <= i64::MAX
            && i64::MIN <= c.1 + dy <= i64::MAX ==> final(r).commanded == Some(
            ((c.0 + dx) as i64, (c.1 + dy) as i64),
        )),
        old(r).commanded is None ==> final(r).commanded is None,
        old(f).enabled ==> final(f).window_captured_start == Some((x as i64, y as i64)) && final(f).window_samples == 1 && final(f).app_grab == old(f).app_grab,
        !old(f).enabled ==> *final(f) == *old(f),
{
}

/// The virtual mouse and keyboard announces every button and every key that it sends.
pub proof fn devices_announce_what_they_send(
    bits: Vec<u16>,
    key: KeyboardKey,
    code: Option<u16>,
    button: u32,
    mouse: Option<u16>,
)
    requires
        call_ensures(uinput_key_bits, (), bits),
        call_ensures(linux_key_code, (key,), code),
        call_ensures(linux_button_code, (button,), mouse),
    ensures
        code matches Some(c) && bits@.contains(c),
        mouse matches Some(c) ==> bits@.contains(c),
{
    let b = bits@;
    let head = seq![0x110u16, 0x111, 0x112, 0x113, 0x114];
    assert(b[0] == 0x110 && b[1] == 0x111 && b[2] == 0x112 && b[3] == 0x113 && b[4] == 0x114);
    crate::keys::numbers_are_small(key);
    lemma_announced(key, 126);
    let codes = crate::devices::key_codes(126);
    let i = choose|i: int| 0 <= i < codes.len() && codes[i] == code->0;
    assert(b[5 + i] == codes[i]);
}

proof fn lemma_announced(key: KeyboardKey, n: int)
    requires
        key.number() < n <= 126,
    ensures
        crate::keys::linux_code(key) matches Some(c) && crate::devices::key_codes(n).contains(c),
    decreases n,
{
    let rest = crate::devices::key_codes(n - 1);
    let all = crate::devices::key_codes(n);
    if key.number() < n - 1 {
        lemma_announced(key, n - 1);
        let c = crate::keys::linux_code(key)->0;
        let i = choose|i: int| 0 <= i < rest.len() && rest[i] == c;
        assert(all[i] == rest[i]);
    } else {
        crate::keys::every_number_has_a_key(n - 1);
        let found = KeyboardKey::numbered(n - 1)->0;
        crate::keys::numbers_tell_keys_apart(key, found);
        crate::keys::linux_codes_tell_keys_apart(key, key);
        assert(all[all.len() - 1] == crate::keys::linux_code(key)->0);
    }
}

/// A desktop has at least one pixel, and else the sides and the origin that the system tells.
pub proof fn desktops_have_pixels(x: i32, y: i32, w: i32, h: i32, out: VirtualScreen)
    requires
        call_ensures(virtual_screen_of, (x, y, w, h), out),
    ensures
        out.origin_x == x && out.origin_y == y,
        out.width >= 1 && out.height >= 1,
        w >= 1 ==> out.width == w,
        h >= 1 ==> out.height == h,
        w < 1 ==> out.width == 1,
        h < 1 ==> out.height == 1,
{
}

/// The modifiers that are held are exactly the keys that are pressed among the eight of them.
pub proof fn held_modifiers_are_pressed(
    state: [u8; KEYBOARD_STATE_BYTES],
    out: Vec<KeyboardKey>,
    key: KeyboardKey,
    modifier: bool,
    pressed: bool,
)
    requires
        call_ensures(pressed_modifiers, (&state,), out),
        call_ensures(KeyboardKey::is_modifier, (key,), modifier),
        call_ensures(keyboard_state_contains, (&state, key), pressed),
    ensures
        out@.contains(key) <==> modifier && pressed,
        modifier <==> key == KeyboardKey::LeftShift || key == KeyboardKey::LeftCtrl || key
            == KeyboardKey::LeftAlt || key == KeyboardKey::LeftMeta || key == KeyboardKey::RightShift
            || key == KeyboardKey::RightCtrl || key == KeyboardKey::RightAlt || key
            == KeyboardKey::RightMeta,
{
    let keys = crate::keyboard::modifier_keys();
    lemma_held(state@, keys, key);
    assert(keys[0] == KeyboardKey::LeftShift && keys[1] == KeyboardKey::LeftCtrl && keys[2]
        == KeyboardKey::LeftAlt && keys[3] == KeyboardKey::LeftMeta && keys[4]
        == KeyboardKey::RightShift && keys[5] == KeyboardKey::RightCtrl && keys[6]
        == KeyboardKey::RightAlt && keys[7] == KeyboardKey::RightMeta);
    assert(keys.contains(key) <==> modifier);
}

proof fn lemma_held(state: Seq<u8>, keys: Seq<KeyboardKey>, key: KeyboardKey)
    ensures
        crate::keyboard::held_modifiers(state, keys).contains(key) <==> keys.contains(key)
            && crate::keyboard::is_pressed(state, key),
    decreases keys.len(),
{
    if keys.len() > 0 {
        let rest = keys.drop_last();
        lemma_held(state, rest, key);
        let before = crate::keyboard::held_modifiers(state, rest);
        let all = crate::keyboard::held_modifiers(state, keys);
        if rest.contains(key) {
            let i = choose|i: int| 0 <= i < rest.len() && rest[i] == key;
            assert(keys[i] == key);
        }
        if before.contains(key) {
            let i = choose|i: int| 0 <= i < before.len() && before[i] == key;
            assert(all[i] == key);
        }
        if keys.last() == key {
            assert(keys[keys.len() - 1] == key);
            if crate::keyboard::is_pressed(state, key) {
                assert(all[all.len() - 1] == key);
            }
        }
        if keys.contains(key) && keys.last() != key {
            let i = choose|i: int| 0 <= i < keys.len() && keys[i] == key;
            assert(rest[i] == key);
        }
        if all.contains(key) && !before.contains(key) {
            let i = choose|i: int| 0 <= i < all.len() && all[i] == key;
            if i < before.len() {
                assert(before[i] == key);
            }
        }
    }
}

/// A detector that is reset has no verdict and trusts nothing, and stays on or off.
pub proof fn resets_forget(w: &mut WarpDetector)
    requires
        call_ensures(WarpDetector::reset, (w,), ()),
    ensures
        final(w).enabled == old(w).enabled,
        !final(w).app_grab && !final(w).position_trusted,
        final(w).commanded is None && final(w).window_captured_start is None,
        final(w).diverge_streak == 0 && final(w).converge_streak == 0,
{
}

/// A pointer starts where the system says that it is, on a screen of the size that it says.
pub proof fn pointers_start_where_they_are(
    w: i32,
    h: i32,
    x: i32,
    y: i32,
    display: X11Controller,
    screen: VirtualScreen,
    desktop: Result<WindowsController, &'static str>,
)
    requires
        call_ensures(X11Controller::new, (w, h, x, y), display),
        call_ensures(WindowsController::new, (screen, x, y), desktop),
    ensures
        display.width == w && display.height == h,
        display.tracked_x == x && display.tracked_y == y,
        display.wheel.x_units == 0 && display.wheel.y_units == 0,
        desktop is Ok <==> screen.width >= 1 && screen.height >= 1,
        desktop matches Ok(c) ==> c.screen == screen && c.tracked_x == x && c.tracked_y == y,
{
}

/// A virtual device has absolute axes exactly if it was made with them, and no device starts with
/// anything held or pending.
pub proof fn devices_start_clean(
    absolute: bool,
    uinput: UinputController,
    has: bool,
    macos: MacosController,
)
    requires
        call_ensures(UinputController::new, (absolute,), uinput),
        call_ensures(UinputController::supports_absolute, (&uinput,), has),
        call_ensures(MacosController::new, (), macos),
    ensures
        has == absolute && uinput.absolute == absolute,
        uinput.wheel.x_units == 0 && uinput.wheel.y_units == 0,
        macos.button_mask == 0 && macos.wheel.x_units == 0 && macos.wheel.y_units == 0,
{
}

/// An image that is cut short, empty or a single column has its hotspot in its corner.
pub proof fn odd_cursors_point_from_the_corner(pixels: &[u8], w: u32, h: u32, out: (u32, u32))
    requires
        call_ensures(estimate_cursor_hotspot, (pixels, w, h), out),
        w < 2 || h == 0 || pixels@.len() < w * h * 4,
    ensures
        out.0 == 0 && out.1 == 0,
{
}

/// An image is left as it is exactly where there is nothing to crop: no pixel shows, it is cut
/// short, or something shows on each of its borders.
pub proof fn whole_images_are_not_cropped(
    pixels: &[u8],
    w: u32,
    h: u32,
    out: Option<CroppedCursor>,
)
    requires
        call_ensures(crop_cursor_to_opaque, (pixels, w, h), out),
        w > 0 && h > 0 && pixels@.len() >= w * h * 4,
        crate::cursor::has_opaque(pixels@, w as int, h as int),
    ensures
        out is None ==> crate::cursor::opaque_column(pixels@, w as int, h as int, 0)
            && crate::cursor::opaque_column(pixels@, w as int, h as int, w - 1)
            && crate::cursor::opaque_row(pixels@, w as int, h as int, 0)
            && crate::cursor::opaque_row(pixels@, w as int, h as int, h - 1),
{
    crate::cursor::lemma_opaque_box_exists(pixels@, w as int, h as int);
}

} // verus!
