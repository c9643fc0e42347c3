//! Pointer coordinates, buttons and wheels, and the events that each kind of input device
//! is sent for them.

use vstd::prelude::*;

verus! {

pub const MOUSE_BUTTON_PRIMARY: u8 = 1;

pub const MOUSE_BUTTON_SECONDARY: u8 = 2;

pub const MOUSE_BUTTON_MIDDLE: u8 = 4;

pub const MOUSE_BUTTON_EXTRA1: u8 = 8;

pub const MOUSE_BUTTON_EXTRA2: u8 = 16;

/// Wheel units that make up one step.
pub const MOUSE_WHEEL_STEP_UNITS: i16 = 120;

/// The pixel of a span that a normalized coordinate falls on, rounded to the nearest.
pub open spec fn stream_coord(value: u16, span: u32) -> int {
    if span <= 1 {
        0
    } else {
        (value * (span - 1) + 32767) / 65535
    }
}

proof fn lemma_scaled_fits(value: u16, span: u32)
    ensures
        0 <= stream_coord(value, span) < if span == 0 {
            1int
        } else {
            span as int
        },
        span > 1 ==> 0 <= value * (span - 1) <= 65535 * 0xffff_ffff,
{
    if span > 1 {
        assert(0 <= value * (span - 1) <= 65535 * (span - 1)) by (nonlinear_arith)
            requires
                value <= 65535,
                span > 1,
        ;
    }
}

/// A normalized coordinate falls on a pixel of the span.
pub proof fn stream_coord_is_inside(value: u16, span: u32)
    requires
        span > 0,
    ensures
        0 <= stream_coord(value, span) < span,
{
    lemma_scaled_fits(value, span);
}

/// Turns a normalized coordinate into a pixel of the stream.
pub fn normalized_to_stream_coord(value: u16, span: u32) -> (out: i32)
    ensures
        out == stream_coord(value, span) as i32,
        span <= 0x8000_0000 ==> out == stream_coord(value, span),
{
    proof {
        lemma_scaled_fits(value, span);
    }
    if span <= 1 {
        0
    } else {
        let scaled: i64 = (value as i64 * (span as i64 - 1) + 32767) / 65535;
        #[verifier::truncate]
        (scaled as i32)
    }
}

/// `value`, kept within the pixels of a span.
pub open spec fn clamped_coord(value: int, span: u32) -> int {
    if span <= 1 || value < 0 {
        0
    } else if value > span - 1 {
        span - 1
    } else {
        value
    }
}

/// Keeps a coordinate within the stream.
pub fn clamp_stream_coord(value: i64, span: u32) -> (out: i32)
    ensures
        out == clamped_coord(value as int, span) as i32,
        span <= 0x8000_0000 ==> out == clamped_coord(value as int, span),
{
    if span <= 1 {
        0
    } else {
        let last: i64 = span as i64 - 1;
        let kept: i64 = if value < 0 {
            0
        } else if value > last {
            last
        } else {
            value
        };
        #[verifier::truncate]
        (kept as i32)
    }
}

/// `n`, kept between two bounds.
pub open spec fn clamped(n: int, low: int, high: int) -> int {
    if n < low {
        low
    } else if n > high {
        high
    } else {
        n
    }
}

/// The bits of the button mask and the button numbers that they stand for.
pub open spec fn button_table() -> Seq<(u8, u32)> {
    seq![
        (MOUSE_BUTTON_PRIMARY, 1u32),
        (MOUSE_BUTTON_MIDDLE, 2u32),
        (MOUSE_BUTTON_SECONDARY, 3u32),
        (MOUSE_BUTTON_EXTRA1, 8u32),
        (MOUSE_BUTTON_EXTRA2, 9u32),
    ]
}

/// The bits of the button mask and the button numbers that they stand for.
pub fn button_mappings() -> (out: [(u8, u32); 5])
    ensures
        out@ == button_table(),
{
    let out: [(u8, u32); 5] = [
        (MOUSE_BUTTON_PRIMARY, 1),
        (MOUSE_BUTTON_MIDDLE, 2),
        (MOUSE_BUTTON_SECONDARY, 3),
        (MOUSE_BUTTON_EXTRA1, 8),
        (MOUSE_BUTTON_EXTRA2, 9),
    ];
    proof {
        assert(out@ =~= button_table());
    }
    out
}

/// The button events of the first `n` buttons for a change of the mask.
pub open spec fn button_events(prev: u8, next: u8, n: int) -> Seq<(u32, bool)>
    decreases n,
{
    if n <= 0 {
        Seq::empty()
    } else {
        let (bit, button) = button_table()[n - 1];
        let rest = button_events(prev, next, n - 1);
        if (prev ^ next) & bit != 0 {
            rest.push((button, next & bit != 0))
        } else {
            rest
        }
    }
}

/// The button events, number and whether it goes down, for a change of the mask.
pub fn button_transitions(prev: u8, next: u8) -> (out: Vec<(u32, bool)>)
    ensures
        out@ == button_events(prev, next, 5),
{
    let table = button_mappings();
    let changed: u8 = prev ^ next;
    let mut out: Vec<(u32, bool)> = Vec::new();
    let mut i: usize = 0;
    while i < 5
        invariant
            i <= 5,
            changed == prev ^ next,
            table@ == button_table(),
            out@ == button_events(prev, next, i as int),
        decreases 5 - i,
    {
        let (bit, button) = table[i];
        if changed & bit != 0 {
            out.push((button, next & bit != 0));
        }
        i = i + 1;
    }
    out
}

/// No change of the mask means no event.
pub proof fn same_mask_has_no_events(mask: u8, n: int)
    requires
        n <= 5,
    ensures
        button_events(mask, mask, n) == Seq::<(u32, bool)>::empty(),
    decreases n,
{
    if n > 0 {
        same_mask_has_no_events(mask, n - 1);
        let bit = button_table()[n - 1].0;
        assert((mask ^ mask) & bit == 0) by (bit_vector);
    }
}

/// A quotient cut off towards zero.
pub open spec fn cut_quotient(a: int, b: int) -> int {
    if a >= 0 {
        a / b
    } else {
        -((-a) / b)
    }
}

/// Wheel units that have not made up a step yet.
#[derive(Clone, Copy, Debug, PartialEq, Eq, Structural)]
pub struct WheelAccumulator {
    pub x_units: i32,
    pub y_units: i32,
}

impl WheelAccumulator {
    /// Less than one step is pending.
    pub open spec fn wf(self) -> bool {
        &&& -MOUSE_WHEEL_STEP_UNITS < self.x_units < MOUSE_WHEEL_STEP_UNITS
        &&& -MOUSE_WHEEL_STEP_UNITS < self.y_units < MOUSE_WHEEL_STEP_UNITS
    }

    /// What is pending after `dx` and `dy` more units.
    pub open spec fn after(self, dx: i16, dy: i16) -> WheelAccumulator {
        WheelAccumulator {
            x_units: wheel_rest(self.x_units, dx) as i32,
            y_units: wheel_rest(self.y_units, dy) as i32,
        }
    }

    pub fn new() -> (out: Self)
        ensures
            out.wf(),
            out.x_units == 0,
            out.y_units == 0,
    {
        WheelAccumulator { x_units: 0, y_units: 0 }
    }

    /// Adds wheel units and takes out the whole steps.
    pub fn push_and_take_steps(&mut self, delta_x: i16, delta_y: i16) -> (steps: (i16, i16))
        requires
            old(self).wf(),
        ensures
            final(self).wf(),
            *final(self) == old(self).after(delta_x, delta_y),
            steps.0 == wheel_steps(old(self).x_units, delta_x),
            steps.1 == wheel_steps(old(self).y_units, delta_y),
    {
        let (x, rest_x) = wheel_units_to_steps(self.x_units, delta_x);
        let (y, rest_y) = wheel_units_to_steps(self.y_units, delta_y);
        self.x_units = rest_x;
        self.y_units = rest_y;
        (x, y)
    }
}

/// The whole steps in what is pending and `delta` more units.
pub open spec fn wheel_steps(pending: i32, delta: i16) -> int {
    cut_quotient(pending + delta, MOUSE_WHEEL_STEP_UNITS as int)
}

/// What is left once the whole steps are taken out.
pub open spec fn wheel_rest(pending: i32, delta: i16) -> int {
    pending + delta - wheel_steps(pending, delta) * MOUSE_WHEEL_STEP_UNITS
}

fn wheel_units_to_steps(pending: i32, delta: i16) -> (out: (i16, i32))
    requires
        -MOUSE_WHEEL_STEP_UNITS < pending < MOUSE_WHEEL_STEP_UNITS,
    ensures
        out.0 == wheel_steps(pending, delta),
        out.1 == wheel_rest(pending, delta),
        -MOUSE_WHEEL_STEP_UNITS < out.1 < MOUSE_WHEEL_STEP_UNITS,
{
    let total: i32 = pending + delta as i32;
    if total >= 0 {
        let steps: i32 = total / 120;
        (steps as i16, total - steps * 120)
    } else {
        let steps: i32 = (-total) / 120;
        (-(steps as i16), total + steps * 120)
    }
}

/// No wheel unit is lost: what comes in is what goes out in steps and what stays pending.
pub proof fn wheel_loses_nothing(w: WheelAccumulator, dx: i16, dy: i16)
    requires
        w.wf(),
    ensures
        w.after(dx, dy).wf(),
        w.x_units + dx == wheel_steps(w.x_units, dx) * MOUSE_WHEEL_STEP_UNITS + w.after(
            dx,
            dy,
        ).x_units,
        w.y_units + dy == wheel_steps(w.y_units, dy) * MOUSE_WHEEL_STEP_UNITS + w.after(
            dx,
            dy,
        ).y_units,
{
}

/// The Linux code of a button number.
pub open spec fn linux_button(button: u32) -> Option<u16> {
    if button == 1 {
        Some(0x110)
    } else if button == 2 {
        Some(0x112)
    } else if button == 3 {
        Some(0x111)
    } else if button == 8 {
        Some(0x113)
    } else if button == 9 {
        Some(0x114)
    } else {
        None
    }
}

/// The Linux code of a button number.
pub fn linux_button_code(button: u32) -> (out: Option<u16>)
    ensures
        out == linux_button(button),
{
    match button {
        1 => Some(0x110),
        2 => Some(0x112),
        3 => Some(0x111),
        8 => Some(0x113),
        9 => Some(0x114),
        _ => None,
    }
}

} // verus!
