//! Detection of an application that holds the pointer without hiding it.
//!
//! The client keeps commanding the cursor across the screen while the cursor that the
//! capture reports stays where it is. Positions are stream coordinates.

use vstd::prelude::*;
use crate::text::{same_text, to_ascii_lowercase, trim};
use crate::transport::text_of;

verus! {

/// Cursor observations that make up a window.
pub const WARP_WINDOW_SAMPLES: u32 = 6;

/// The commanded travel below which a window is idle.
pub const WARP_MIN_COMMANDED: i64 = 120;

/// The captured cursor follows if it moves at least this part of the commanded travel.
pub const WARP_CONVERGE_NUM: i64 = 1;

pub const WARP_CONVERGE_DEN: i64 = 4;

/// Diverging windows in a row that start a grab.
pub const WARP_ENTER_STREAK: u32 = 3;

/// Converging windows in a row that end a grab.
pub const WARP_EXIT_STREAK: u32 = 2;

/// The words that switch an option on, in any case and with white space around.
pub open spec fn is_on_word(s: Seq<char>) -> bool {
    let word = crate::text::lowered(crate::text::trimmed(s));
    word == "1"@ || word == "true"@ || word == "yes"@ || word == "on"@
}

/// Whether the detector is on, by `ST_WARP_DETECT`; it is off unless asked for.
pub fn warp_detect_enabled(value: Option<&str>) -> (on: bool)
    ensures
        on == (text_of(value) matches Some(v) && is_on_word(v)),
{
    match value {
        Some(v) => {
            let word = to_ascii_lowercase(trim(v).as_str());
            let word = word.as_str();
            same_text(word, "1") || same_text(word, "true") || same_text(word, "yes") || same_text(
                word,
                "on",
            )
        },
        None => false,
    }
}

/// `v`, kept within the range of the coordinates.
pub open spec fn saturated(v: int) -> int {
    if v > i64::MAX {
        i64::MAX as int
    } else if v < i64::MIN {
        i64::MIN as int
    } else {
        v
    }
}

fn saturating_sum(a: i64, b: i64) -> (out: i64)
    ensures
        out == saturated(a + b),
{
    let sum: i128 = a as i128 + b as i128;
    if sum > i64::MAX as i128 {
        i64::MAX
    } else if sum < i64::MIN as i128 {
        i64::MIN
    } else {
        sum as i64
    }
}

/// The distance between two positions, along the axes.
pub open spec fn travel(a: (i64, i64), b: (i64, i64)) -> int {
    let dx = a.0 - b.0;
    let dy = a.1 - b.1;
    (if dx < 0 {
        -dx
    } else {
        dx
    }) + (if dy < 0 {
        -dy
    } else {
        dy
    })
}

fn measure(a: (i64, i64), b: (i64, i64)) -> (out: i128)
    ensures
        out == travel(a, b),
        out <= 0x4_0000_0000_0000_0000,
{
    let dx: i128 = a.0 as i128 - b.0 as i128;
    let dy: i128 = a.1 as i128 - b.1 as i128;
    let x: i128 = if dx < 0 {
        -dx
    } else {
        dx
    };
    let y: i128 = if dy < 0 {
        -dy
    } else {
        dy
    };
    x + y
}

/// One count more, up to the largest count.
pub open spec fn counted(n: u32) -> u32 {
    if n == u32::MAX {
        n
    } else {
        (n + 1) as u32
    }
}

/// Judges whether an application holds the pointer while its cursor stays visible.
#[derive(Clone, Copy, Debug)]
pub struct WarpDetector {
    pub enabled: bool,
    /// That the captured cursor was once seen to follow the commands. A capture that
    /// reports no usable position never earns this, and so never starts a grab.
    pub position_trusted: bool,
    /// Where the cursor was commanded to.
    pub commanded: Option<(i64, i64)>,
    pub window_commanded_start: Option<(i64, i64)>,
    pub window_captured_start: Option<(i64, i64)>,
    pub window_samples: u32,
    pub diverge_streak: u32,
    pub converge_streak: u32,
    pub app_grab: bool,
}

impl WarpDetector {
    /// What holds of every detector: the open window is not full, a grab rests on a
    /// trusted position, and a detector that is off has no verdict.
    pub open spec fn wf(self) -> bool {
        &&& self.window_samples < WARP_WINDOW_SAMPLES
        &&& self.window_captured_start is Some == self.window_commanded_start is Some
        &&& self.app_grab ==> self.position_trusted && self.enabled
    }

    /// A detector that has seen nothing.
    pub open spec fn fresh(enabled: bool) -> WarpDetector {
        WarpDetector {
            enabled,
            position_trusted: false,
            commanded: None,
            window_commanded_start: None,
            window_captured_start: None,
            window_samples: 0,
            diverge_streak: 0,
            converge_streak: 0,
            app_grab: false,
        }
    }

    /// The detector after an absolute command.
    pub open spec fn after_absolute(self, sx: i64, sy: i64) -> WarpDetector {
        if self.enabled {
            WarpDetector { commanded: Some((sx, sy)), ..self }
        } else {
            self
        }
    }

    /// The detector after a relative command, which counts once a position is known.
    pub open spec fn after_relative(self, dx: i64, dy: i64) -> WarpDetector {
        match self.commanded {
            Some(c) if self.enabled => WarpDetector {
                commanded: Some((saturated(c.0 + dx) as i64, saturated(c.1 + dy) as i64)),
                ..self
            },
            _ => self,
        }
    }

    /// The detector once the open window counts the position `at`.
    pub open spec fn sampled(self, at: (i64, i64)) -> WarpDetector {
        let commanded = match self.commanded {
            Some(c) => c,
            None => at,
        };
        match self.window_captured_start {
            Some(_) => WarpDetector {
                commanded: Some(commanded),
                window_samples: (self.window_samples + 1) as u32,
                ..self
            },
            None => WarpDetector {
                commanded: Some(commanded),
                window_captured_start: Some(at),
                window_commanded_start: Some(commanded),
                window_samples: 1,
                ..self
            },
        }
    }

    /// How far the commands went in the open window.
    pub open spec fn commanded_travel(self) -> int {
        travel(self.commanded->0, self.window_commanded_start->0)
    }

    /// That the commands of a full window went far enough to judge it.
    pub open spec fn is_judged(self) -> bool {
        self.commanded_travel() >= WARP_MIN_COMMANDED
    }

    /// That the captured cursor followed the commands of a full window that ends at `at`.
    pub open spec fn follows(self, at: (i64, i64)) -> bool {
        travel(at, self.window_captured_start->0) * WARP_CONVERGE_DEN >= self.commanded_travel()
            * WARP_CONVERGE_NUM
    }

    /// The detector with the verdict on a full window that ends at `at`.
    pub open spec fn judged(self, at: (i64, i64)) -> WarpDetector {
        if !self.is_judged() {
            self
        } else if self.follows(at) {
            WarpDetector {
                position_trusted: true,
                converge_streak: counted(self.converge_streak),
                diverge_streak: 0,
                app_grab: self.app_grab && counted(self.converge_streak) < WARP_EXIT_STREAK,
                ..self
            }
        } else {
            WarpDetector {
                diverge_streak: counted(self.diverge_streak),
                converge_streak: 0,
                app_grab: self.app_grab || (self.position_trusted && counted(self.diverge_streak)
                    >= WARP_ENTER_STREAK),
                ..self
            }
        }
    }

    /// The detector after the capture reported the cursor at `at`.
    pub open spec fn after_cursor(self, at: (i64, i64)) -> WarpDetector {
        let s = self.sampled(at);
        if !self.enabled {
            self
        } else if s.window_samples < WARP_WINDOW_SAMPLES {
            s
        } else {
            WarpDetector {
                window_captured_start: Some(at),
                window_commanded_start: s.commanded,
                window_samples: 0,
                ..s.judged(at)
            }
        }
    }

    pub fn new(enabled: bool) -> (out: Self)
        ensures
            out == WarpDetector::fresh(enabled),
            out.wf(),
    {
        WarpDetector {
            enabled,
            position_trusted: false,
            commanded: None,
            window_commanded_start: None,
            window_captured_start: None,
            window_samples: 0,
            diverge_streak: 0,
            converge_streak: 0,
            app_grab: false,
        }
    }

    /// Drops everything seen so far, the verdict and the trust among it.
    pub fn reset(&mut self)
        ensures
            *final(self) == WarpDetector::fresh(old(self).enabled),
            final(self).wf(),
    {
        *self = WarpDetector::new(self.enabled);
    }

    /// Takes note that the cursor was commanded to a position.
    pub fn observe_command_absolute(&mut self, sx: i64, sy: i64)
        requires
            old(self).wf(),
        ensures
            *final(self) == old(self).after_absolute(sx, sy),
            final(self).wf(),
    {
        if !self.enabled {
            return;
        }
        self.commanded = Some((sx, sy));
    }

    /// Takes note that the cursor was commanded by a distance.
    pub fn observe_command_relative(&mut self, dx: i64, dy: i64)
        requires
            old(self).wf(),
        ensures
            *final(self) == old(self).after_relative(dx, dy),
            final(self).wf(),
    {
        if !self.enabled {
            return;
        }
        if let Some((cx, cy)) = self.commanded {
            self.commanded = Some((saturating_sum(cx, dx), saturating_sum(cy, dy)));
        }
    }

    /// Takes note of a cursor position that the capture reported, and tells whether an
    /// application holds the pointer.
    pub fn observe_cursor(&mut self, x: i32, y: i32) -> (grab: bool)
        requires
            old(self).wf(),
        ensures
            *final(self) == old(self).after_cursor((x as i64, y as i64)),
            grab == final(self).app_grab,
            final(self).wf(),
    {
        if !self.enabled {
            return false;
        }
        let captured: (i64, i64) = (x as i64, y as i64);
        let commanded: (i64, i64) = match self.commanded {
            Some(c) => c,
            None => captured,
        };
        self.commanded = Some(commanded);
        if self.window_captured_start.is_none() {
            self.window_captured_start = Some(captured);
            self.window_commanded_start = Some(commanded);
            self.window_samples = 0;
        }
        self.window_samples = self.window_samples + 1;
        if self.window_samples < WARP_WINDOW_SAMPLES {
            return self.app_grab;
        }
        let cmd_start: (i64, i64) = match self.window_commanded_start {
            Some(c) => c,
            None => commanded,
        };
        let cap_start: (i64, i64) = match self.window_captured_start {
            Some(c) => c,
            None => captured,
        };
        let cmd_net: i128 = measure(commanded, cmd_start);
        let cap_net: i128 = measure(captured, cap_start);
        if cmd_net >= WARP_MIN_COMMANDED as i128 {
            if cap_net * (WARP_CONVERGE_DEN as i128) < cmd_net * (WARP_CONVERGE_NUM as i128) {
                self.diverge_streak = self.diverge_streak.saturating_add(1);
                self.converge_streak = 0;
                if self.position_trusted && self.diverge_streak >= WARP_ENTER_STREAK {
                    self.app_grab = true;
                }
            } else {
                self.position_trusted = true;
                self.converge_streak = self.converge_streak.saturating_add(1);
                self.diverge_streak = 0;
                if self.converge_streak >= WARP_EXIT_STREAK {
                    self.app_grab = false;
                }
            }
        }
        self.window_captured_start = Some(captured);
        self.window_commanded_start = Some(commanded);
        self.window_samples = 0;
        self.app_grab
    }
}

/// One thing that the detector is told.
pub enum WarpEvent {
    Absolute { x: i64, y: i64 },
    Relative { dx: i64, dy: i64 },
    Cursor { at_x: i32, at_y: i32 },
}

/// The detector after an event.
pub open spec fn warp_step(w: WarpDetector, event: WarpEvent) -> WarpDetector {
    match event {
        WarpEvent::Absolute { x, y } => w.after_absolute(x, y),
        WarpEvent::Relative { dx, dy } => w.after_relative(dx, dy),
        WarpEvent::Cursor { at_x, at_y } => w.after_cursor((at_x as i64, at_y as i64)),
    }
}

/// The detector after a run of events.
pub open spec fn warp_run(w: WarpDetector, events: Seq<WarpEvent>) -> WarpDetector
    decreases events.len(),
{
    if events.len() == 0 {
        w
    } else {
        warp_step(warp_run(w, events.drop_last()), events.last())
    }
}

/// That the captured cursor never followed the commands of a judged window.
pub open spec fn never_follows(w: WarpDetector, events: Seq<WarpEvent>) -> bool {
    forall|i: int|
        #![trigger events[i]]
        0 <= i < events.len() ==> {
            let before = warp_run(w, events.subrange(0, i));
            events[i] matches WarpEvent::Cursor { at_x, at_y } ==> {
                let s = before.sampled((at_x as i64, at_y as i64));
                s.window_samples < WARP_WINDOW_SAMPLES || !s.is_judged() || !s.follows(
                    (at_x as i64, at_y as i64),
                )
            }
        }
}

/// A capture whose position never follows the commands never starts a grab: a fresh
/// detector keeps its verdict on any run of events without a converging window.
pub proof fn untrusted_position_never_grabs(enabled: bool, events: Seq<WarpEvent>)
    requires
        never_follows(WarpDetector::fresh(enabled), events),
    ensures
        !warp_run(WarpDetector::fresh(enabled), events).app_grab,
        !warp_run(WarpDetector::fresh(enabled), events).position_trusted,
    decreases events.len(),
{
    let w = WarpDetector::fresh(enabled);
    if events.len() > 0 {
        let init = events.drop_last();
        assert forall|i: int| #![trigger init[i]] 0 <= i < init.len() implies {
            let before = warp_run(w, init.subrange(0, i));
            init[i] matches WarpEvent::Cursor { at_x, at_y } ==> {
                let s = before.sampled((at_x as i64, at_y as i64));
                s.window_samples < WARP_WINDOW_SAMPLES || !s.is_judged() || !s.follows(
                    (at_x as i64, at_y as i64),
                )
            }
        } by {
            assert(init.subrange(0, i) == events.subrange(0, i));
            assert(init[i] == events[i]);
        }
        untrusted_position_never_grabs(enabled, init);
        assert(events.subrange(0, events.len() - 1) == init);
        assert(events[events.len() - 1] == events.last());
    }
}

/// A detector that is off never grabs.
pub proof fn disabled_detector_never_grabs(events: Seq<WarpEvent>)
    ensures
        warp_run(WarpDetector::fresh(false), events) == WarpDetector::fresh(false),
    decreases events.len(),
{
    if events.len() > 0 {
        disabled_detector_never_grabs(events.drop_last());
    }
}

/// While hardly any motion is asked for, what was judged before stands: neither the grab
/// nor the streaks nor the trust change.
pub proof fn idle_window_holds_the_verdict(w: WarpDetector, at: (i64, i64))
    requires
        w.wf(),
        !w.sampled(at).is_judged(),
    ensures
        w.after_cursor(at).app_grab == w.app_grab,
        w.after_cursor(at).diverge_streak == w.diverge_streak,
        w.after_cursor(at).converge_streak == w.converge_streak,
        w.after_cursor(at).position_trusted == w.position_trusted,
{
}

/// A grab starts only on a diverging window, the third in a row, and ends only on a
/// converging one, the second in a row.
pub proof fn verdict_changes_on_streaks(w: WarpDetector, at: (i64, i64))
    requires
        w.wf(),
    ensures
        !w.app_grab && w.after_cursor(at).app_grab ==> w.after_cursor(at).diverge_streak
            >= WARP_ENTER_STREAK && w.position_trusted && !w.sampled(at).follows(at),
        w.app_grab && !w.after_cursor(at).app_grab ==> w.after_cursor(at).converge_streak
            >= WARP_EXIT_STREAK && w.sampled(at).follows(at),
{
}

} // verus!
