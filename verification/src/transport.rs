//! What a client's transport sends, and when.
//!
//! Points in time are nanoseconds on a monotonic clock; capture and send times of
//! frames are microseconds of wall time.

use vstd::prelude::*;
use crate::bitrate::elapsed;
use crate::net::MediaAddr;
use crate::text::{parse_unsigned, same_text, trim};

verus! {

/// The most video units that one wakeup sends.
pub const MAX_VIDEO_SEND_BURST: usize = 16;

/// A keyframe is asked for at most once in this time.
pub const KEYFRAME_THROTTLE_NANOS: u64 = 250_000_000;

/// A path without video carries a keepalive this often.
pub const KEEPALIVE_NANOS: u64 = 500_000_000;

/// The default ceiling on how long a unit may wait before it is sent.
pub const DEFAULT_MAX_QUEUE_LATENCY_US: u32 = 500_000;

/// The words that switch an option off.
pub open spec fn is_off_word(s: Seq<char>) -> bool {
    s == "0"@ || s == "false"@ || s == "no"@ || s == "off"@
}

/// Whether `s` is one of the words that switch an option off.
pub fn off_word(s: &str) -> (yes: bool)
    ensures
        yes == is_off_word(s@),
{
    same_text(s, "0") || same_text(s, "false") || same_text(s, "no") || same_text(s, "off")
}

/// Whether an option that is on by default is on, by its environment variable.
pub open spec fn on_by_default(value: Option<Seq<char>>) -> bool {
    value matches Some(v) ==> !is_off_word(v)
}

/// The text of an optional string.
pub open spec fn text_of(value: Option<&str>) -> Option<Seq<char>> {
    match value {
        Some(v) => Some(v@),
        None => None,
    }
}

/// Whether an option that is on by default is on, by its environment variable.
pub fn enabled_by_default(value: Option<&str>) -> (on: bool)
    ensures
        on == on_by_default(text_of(value)),
{
    match value {
        Some(v) => !off_word(v),
        None => true,
    }
}

/// Whether audio goes out ahead of video bursts, by `ST_AUDIO_INTERLEAVE`.
pub fn audio_interleave_enabled(value: Option<&str>) -> (on: bool)
    ensures
        on == on_by_default(text_of(value)),
{
    enabled_by_default(value)
}

/// The ceiling in microseconds on how long a unit may wait, by
/// `ST_MAX_QUEUE_LATENCY_MS`.
pub open spec fn queue_ceiling(value: Option<Seq<char>>) -> Option<u32> {
    match value {
        None => Some(DEFAULT_MAX_QUEUE_LATENCY_US),
        Some(v) => if is_off_word(v) {
            None
        } else {
            match crate::text::parsed_unsigned(crate::text::trimmed(v), u32::MAX as nat) {
                Some(ms) => if ms == 0 {
                    Some(DEFAULT_MAX_QUEUE_LATENCY_US)
                } else if ms * 1000 <= u32::MAX {
                    Some((ms * 1000) as u32)
                } else {
                    Some(u32::MAX)
                },
                None => Some(DEFAULT_MAX_QUEUE_LATENCY_US),
            }
        },
    }
}

/// The ceiling in microseconds on how long a unit may wait before it is sent;
/// `None` where there is none.
pub fn max_queue_latency_us(value: Option<&str>) -> (ceiling: Option<u32>)
    ensures
        ceiling == queue_ceiling(text_of(value)),
{
    match value {
        None => Some(DEFAULT_MAX_QUEUE_LATENCY_US),
        Some(v) => {
            if off_word(v) {
                return None;
            }
            match parse_unsigned(trim(v).as_str(), 0xffff_ffff) {
                Some(ms) => {
                    if ms == 0 {
                        Some(DEFAULT_MAX_QUEUE_LATENCY_US)
                    } else if ms * 1000 <= 0xffff_ffff {
                        Some((ms * 1000) as u32)
                    } else {
                        Some(0xffff_ffff)
                    }
                },
                None => Some(DEFAULT_MAX_QUEUE_LATENCY_US),
            }
        },
    }
}

/// How long a unit has waited between capture and sending, in microseconds.
pub open spec fn dwell(capture_micros: u64, now_us: u64) -> u32 {
    if now_us <= capture_micros {
        0
    } else if now_us - capture_micros <= u32::MAX {
        (now_us - capture_micros) as u32
    } else {
        u32::MAX
    }
}

/// The running average of the waiting times.
#[derive(Clone, Copy, Debug, PartialEq, Eq, Structural)]
pub struct Backlog {
    pub ewma_us: u32,
    pub seen: bool,
}

impl Backlog {
    /// The average after one more waiting time: seven eighths of the old, one of
    /// the new; the first one counts in full.
    pub open spec fn with(self, dwell_us: u32) -> Backlog {
        Backlog {
            ewma_us: if self.seen {
                ((self.ewma_us * 7 + dwell_us) / 8) as u32
            } else {
                dwell_us
            },
            seen: true,
        }
    }
}

/// Takes in the waiting time of one unit; `true` says that it reached the ceiling.
///
/// The new average is in `backlog.ewma_us`, for the bitrate controller.
pub fn observe_send_backlog(
    capture_micros: u64,
    now_us: u64,
    backlog: &mut Backlog,
    hard_ceiling_us: Option<u32>,
) -> (breached: bool)
    ensures
        *final(backlog) == old(backlog).with(dwell(capture_micros, now_us)),
        breached == (hard_ceiling_us matches Some(c) && dwell(capture_micros, now_us) >= c),
{
    let waited: u64 = now_us.saturating_sub(capture_micros);
    let dwell_us: u32 = if waited <= 0xffff_ffff {
        waited as u32
    } else {
        0xffff_ffff
    };
    if backlog.seen {
        backlog.ewma_us = ((backlog.ewma_us as u64 * 7 + dwell_us as u64) / 8) as u32;
    } else {
        backlog.seen = true;
        backlog.ewma_us = dwell_us;
    }
    match hard_ceiling_us {
        Some(c) => dwell_us >= c,
        None => false,
    }
}

/// The average never leaves the range of the waiting times that went into it.
pub proof fn backlog_stays_in_range(b: Backlog, dwell_us: u32, low: u32, high: u32)
    requires
        low <= dwell_us <= high,
        b.seen ==> low <= b.ewma_us <= high,
    ensures
        low <= b.with(dwell_us).ewma_us <= high,
{
}

/// An encoded video unit, as far as the transport's decisions go.
#[derive(Clone, Copy, Debug, PartialEq, Eq, Structural)]
pub struct VideoUnit {
    pub source_seq: u64,
    pub capture_micros: u64,
    /// That decoding can start here.
    pub is_recovery: bool,
}

/// What to do with a unit.
#[derive(Clone, Copy, Debug, PartialEq, Eq, Structural)]
pub struct UnitVerdict {
    pub send: bool,
    pub request_keyframe: bool,
}

/// Decides unit by unit what is sent to one client.
///
/// Units are differences to the one before. Once one is lost, those behind it
/// are of no use until a unit from which decoding can start.
#[derive(Clone, Copy, Debug)]
pub struct VideoGate {
    pub waiting_for_recovery: bool,
    pub last_source_seq: Option<u64>,
    pub last_keyframe_request: Option<u64>,
    pub backlog: Backlog,
    pub hard_ceiling_us: Option<u32>,
}

impl VideoGate {
    /// How many units are missing before this one.
    pub open spec fn gap(self, unit: VideoUnit) -> nat {
        match self.last_source_seq {
            Some(last) => if unit.source_seq > last + 1 {
                (unit.source_seq - last - 1) as nat
            } else {
                0
            },
            None => 0,
        }
    }

    pub open spec fn breaches(self, unit: VideoUnit, now_us: u64) -> bool {
        self.hard_ceiling_us matches Some(c) && dwell(unit.capture_micros, now_us) >= c
    }

    /// That the unit is held back.
    pub open spec fn holds(self, unit: VideoUnit, now_us: u64) -> bool {
        &&& !unit.is_recovery
        &&& self.waiting_for_recovery || self.gap(unit) > 0 || self.breaches(unit, now_us)
    }

    pub open spec fn may_request(self, now: u64) -> bool {
        self.last_keyframe_request matches Some(last) ==> elapsed(now, last)
            >= KEYFRAME_THROTTLE_NANOS
    }

    pub open spec fn verdict(self, unit: VideoUnit, now_us: u64, now: u64) -> UnitVerdict {
        UnitVerdict {
            send: !self.holds(unit, now_us),
            request_keyframe: (self.gap(unit) > 0 || self.holds(unit, now_us))
                && self.may_request(now),
        }
    }

    pub open spec fn after(self, unit: VideoUnit, now_us: u64, now: u64) -> VideoGate {
        VideoGate {
            waiting_for_recovery: self.holds(unit, now_us),
            last_source_seq: Some(unit.source_seq),
            last_keyframe_request: if self.verdict(unit, now_us, now).request_keyframe {
                Some(now)
            } else {
                self.last_keyframe_request
            },
            backlog: self.backlog.with(dwell(unit.capture_micros, now_us)),
            hard_ceiling_us: self.hard_ceiling_us,
        }
    }

    /// A gate that has seen nothing yet.
    pub fn new(hard_ceiling_us: Option<u32>) -> (out: Self)
        ensures
            !out.waiting_for_recovery,
            out.last_source_seq is None,
            out.last_keyframe_request is None,
            !out.backlog.seen,
            out.backlog.ewma_us == 0,
            out.hard_ceiling_us == hard_ceiling_us,
    {
        VideoGate {
            waiting_for_recovery: false,
            last_source_seq: None,
            last_keyframe_request: None,
            backlog: Backlog { ewma_us: 0, seen: false },
            hard_ceiling_us,
        }
    }

    fn request_if_due(&mut self, now: u64) -> (requested: bool)
        ensures
            requested == old(self).may_request(now),
            *final(self) == (VideoGate {
                last_keyframe_request: if old(self).may_request(now) {
                    Some(now)
                } else {
                    old(self).last_keyframe_request
                },
                ..*old(self)
            }),
    {
        let due = match self.last_keyframe_request {
            Some(last) => now.saturating_sub(last) >= KEYFRAME_THROTTLE_NANOS,
            None => true,
        };
        if due {
            self.last_keyframe_request = Some(now);
        }
        due
    }

    /// Decides on one unit. `now_us` is wall time, `now` monotonic time.
    pub fn judge(&mut self, unit: VideoUnit, now_us: u64, now: u64) -> (verdict: UnitVerdict)
        ensures
            verdict == old(self).verdict(unit, now_us, now),
            *final(self) == old(self).after(unit, now_us, now),
    {
        let source_gap: u64 = match self.last_source_seq {
            Some(last) => unit.source_seq.saturating_sub(last.saturating_add(1)),
            None => 0,
        };
        self.last_source_seq = Some(unit.source_seq);
        let breached = observe_send_backlog(
            unit.capture_micros,
            now_us,
            &mut self.backlog,
            self.hard_ceiling_us,
        );
        let mut asked = false;
        if breached && !unit.is_recovery && !self.waiting_for_recovery {
            self.waiting_for_recovery = true;
            asked = self.request_if_due(now);
        }
        if source_gap > 0 {
            self.waiting_for_recovery = true;
            if self.request_if_due(now) {
                asked = true;
            }
        }
        if self.waiting_for_recovery && !unit.is_recovery {
            if self.request_if_due(now) {
                asked = true;
            }
            UnitVerdict { send: false, request_keyframe: asked }
        } else {
            self.waiting_for_recovery = false;
            UnitVerdict { send: true, request_keyframe: asked }
        }
    }
}

/// A run of units with the times at which they are looked at.
pub open spec fn gate_at(
    start: VideoGate,
    units: Seq<VideoUnit>,
    wall: Seq<u64>,
    mono: Seq<u64>,
    k: nat,
) -> VideoGate
    decreases k,
{
    if k == 0 {
        start
    } else {
        gate_at(start, units, wall, mono, (k - 1) as nat).after(
            units[k - 1],
            wall[k - 1],
            mono[k - 1],
        )
    }
}

/// That the unit at `k` of a run is sent.
pub open spec fn sent_at(
    start: VideoGate,
    units: Seq<VideoUnit>,
    wall: Seq<u64>,
    mono: Seq<u64>,
    k: int,
) -> bool {
    !gate_at(start, units, wall, mono, k as nat).holds(units[k], wall[k])
}

/// A unit that needs its predecessor is sent only right behind it: the unit
/// before it in the run was sent too, and none is missing between the two.
pub proof fn sent_units_keep_the_decode_chain(
    start: VideoGate,
    units: Seq<VideoUnit>,
    wall: Seq<u64>,
    mono: Seq<u64>,
    k: int,
)
    requires
        wall.len() == units.len(),
        mono.len() == units.len(),
        0 < k < units.len(),
        sent_at(start, units, wall, mono, k),
        !units[k].is_recovery,
    ensures
        sent_at(start, units, wall, mono, k - 1),
        units[k].source_seq <= units[k - 1].source_seq + 1,
{
}

/// A unit from which decoding can start is always sent, and ends the waiting.
pub proof fn recovery_units_are_sent(gate: VideoGate, unit: VideoUnit, now_us: u64, now: u64)
    requires
        unit.is_recovery,
    ensures
        gate.verdict(unit, now_us, now).send,
        !gate.after(unit, now_us, now).waiting_for_recovery,
{
}

/// Between two keyframe requests lies at least the throttle time.
pub proof fn keyframe_requests_are_throttled(
    gate: VideoGate,
    first: VideoUnit,
    first_us: u64,
    first_at: u64,
    second: VideoUnit,
    second_us: u64,
    second_at: u64,
)
    requires
        gate.verdict(first, first_us, first_at).request_keyframe,
        gate.after(first, first_us, first_at).verdict(second, second_us, second_at).request_keyframe,
    ensures
        second_at >= first_at + KEYFRAME_THROTTLE_NANOS,
{
}

/// What the sender is set to.
#[derive(Clone, Copy, Debug, PartialEq, Eq, Structural)]
pub struct SenderSettings {
    pub fec_pct: u16,
    pub audio_depth: u8,
    pub dup_first: bool,
}

/// What of the sender's settings has to change.
#[derive(Clone, Copy, Debug, PartialEq, Eq, Structural)]
pub struct SettingsChange {
    pub fec_pct: Option<u16>,
    pub audio_depth: Option<u8>,
    pub dup_first: Option<bool>,
}

/// The settings that the sender was last given.
#[derive(Clone, Copy, Debug, PartialEq, Eq, Structural)]
pub struct AppliedSettings {
    pub fec_pct: u16,
    pub audio_depth: u8,
    pub dup_first: Option<bool>,
}

impl AppliedSettings {
    /// Before anything was applied, with values that no setting takes.
    pub fn new() -> (out: Self)
        ensures
            out == (AppliedSettings { fec_pct: 0xffff, audio_depth: 0xff, dup_first: None }),
    {
        AppliedSettings { fec_pct: 0xffff, audio_depth: 0xff, dup_first: None }
    }

    /// Takes up the wanted settings and says which differ from those in force.
    pub fn update(&mut self, wanted: SenderSettings) -> (change: SettingsChange)
        ensures
            *final(self) == (AppliedSettings {
                fec_pct: wanted.fec_pct,
                audio_depth: wanted.audio_depth,
                dup_first: Some(wanted.dup_first),
            }),
            change == (SettingsChange {
                fec_pct: if wanted.fec_pct != old(self).fec_pct {
                    Some(wanted.fec_pct)
                } else {
                    None
                },
                audio_depth: if wanted.audio_depth != old(self).audio_depth {
                    Some(wanted.audio_depth)
                } else {
                    None
                },
                dup_first: if old(self).dup_first != Some(wanted.dup_first) {
                    Some(wanted.dup_first)
                } else {
                    None
                },
            }),
    {
        let mut change = SettingsChange { fec_pct: None, audio_depth: None, dup_first: None };
        if wanted.fec_pct != self.fec_pct {
            change.fec_pct = Some(wanted.fec_pct);
            self.fec_pct = wanted.fec_pct;
        }
        if wanted.audio_depth != self.audio_depth {
            change.audio_depth = Some(wanted.audio_depth);
            self.audio_depth = wanted.audio_depth;
        }
        let same = match self.dup_first {
            Some(on) => on == wanted.dup_first,
            None => false,
        };
        if !same {
            change.dup_first = Some(wanted.dup_first);
            self.dup_first = Some(wanted.dup_first);
        }
        change
    }
}

/// The state of one client's transport loop.
#[derive(Clone, Copy, Debug)]
pub struct Transport {
    pub gate: VideoGate,
    pub applied: AppliedSettings,
    pub last_keepalive: u64,
}

/// What a turn of the loop starts with.
#[derive(Clone, Copy, Debug, PartialEq, Eq, Structural)]
pub struct TurnStart {
    pub send_keepalive: bool,
    pub change: SettingsChange,
}

impl Transport {
    pub fn new(hard_ceiling_us: Option<u32>, now: u64) -> (out: Self)
        ensures
            !out.gate.waiting_for_recovery,
            out.gate.last_source_seq is None,
            out.gate.last_keyframe_request is None,
            !out.gate.backlog.seen,
            out.gate.backlog.ewma_us == 0,
            out.gate.hard_ceiling_us == hard_ceiling_us,
            out.applied == (AppliedSettings { fec_pct: 0xffff, audio_depth: 0xff, dup_first: None }),
            out.last_keepalive == now,
    {
        Transport {
            gate: VideoGate::new(hard_ceiling_us),
            applied: AppliedSettings::new(),
            last_keepalive: now,
        }
    }

    /// Starts a turn: a keepalive where the path has been quiet for long enough,
    /// and the settings that have changed.
    pub fn start_turn(&mut self, wanted: SenderSettings, now: u64) -> (start: TurnStart)
        ensures
            start.send_keepalive == (elapsed(now, old(self).last_keepalive) >= KEEPALIVE_NANOS),
            start.change.fec_pct == (if wanted.fec_pct != old(self).applied.fec_pct {
                Some(wanted.fec_pct)
            } else {
                None
            }),
            start.change.audio_depth == (if wanted.audio_depth != old(self).applied.audio_depth {
                Some(wanted.audio_depth)
            } else {
                None
            }),
            start.change.dup_first == (if old(self).applied.dup_first != Some(wanted.dup_first) {
                Some(wanted.dup_first)
            } else {
                None
            }),
            *final(self) == (Transport {
                gate: old(self).gate,
                applied: AppliedSettings {
                    fec_pct: wanted.fec_pct,
                    audio_depth: wanted.audio_depth,
                    dup_first: Some(wanted.dup_first),
                },
                last_keepalive: if start.send_keepalive {
                    now
                } else {
                    old(self).last_keepalive
                },
            }),
    {
        let quiet = now.saturating_sub(self.last_keepalive) >= KEEPALIVE_NANOS;
        if quiet {
            self.last_keepalive = now;
        }
        let change = self.applied.update(wanted);
        TurnStart { send_keepalive: quiet, change }
    }

    /// Decides on one unit; a unit that is sent puts off the next keepalive.
    pub fn handle_unit(&mut self, unit: VideoUnit, now_us: u64, now: u64) -> (verdict: UnitVerdict)
        ensures
            verdict == old(self).gate.verdict(unit, now_us, now),
            *final(self) == (Transport {
                gate: old(self).gate.after(unit, now_us, now),
                applied: old(self).applied,
                last_keepalive: if verdict.send {
                    now
                } else {
                    old(self).last_keepalive
                },
            }),
    {
        let verdict = self.gate.judge(unit, now_us, now);
        if verdict.send {
            self.last_keepalive = now;
        }
        verdict
    }
}

/// Where a client's media goes.
#[derive(Clone, Copy, Debug, PartialEq, Eq, Structural)]
pub struct MediaRoute {
    pub current: MediaAddr,
}

impl MediaRoute {
    /// Where the sender has to be pointed, where that is elsewhere than now.
    pub fn wants_repoint(&self, wanted: MediaAddr) -> (to: Option<MediaAddr>)
        ensures
            to == (if wanted != self.current {
                Some(wanted)
            } else {
                None
            }),
    {
        if wanted != self.current {
            Some(wanted)
        } else {
            None
        }
    }

    /// Takes in whether the sender could be pointed there; `true` asks for a keyframe, by
    /// which the client picks up the stream on the new path.
    pub fn repointed(&mut self, wanted: MediaAddr, ok: bool) -> (request_keyframe: bool)
        ensures
            request_keyframe == ok,
            final(self).current == (if ok {
                wanted
            } else {
                old(self).current
            }),
    {
        if ok {
            self.current = wanted;
        }
        ok
    }
}

/// Whether the turn takes another unit after `burst` of them.
pub fn continue_burst(burst: usize) -> (more: bool)
    ensures
        more == (burst < MAX_VIDEO_SEND_BURST),
{
    burst < MAX_VIDEO_SEND_BURST
}

} // verus!
