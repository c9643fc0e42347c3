//! When the bitrate changes, and whether a change took effect.
//!
//! Points in time are nanoseconds on a monotonic clock.

use vstd::prelude::*;

verus! {

/// How long a downward change may take to show: one and a half seconds.
pub const GRACE_NANOS: u64 = 1_500_000_000;

/// How much longer to wait where there is not enough data to judge by.
pub const EXTENSION_NANOS: u64 = 500_000_000;

/// The least span over which a rate is measured.
pub const MIN_SPAN_NANOS: u64 = 500_000_000;

pub const FAILURES_TO_DISABLE_INPLACE: u32 = 2;

/// The time from `start` to `now`; none where the clock reads earlier.
pub open spec fn elapsed(now: u64, start: u64) -> nat {
    if now >= start {
        (now - start) as nat
    } else {
        0
    }
}

/// Verifies that an in-place bitrate change took effect by the encoder's output.
///
/// Only a downward change is judged. An encoder produces far less than its target
/// on calm content, so a low rate behind an upward change says nothing; a cap
/// that is lowered it must honour.
#[derive(Clone, Copy, Debug)]
pub struct BitrateVerifier {
    pub fps: u32,
    pub window_bytes: u64,
    pub window_frames: u32,
    pub window_start: u64,
    /// The target in kbit/s and the time at which it is judged.
    pub pending: Option<(u32, u64)>,
    pub consecutive_failures: u32,
    /// That in-place changes have proved to have no effect.
    pub inplace_ineffective: bool,
}

impl BitrateVerifier {
    /// The rate in kbit/s over the window, where it is long enough to tell.
    pub open spec fn measured(self, now: u64) -> Option<nat> {
        if elapsed(now, self.window_start) < MIN_SPAN_NANOS || self.window_frames < self.fps / 2 {
            None
        } else {
            let kbps = (self.window_bytes as nat * 8_000_000) / elapsed(now, self.window_start);
            Some(
                if kbps <= u32::MAX {
                    kbps
                } else {
                    u32::MAX as nat
                },
            )
        }
    }

    /// That a rate is so far above the target that the change cannot have applied:
    /// more than nine fifths of it.
    pub open spec fn overshoots(measured: nat, target: nat) -> bool {
        5 * measured > 9 * target
    }

    /// The verifier after a check at `now`.
    pub open spec fn checked(self, now: u64) -> BitrateVerifier {
        match self.pending {
            None => self,
            Some((target, deadline)) => if now < deadline {
                self
            } else {
                match self.measured(now) {
                    None => BitrateVerifier {
                        pending: Some((target, (now + EXTENSION_NANOS) as u64)),
                        ..self
                    },
                    Some(kbps) => if Self::overshoots(kbps, target as nat) {
                        let failures = if self.consecutive_failures < u32::MAX {
                            (self.consecutive_failures + 1) as u32
                        } else {
                            u32::MAX
                        };
                        BitrateVerifier {
                            pending: None,
                            consecutive_failures: failures,
                            inplace_ineffective: self.inplace_ineffective || failures
                                >= FAILURES_TO_DISABLE_INPLACE,
                            ..self
                        }
                    } else {
                        BitrateVerifier { pending: None, consecutive_failures: 0, ..self }
                    },
                }
            },
        }
    }

    /// That a check at `now` finds that a change did not apply.
    pub open spec fn failure_at(self, now: u64) -> bool {
        self.pending matches Some((target, deadline)) && now >= deadline && (self.measured(
            now,
        ) matches Some(kbps) && Self::overshoots(kbps, target as nat))
    }

    /// A verifier with nothing to verify yet.
    pub fn new(fps: u32, now: u64) -> (out: Self)
        ensures
            out.fps == (if fps == 0 {
                1
            } else {
                fps
            }),
            out.window_bytes == 0,
            out.window_frames == 0,
            out.window_start == now,
            out.pending is None,
            out.consecutive_failures == 0,
            !out.inplace_ineffective,
    {
        BitrateVerifier {
            fps: if fps == 0 {
                1
            } else {
                fps
            },
            window_bytes: 0,
            window_frames: 0,
            window_start: now,
            pending: None,
            consecutive_failures: 0,
            inplace_ineffective: false,
        }
    }

    /// Takes in one encoded frame.
    pub fn record(&mut self, bytes: usize)
        ensures
            *final(self) == (BitrateVerifier {
                window_bytes: (if old(self).window_bytes + bytes <= u64::MAX {
                    (old(self).window_bytes + bytes) as u64
                } else {
                    u64::MAX
                }),
                window_frames: (if old(self).window_frames < u32::MAX {
                    (old(self).window_frames + 1) as u32
                } else {
                    u32::MAX
                }),
                ..*old(self)
            }),
    {
        self.window_bytes = self.window_bytes.saturating_add(bytes as u64);
        self.window_frames = self.window_frames.saturating_add(1);
    }

    /// Starts to verify a downward in-place change to `target_kbps`.
    pub fn arm_downward(&mut self, target_kbps: u32, now: u64)
        requires
            now + GRACE_NANOS <= u64::MAX,
        ensures
            *final(self) == (BitrateVerifier {
                pending: Some((target_kbps, (now + GRACE_NANOS) as u64)),
                window_bytes: 0,
                window_frames: 0,
                window_start: now,
                ..*old(self)
            }),
    {
        self.pending = Some((target_kbps, now + GRACE_NANOS));
        self.window_bytes = 0;
        self.window_frames = 0;
        self.window_start = now;
    }

    /// The rate in kbit/s over the window, where it is long enough to tell.
    pub fn measured_kbps(&self, now: u64) -> (kbps: Option<u32>)
        ensures
            match kbps {
                Some(k) => self.measured(now) == Some(k as nat),
                None => self.measured(now) is None,
            },
    {
        let span: u64 = now.saturating_sub(self.window_start);
        if span < MIN_SPAN_NANOS || self.window_frames < self.fps / 2 {
            return None;
        }
        let scaled: u128 = self.window_bytes as u128 * 8_000_000;
        let kbps: u128 = scaled / span as u128;
        if kbps <= 0xffff_ffff {
            Some(kbps as u32)
        } else {
            Some(0xffff_ffff)
        }
    }

    /// Judges a change that has reached its time. `true` says that it clearly did
    /// not apply, so that the encoder is to be rebuilt.
    pub fn check_and_take_failure(&mut self, now: u64) -> (failed: bool)
        requires
            now + EXTENSION_NANOS <= u64::MAX,
        ensures
            failed == old(self).failure_at(now),
            *final(self) == old(self).checked(now),
    {
        match self.pending {
            None => false,
            Some((target_kbps, deadline)) => {
                if now < deadline {
                    return false;
                }
                match self.measured_kbps(now) {
                    None => {
                        self.pending = Some((target_kbps, now + EXTENSION_NANOS));
                        false
                    },
                    Some(measured) => {
                        self.pending = None;
                        if 5 * (measured as u64) > 9 * (target_kbps as u64) {
                            self.consecutive_failures = self.consecutive_failures.saturating_add(1);
                            if self.consecutive_failures >= FAILURES_TO_DISABLE_INPLACE {
                                self.inplace_ineffective = true;
                            }
                            true
                        } else {
                            self.consecutive_failures = 0;
                            false
                        }
                    },
                }
            },
        }
    }
}

/// No change is judged before its grace time is over.
pub proof fn verifier_waits_for_grace(v: BitrateVerifier, target_kbps: u32, armed: u64, now: u64)
    requires
        armed + GRACE_NANOS <= u64::MAX,
        v.pending == Some((target_kbps, (armed + GRACE_NANOS) as u64)),
        now < armed + GRACE_NANOS,
    ensures
        !v.failure_at(now),
        v.checked(now) == v,
{
}

/// An encoder whose output keeps to a target is never found to fail.
pub proof fn verifier_is_inert_on_honest_output(
    v: BitrateVerifier,
    target_kbps: u32,
    deadline: u64,
    now: u64,
)
    requires
        v.pending == Some((target_kbps, deadline)),
        v.measured(now) matches Some(kbps) && kbps <= target_kbps,
    ensures
        !v.failure_at(now),
        now >= deadline ==> v.checked(now).consecutive_failures == 0 && v.checked(
            now,
        ).inplace_ineffective == v.inplace_ineffective,
{
}

/// What a check does. Without a change to judge, or before its time, it does nothing. Where the
/// output cannot be measured the change gets half a second more. Else the change is judged, once:
/// it has failed exactly where the output is above nine fifths of its target, which counts one
/// more failure in a row; where it has not failed the count starts anew.
pub proof fn a_check_judges_once(v: BitrateVerifier, now: u64)
    ensures
        match v.pending {
            None => !v.failure_at(now) && v.checked(now) == v,
            Some((target, deadline)) => if now < deadline {
                !v.failure_at(now) && v.checked(now) == v
            } else {
                match v.measured(now) {
                    None => {
                        &&& !v.failure_at(now)
                        &&& v.checked(now).pending matches Some((same, later)) && same == target
                            && (now + 500_000_000 <= u64::MAX ==> later == now + 500_000_000)
                        &&& v.checked(now).consecutive_failures == v.consecutive_failures
                        &&& v.checked(now).inplace_ineffective == v.inplace_ineffective
                    },
                    Some(kbps) => {
                        &&& v.failure_at(now) <==> 10 * kbps > 18 * target
                        &&& v.checked(now).pending is None
                        &&& v.checked(now).consecutive_failures == if !v.failure_at(now) {
                            0
                        } else if v.consecutive_failures < u32::MAX {
                            v.consecutive_failures + 1
                        } else {
                            u32::MAX as int
                        }
                        &&& v.checked(now).inplace_ineffective <==> v.inplace_ineffective || v.checked(
                            now,
                        ).consecutive_failures >= 2
                    },
                }
            },
        },
        v.checked(now).fps == v.fps,
        v.checked(now).window_bytes == v.window_bytes,
        v.checked(now).window_frames == v.window_frames,
        v.checked(now).window_start == v.window_start,
{
}

/// Two failures in a row turn in-place changes off, and nothing turns them on again.
pub proof fn repeated_failures_disable_inplace(v: BitrateVerifier, now: u64)
    ensures
        v.failure_at(now) && v.consecutive_failures >= 1 ==> v.checked(now).inplace_ineffective,
        v.inplace_ineffective ==> v.checked(now).inplace_ineffective,
{
}

pub const DOWN_INTERVAL_NANOS: u64 = 750_000_000;

pub const UP_INTERVAL_NANOS: u64 = 4_000_000_000;

pub const DOWN_MIN_DELTA_KBPS: u32 = 2_500;

pub const UP_MIN_DELTA_KBPS: u32 = 5_000;

/// A tenth of the current rate, but no less than `least`.
pub open spec fn min_delta(current_kbps: u32, least: u32) -> u32 {
    if current_kbps / 10 >= least {
        current_kbps / 10
    } else {
        least
    }
}

/// That a change from one rate to another is due.
///
/// A lower rate is taken up sooner and for a smaller step than a higher one.
pub open spec fn reconfigure_due(
    current_kbps: u32,
    target_kbps: u32,
    last_reconfigure: u64,
    now: u64,
) -> bool {
    if target_kbps < current_kbps {
        &&& elapsed(now, last_reconfigure) >= DOWN_INTERVAL_NANOS
        &&& current_kbps - target_kbps >= min_delta(current_kbps, DOWN_MIN_DELTA_KBPS)
    } else if target_kbps > current_kbps {
        &&& elapsed(now, last_reconfigure) >= UP_INTERVAL_NANOS
        &&& target_kbps - current_kbps >= min_delta(current_kbps, UP_MIN_DELTA_KBPS)
    } else {
        false
    }
}

/// Whether a change from one rate to another is due.
pub fn should_schedule_bitrate_reconfigure(
    current_kbps: u32,
    target_kbps: u32,
    last_reconfigure: u64,
    now: u64,
) -> (due: bool)
    ensures
        due == reconfigure_due(current_kbps, target_kbps, last_reconfigure, now),
{
    if current_kbps == target_kbps {
        return false;
    }
    let span: u64 = now.saturating_sub(last_reconfigure);
    let tenth: u32 = current_kbps / 10;
    if target_kbps < current_kbps {
        let least: u32 = if tenth >= DOWN_MIN_DELTA_KBPS {
            tenth
        } else {
            DOWN_MIN_DELTA_KBPS
        };
        span >= DOWN_INTERVAL_NANOS && current_kbps - target_kbps >= least
    } else {
        let least: u32 = if tenth >= UP_MIN_DELTA_KBPS {
            tenth
        } else {
            UP_MIN_DELTA_KBPS
        };
        span >= UP_INTERVAL_NANOS && target_kbps - current_kbps >= least
    }
}

} // verus!
