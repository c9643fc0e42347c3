//! What the shared stream does, told of its operations from the outside: how its bitrate
//! follows the network, when its encoder is replaced, and what the clients learn of it.

use vstd::prelude::*;
use crate::bitrate::{should_schedule_bitrate_reconfigure, BitrateVerifier};
use crate::media::EncoderConfig;
use crate::pipeline::{
    composite_plan, initial_rate_bounds, newest_frame, next_encoded_video_unit_seq, number_units,
    to_stream_config, CursorComposite, EncodedUnit, EncodedVideoFrame, FrameInfo, FrameInputs,
    FrameStore, OutputInfo, Pipeline, PipelineAction, RebuildPoll, SharedCaptureState, StreamConfig,
    SwitchEvent, SwitchStep,
};
use crate::pipeline_start::{
    pipeline_turn, session_debug_info, start_step, started, FrameWait, SessionDebugInfo,
    StartEvent, StartReport, StartStep, Turn,
};

verus! {

/// A change that is due brings the encoder to the target, up as well as down: the last thing
/// that happens before the frame is a change to the settings in use with the forced bitrate, or
/// with the clients' limited target where none is forced. It is made in place unless that has
/// proved to have no effect.
pub proof fn a_due_change_goes_to_the_target(
    p: &mut Pipeline,
    inputs: FrameInputs,
    actions: Vec<PipelineAction>,
)
    requires
        call_ensures(Pipeline::before_encode, (p, inputs), actions),
        old(p).pending_rebuild is None,
        !old(p).verifier.failure_at(inputs.now),
        call_ensures(
            should_schedule_bitrate_reconfigure,
            (
                old(p).config.bitrate_kbps,
                if inputs.forced_kbps > 0 {
                    inputs.forced_kbps
                } else {
                    inputs.adaptive_kbps
                },
                old(p).last_reconfigure,
                inputs.now,
            ),
            true,
        ),
    ensures
        actions@.len() > 0,
        match actions@.last() {
            PipelineAction::UpdateInPlace(next) => {
                &&& !final(p).verifier.inplace_ineffective
                &&& inputs.forced_kbps > 0 ==> next.bitrate_kbps == inputs.forced_kbps
                &&& inputs.forced_kbps == 0 ==> next.bitrate_kbps == inputs.adaptive_limited_kbps
                &&& next == (EncoderConfig { bitrate_kbps: next.bitrate_kbps, ..old(p).config })
                &&& final(p).pending_rebuild is None
            },
            PipelineAction::StartRebuild(next) => {
                &&& final(p).verifier.inplace_ineffective
                &&& inputs.forced_kbps > 0 ==> next.bitrate_kbps == inputs.forced_kbps
                &&& inputs.forced_kbps == 0 ==> next.bitrate_kbps == inputs.adaptive_limited_kbps
                &&& next == (EncoderConfig { bitrate_kbps: next.bitrate_kbps, ..old(p).config })
                &&& final(p).pending_rebuild == Some(next)
            },
            _ => false,
        },
        final(p).config == old(p).config,
{
}

/// No other change is made: an encoder is only ever changed or rebuilt with the settings in use,
/// at the bitrate in use or at the target; a change in place comes last and alone, and none comes
/// while an encoder is being built or while no change is due.
pub proof fn only_the_target_is_aimed_at(
    p: &mut Pipeline,
    inputs: FrameInputs,
    actions: Vec<PipelineAction>,
    i: int,
    due: bool,
)
    requires
        call_ensures(Pipeline::before_encode, (p, inputs), actions),
        0 <= i < actions@.len(),
        call_ensures(
            should_schedule_bitrate_reconfigure,
            (
                final(p).config.bitrate_kbps,
                if inputs.forced_kbps > 0 {
                    inputs.forced_kbps
                } else {
                    inputs.adaptive_kbps
                },
                final(p).last_reconfigure,
                inputs.now,
            ),
            due,
        ),
    ensures
        actions@[i] matches PipelineAction::UpdateInPlace(next) ==> {
            &&& i == actions@.len() - 1
            &&& final(p).pending_rebuild is None
            &&& inputs.forced_kbps > 0 ==> next.bitrate_kbps == inputs.forced_kbps
            &&& inputs.forced_kbps == 0 ==> next.bitrate_kbps == inputs.adaptive_limited_kbps
            &&& next == (EncoderConfig { bitrate_kbps: next.bitrate_kbps, ..final(p).config })
            &&& due
        },
        actions@[i] matches PipelineAction::StartRebuild(next) ==> {
            &&& i == actions@.len() - 1
            &&& final(p).pending_rebuild == Some(next)
            &&& next == final(p).config || (next == (EncoderConfig {
                bitrate_kbps: next.bitrate_kbps,
                ..final(p).config
            }) && (inputs.forced_kbps > 0 ==> next.bitrate_kbps == inputs.forced_kbps) && (
            inputs.forced_kbps == 0 ==> next.bitrate_kbps == inputs.adaptive_limited_kbps))
        },
{
}

/// An in-place change that had no effect makes the encoder be rebuilt with the settings that it
/// should have had, and nothing else is changed on that frame.
pub proof fn an_ineffective_change_is_rebuilt(
    p: &mut Pipeline,
    inputs: FrameInputs,
    actions: Vec<PipelineAction>,
)
    requires
        call_ensures(Pipeline::before_encode, (p, inputs), actions),
        old(p).pending_rebuild is None,
        old(p).verifier.failure_at(inputs.now),
    ensures
        actions@.len() > 0,
        actions@.last() == PipelineAction::StartRebuild(old(p).config),
        final(p).pending_rebuild == Some(old(p).config),
        final(p).config == old(p).config,
        final(p).verifier.pending is None,
        forall|i: int| 0 <= i < actions@.len() ==> !(#[trigger] actions@[i] is UpdateInPlace),
{
}

/// An encoder that was built on the side replaces the one in use when it is ready, and only
/// then: its settings are those in use from there on, and it starts with a keyframe.
pub proof fn a_built_encoder_takes_over(
    p: &mut Pipeline,
    inputs: FrameInputs,
    actions: Vec<PipelineAction>,
)
    requires
        call_ensures(Pipeline::before_encode, (p, inputs), actions),
    ensures
        (exists|i: int| 0 <= i < actions@.len() && #[trigger] actions@[i] is SwapEncoder) <==> old(p).pending_rebuild is Some && inputs.rebuild == RebuildPoll::Built,
        old(p).pending_rebuild is Some && inputs.rebuild == RebuildPoll::Built ==> {
            &&& Some(final(p).config) == old(p).pending_rebuild
            &&& final(p).last_reconfigure == inputs.now
            &&& exists|i: int| 0 <= i < actions@.len() && #[trigger] actions@[i] is RequestKeyframe
        },
        !(old(p).pending_rebuild is Some && inputs.rebuild == RebuildPoll::Built) ==> {
            &&& final(p).config == old(p).config
            &&& final(p).last_reconfigure == old(p).last_reconfigure
            &&& final(p).shared == old(p).shared
        },
{
    let acts = actions@;
    let k1: int = if inputs.keyframe_requested {
        1
    } else {
        0
    };
    let k2: int = if inputs.force_keyframe {
        k1 + 1
    } else {
        k1
    };
    if old(p).pending_rebuild is Some && inputs.rebuild == RebuildPoll::Built {
        assert(acts[k2] is SwapEncoder);
        assert(acts[k2 + 1] is RequestKeyframe);
    }
}

/// Where an encoder could not be built, the one in use stays and every client is set back to
/// its bitrate; while it is not done, nothing happens to it.
pub proof fn a_failed_build_resets_the_clients(
    p: &mut Pipeline,
    inputs: FrameInputs,
    actions: Vec<PipelineAction>,
)
    requires
        call_ensures(Pipeline::before_encode, (p, inputs), actions),
    ensures
        forall|i: int|
            0 <= i < actions@.len() ==> (#[trigger] actions@[i] matches PipelineAction::ResetClients(
                kbps,
            ) ==> kbps == old(p).config.bitrate_kbps),
        (exists|i: int| 0 <= i < actions@.len() && #[trigger] actions@[i] is ResetClients) <==> old(p).pending_rebuild is Some && inputs.rebuild == RebuildPoll::Failed,
        old(p).pending_rebuild is Some && inputs.rebuild == RebuildPoll::NotDone
            ==> final(p).pending_rebuild == old(p).pending_rebuild,
{
    let k1: int = if inputs.keyframe_requested {
        1
    } else {
        0
    };
    let k2: int = if inputs.force_keyframe {
        k1 + 1
    } else {
        k1
    };
    if old(p).pending_rebuild is Some && inputs.rebuild == RebuildPoll::Failed {
        assert(actions@[k2] is ResetClients);
    }
}

/// The encoder in use is asked for a keyframe when a client or the capture wants one, and an
/// encoder that takes over is; at no other time.
pub proof fn keyframes_are_made_on_demand(
    p: &mut Pipeline,
    inputs: FrameInputs,
    actions: Vec<PipelineAction>,
)
    requires
        call_ensures(Pipeline::before_encode, (p, inputs), actions),
    ensures
        (exists|i: int| 0 <= i < actions@.len() && #[trigger] actions@[i] is RequestKeyframe) <==> (
        inputs.keyframe_requested || inputs.force_keyframe || (old(p).pending_rebuild is Some
            && inputs.rebuild == RebuildPoll::Built)),
        inputs.keyframe_requested || inputs.force_keyframe ==> actions@[0] is RequestKeyframe,
{
    let k1: int = if inputs.keyframe_requested {
        1
    } else {
        0
    };
    let k2: int = if inputs.force_keyframe {
        k1 + 1
    } else {
        k1
    };
    if inputs.keyframe_requested || inputs.force_keyframe {
        assert(actions@[0] is RequestKeyframe);
    } else if old(p).pending_rebuild is Some && inputs.rebuild == RebuildPoll::Built {
        assert(actions@[k2 + 1] is RequestKeyframe);
    }
}

/// A change in place that worked is in use and, where it lowers the bitrate, is put to the proof
/// against the new bitrate a second and a half later. One that failed leaves everything as it is
/// and has the encoder built on the side with the same settings.
pub proof fn in_place_changes_are_taken_up(
    p: &mut Pipeline,
    next: EncoderConfig,
    ok: bool,
    now: u64,
    rebuild: Option<EncoderConfig>,
)
    requires
        call_ensures(Pipeline::in_place_result, (p, next, ok, now), rebuild),
        now + 1_500_000_000 <= u64::MAX,
    ensures
        ok ==> rebuild is None && final(p).config == next && final(p).last_reconfigure == now,
        ok && next.bitrate_kbps < old(p).config.bitrate_kbps ==> {
            &&& final(p).verifier.pending matches Some((kbps, at)) && kbps == next.bitrate_kbps
                && at == now + 1_500_000_000
            &&& final(p).verifier.window_bytes == 0
            &&& final(p).verifier.window_frames == 0
            &&& final(p).verifier.window_start == now
        },
        ok && next.bitrate_kbps >= old(p).config.bitrate_kbps ==> final(p).verifier == old(p).verifier,
        !ok ==> rebuild == Some(next) && final(p).pending_rebuild == Some(next) && final(p).config
            == old(p).config && final(p).verifier == old(p).verifier,
        final(p).shared == old(p).shared,
{
}

/// A frame of another size needs an encoder of that size and of the settings in use otherwise;
/// one of the same size needs none.
pub proof fn encoders_fit_their_frames(
    p: Pipeline,
    width: u32,
    height: u32,
    rebuild: Option<EncoderConfig>,
)
    requires
        call_ensures(Pipeline::encoder_for_size, (&p, width, height), rebuild),
    ensures
        rebuild is None <==> width == p.config.width && height == p.config.height,
        rebuild matches Some(c) ==> c.width == width && c.height == height && p.config
            == (EncoderConfig { width: p.config.width, height: p.config.height, ..c }),
{
}

/// Clients learn the size, frame rate, codec and chroma of the encoder that is used from now on,
/// whatever made it change.
pub proof fn clients_learn_of_a_new_size(p: &mut Pipeline, config: EncoderConfig)
    requires
        call_ensures(Pipeline::resized, (p, config), ()),
    ensures
        final(p).config == config,
        final(p).shared.updated_config matches Some(s) && s.width == config.width && s.height
            == config.height && s.framerate == config.framerate && s.codec == config.codec
            && s.chroma == config.chroma,
        old(p).shared.config_generation < u64::MAX ==> final(p).shared.config_generation == old(p).shared.config_generation + 1,
        final(p).shared.selected_output == old(p).shared.selected_output,
        final(p).pending_rebuild == old(p).pending_rebuild,
{
}

/// A switch to another output ends in that output being the selected one, with the stream of
/// the encoder in use told to the clients; on every other step nothing changes.
pub proof fn a_switch_selects_the_output(
    p: &mut Pipeline,
    id: u32,
    event: SwitchEvent,
    step: SwitchStep,
)
    requires
        call_ensures(Pipeline::switch_output, (p, id, event), step),
    ensures
        step is Complete ==> {
            &&& final(p).shared.selected_output == id
            &&& final(p).shared.updated_config matches Some(s) && s.width == final(p).config.width
                && s.height == final(p).config.height && s.framerate == final(p).config.framerate
                && s.codec == final(p).config.codec && s.chroma == final(p).config.chroma
        },
        step !is Complete ==> *final(p) == *old(p),
        event matches SwitchEvent::Selected(known) ==> (if known {
            step is RestartCapture
        } else {
            step is Ignore
        }),
        event matches SwitchEvent::Restarted(ok) ==> (if ok {
            step is AwaitFrame
        } else {
            step is Stop
        }),
        event matches SwitchEvent::FirstFrame(None) ==> step is Stop,
        event matches SwitchEvent::FirstFrame(Some((w, h))) ==> {
            &&& step is Complete <==> w == old(p).config.width && h == old(p).config.height
            &&& step !is Complete ==> (step matches SwitchStep::Build(c) && c.width == w && c.height
                == h && c == (EncoderConfig { width: w, height: h, ..old(p).config }))
            &&& step is Complete ==> final(p).config == old(p).config
        },
        event matches SwitchEvent::Built(None) ==> step is Stop,
        event matches SwitchEvent::Built(Some(c)) ==> step is Complete && final(p).config == c,
{
}

/// A frame that was encoded counts with all its bytes. A frame rate that is proposed makes an
/// encoder be built for it, unless one is being built already.
pub proof fn a_proposed_rate_is_built(
    p: &mut Pipeline,
    bytes: usize,
    fps: Option<u32>,
    rebuild: Option<EncoderConfig>,
)
    requires
        call_ensures(Pipeline::after_encode, (p, bytes, fps), rebuild),
    ensures
        old(p).verifier.window_bytes + bytes <= u64::MAX ==> final(p).verifier.window_bytes == old(p).verifier.window_bytes + bytes,
        old(p).verifier.window_frames < u32::MAX ==> final(p).verifier.window_frames == old(p).verifier.window_frames + 1,
        rebuild is Some <==> fps is Some && old(p).pending_rebuild is None,
        rebuild matches Some(c) ==> Some(c.framerate) == fps && final(p).pending_rebuild == rebuild
            && old(p).config == (EncoderConfig { framerate: old(p).config.framerate, ..c }),
        rebuild is None ==> final(p).pending_rebuild == old(p).pending_rebuild,
        final(p).config == old(p).config,
{
}

/// On VideoToolbox a due change goes to the target too, and where it fails the clients are set
/// back to the bitrate in use.
pub proof fn videotoolbox_goes_to_the_target(
    p: &mut Pipeline,
    forced: u32,
    adaptive: u32,
    limited: u32,
    now: u64,
    next: Option<EncoderConfig>,
    ok: bool,
    reset: Option<u32>,
)
    requires
        call_ensures(Pipeline::videotoolbox_change, (old(p), forced, adaptive, limited, now), next),
        next is Some,
        call_ensures(Pipeline::videotoolbox_result, (p, next->0, ok, now), reset),
    ensures
        forced > 0 ==> next->0.bitrate_kbps == forced,
        forced == 0 ==> next->0.bitrate_kbps == limited,
        next->0 == (EncoderConfig { bitrate_kbps: next->0.bitrate_kbps, ..old(p).config }),
        ok ==> reset is None && final(p).config == next->0 && final(p).last_reconfigure == now,
        !ok ==> reset == Some(old(p).config.bitrate_kbps) && *final(p) == *old(p),
{
}

/// It is changed exactly when a change is due.
pub proof fn videotoolbox_changes_when_due(
    p: Pipeline,
    forced: u32,
    adaptive: u32,
    limited: u32,
    now: u64,
    next: Option<EncoderConfig>,
    due: bool,
)
    requires
        call_ensures(Pipeline::videotoolbox_change, (&p, forced, adaptive, limited, now), next),
        call_ensures(
            should_schedule_bitrate_reconfigure,
            (
                p.config.bitrate_kbps,
                if forced > 0 {
                    forced
                } else {
                    adaptive
                },
                p.last_reconfigure,
                now,
            ),
            due,
        ),
    ensures
        next is Some <==> due,
{
}

/// A lower bitrate is due three quarters of a second after the last change, for a step of a
/// tenth and at least 2500 kbit/s; a higher one four seconds after it, for a step of a tenth and
/// at least 5000 kbit/s.
pub proof fn changes_wait_for_time_and_distance(
    current: u32,
    target: u32,
    last: u64,
    now: u64,
    due: bool,
)
    requires
        call_ensures(should_schedule_bitrate_reconfigure, (current, target, last, now), due),
    ensures
        due ==> target != current,
        target < current ==> (due <==> now - last >= 750_000_000 && current - target >= 2_500
            && current - target >= current / 10),
        target > current ==> (due <==> now - last >= 4_000_000_000 && target - current >= 5_000
            && target - current >= current / 10),
{
}

/// A measured rate is the whole kbit/s that the bytes of the window make over its time, of a
/// window of half a second and half a second's frames.
pub proof fn rates_are_bits_over_time(v: BitrateVerifier, now: u64, kbps: Option<u32>)
    requires
        call_ensures(BitrateVerifier::measured_kbps, (&v, now), kbps),
    ensures
        kbps is Some <==> now - v.window_start >= 500_000_000 && v.window_frames >= v.fps / 2,
        kbps matches Some(k) ==> k * (now - v.window_start) <= v.window_bytes * 8_000_000 && (k
            < u32::MAX ==> v.window_bytes * 8_000_000 < (k + 1) * (now - v.window_start)),
{
    if let Some(k) = kbps {
        let scaled = v.window_bytes as int * 8_000_000;
        let span = now as int - v.window_start as int;
        vstd::arithmetic::div_mod::lemma_fundamental_div_mod(scaled, span);
        let q = scaled / span;
        assert(k as int <= q);
        assert(k as int * span <= q * span) by (nonlinear_arith)
            requires
                k as int <= q,
                span > 0,
        ;
        assert(q * span == span * q) by (nonlinear_arith);
        assert((q + 1) * span == span * q + span) by (nonlinear_arith);
    }
}

/// What is judged after a downward change is what was recorded since: recording adds up, and
/// arming starts anew with the target and a second and a half of grace.
pub proof fn windows_start_with_the_change(v: &mut BitrateVerifier, target: u32, now: u64)
    requires
        call_ensures(BitrateVerifier::arm_downward, (v, target, now), ()),
        now + 1_500_000_000 <= u64::MAX,
    ensures
        final(v).pending matches Some((kbps, at)) && kbps == target && at == now + 1_500_000_000,
        final(v).window_bytes == 0,
        final(v).window_frames == 0,
        final(v).window_start == now,
        final(v).consecutive_failures == old(v).consecutive_failures,
        final(v).inplace_ineffective == old(v).inplace_ineffective,
        final(v).fps == old(v).fps,
{
}

/// Every recorded frame counts once and with all its bytes.
pub proof fn recorded_frames_add_up(v: &mut BitrateVerifier, bytes: usize)
    requires
        call_ensures(BitrateVerifier::record, (v, bytes), ()),
        old(v).window_bytes + bytes <= u64::MAX,
        old(v).window_frames < u32::MAX,
    ensures
        final(v).window_bytes == old(v).window_bytes + bytes,
        final(v).window_frames == old(v).window_frames + 1,
        final(v).window_start == old(v).window_start,
        final(v).pending == old(v).pending,
        final(v).fps == old(v).fps,
{
}

/// A check finds a failure only of a change whose time has come, by what was measured, and only
/// where that is more than nine fifths of the target; a change that was judged is not judged
/// again.
pub proof fn failures_are_measured(
    v: &mut BitrateVerifier,
    now: u64,
    kbps: Option<u32>,
    failed: bool,
)
    requires
        call_ensures(BitrateVerifier::measured_kbps, (old(v), now), kbps),
        call_ensures(BitrateVerifier::check_and_take_failure, (v, now), failed),
    ensures
        failed <==> (old(v).pending matches Some((target, at)) && at <= now && (kbps matches Some(k)
            && 5 * k > 9 * target)),
        failed ==> final(v).pending is None && final(v).consecutive_failures >= 1,
        failed && old(v).consecutive_failures >= 1 ==> final(v).inplace_ineffective,
        old(v).inplace_ineffective ==> final(v).inplace_ineffective,
        !failed && final(v).pending is None && old(v).pending is Some
            ==> final(v).consecutive_failures == 0 && final(v).inplace_ineffective == old(v).inplace_ineffective,
        old(v).pending matches Some((_, at)) && now < at ==> *final(v) == *old(v),
{
}

/// The frame that is encoded is the last that was captured, and no demand for a keyframe is
/// lost with the frames that are passed over.
pub proof fn the_newest_frame_keeps_every_demand(frames: &Vec<FrameInfo>, out: FrameInfo, i: int)
    requires
        frames@.len() > 0,
        call_ensures(newest_frame, (frames,), out),
        0 <= i < frames@.len(),
    ensures
        out.width == frames@[frames@.len() - 1].width,
        out.height == frames@[frames@.len() - 1].height,
        frames@[i].force_keyframe ==> out.force_keyframe,
        out.force_keyframe ==> exists|k: int|
            0 <= k < frames@.len() && (#[trigger] frames@[k]).force_keyframe,
{
}

/// A forced bitrate is the start and both bounds; else the settings have them.
pub proof fn rate_bounds_are_configured(forced: u32, config: EncoderConfig, bounds: (u32, u32, u32))
    requires
        call_ensures(initial_rate_bounds, (forced, &config), bounds),
    ensures
        forced > 0 ==> bounds.0 == forced && bounds.1 == forced && bounds.2 == forced,
        forced == 0 ==> bounds.0 == config.bitrate_kbps && bounds.1 == config.min_bitrate_kbps
            && bounds.2 == config.max_bitrate_kbps,
{
}

/// The cursor is drawn into the picture only where nobody else shows it: not while a client is
/// in control, not where clients draw it, and not without one.
pub proof fn cursors_are_drawn_once(
    control: bool,
    separate: bool,
    has_cursor: bool,
    store: FrameStore,
    plan: CursorComposite,
)
    requires
        call_ensures(composite_plan, (control, separate, has_cursor, store), plan),
    ensures
        control || separate || !has_cursor ==> plan is Leave,
        !control && !separate && has_cursor ==> (plan is OntoCopy <==> store is Ram) && (
        plan is OntoReadback <==> store is DmaBuf) && (plan is Leave <==> store is Texture),
{
}

/// The units of a frame go out as they came, in order, with the time of their frame, and the
/// numbers of units that follow each other differ by one.
pub proof fn units_go_out_as_they_came(
    units: &Vec<EncodedUnit>,
    micros: u64,
    counter: &mut u64,
    out: (Vec<EncodedVideoFrame>, usize),
    i: int,
)
    requires
        call_ensures(number_units, (units, micros, counter), out),
        0 <= i < units@.len(),
        *old(counter) + units@.len() <= u64::MAX,
    ensures
        out.0@.len() == units@.len(),
        out.0@[i].data@ == units@[i].data@,
        out.0@[i].is_recovery == units@[i].is_recovery,
        out.0@[i].capture_micros == micros,
        out.0@[i].source_seq == *old(counter) + i,
        *final(counter) == *old(counter) + units@.len(),
        out.1 >= units@[i].data@.len(),
{
    lemma_numbers_count_up(*old(counter), i as nat);
    lemma_numbers_count_up(*old(counter), units@.len());
    lemma_unit_counts(units@, i);
}

proof fn lemma_numbers_count_up(start: u64, steps: nat)
    requires
        start + steps <= u64::MAX,
    ensures
        crate::pipeline::seq_after(start, steps) == start + steps,
    decreases steps,
{
    if steps > 0 {
        lemma_numbers_count_up(start, (steps - 1) as nat);
    }
}

proof fn lemma_unit_counts(units: Seq<EncodedUnit>, i: int)
    requires
        0 <= i < units.len(),
    ensures
        crate::pipeline::total_bytes(units) >= units[i].data@.len(),
    decreases units.len(),
{
    if i < units.len() - 1 {
        lemma_unit_counts(units.drop_last(), i);
    }
}

/// What a frame counts for is no more and no less than its units: two lists of units that are
/// handed over one behind the other count as much as the list of all of them.
pub proof fn unit_bytes_add_up(
    a: &Vec<EncodedUnit>,
    b: &Vec<EncodedUnit>,
    both: &Vec<EncodedUnit>,
    micros: u64,
    c1: &mut u64,
    c2: &mut u64,
    c3: &mut u64,
    r1: (Vec<EncodedVideoFrame>, usize),
    r2: (Vec<EncodedVideoFrame>, usize),
    r3: (Vec<EncodedVideoFrame>, usize),
)
    requires
        both@ == a@ + b@,
        call_ensures(number_units, (a, micros, c1), r1),
        call_ensures(number_units, (b, micros, c2), r2),
        call_ensures(number_units, (both, micros, c3), r3),
    ensures
        r3.1 == r1.1 + r2.1,
        a@.len() == 0 ==> r1.1 == 0,
        a@.len() == 1 ==> r1.1 == a@[0].data@.len(),
{
    lemma_total_concat(a@, b@);
    reveal_with_fuel(crate::pipeline::total_bytes, 2);
}

proof fn lemma_total_concat(a: Seq<EncodedUnit>, b: Seq<EncodedUnit>)
    ensures
        crate::pipeline::total_bytes(a + b) == crate::pipeline::total_bytes(a)
            + crate::pipeline::total_bytes(b),
    decreases b.len(),
{
    if b.len() == 0 {
        assert(a + b =~= a);
    } else {
        lemma_total_concat(a, b.drop_last());
        assert((a + b).drop_last() =~= a + b.drop_last());
    }
}

/// The first primary output counts as selected, and where there is none the selection stays.
pub proof fn the_primary_output_is_selected(
    s: &mut SharedCaptureState,
    outputs: Vec<OutputInfo>,
    first: int,
)
    requires
        call_ensures(SharedCaptureState::set_outputs, (s, outputs), ()),
        0 <= first <= outputs@.len(),
        forall|j: int| 0 <= j < first ==> !(#[trigger] outputs@[j]).is_primary,
        first < outputs@.len() ==> outputs@[first].is_primary,
    ensures
        final(s).available_outputs == outputs,
        final(s).selected_output == if first < outputs@.len() {
            outputs@[first].id
        } else {
            old(s).selected_output
        },
        final(s).config_generation == old(s).config_generation,
{
}

/// The stream that is announced is that of the encoder's settings.
pub proof fn streams_are_announced_as_encoded(config: EncoderConfig, out: StreamConfig)
    requires
        call_ensures(to_stream_config, (&config,), out),
    ensures
        out.width == config.width && out.height == config.height,
        out.framerate == config.framerate,
        out.codec == config.codec && out.chroma == config.chroma,
{
}

/// The pipeline comes up in order: a capture that runs, a first frame, an encoder of that
/// frame's size. Where a part fails the reason is told, and a capture that runs is stopped.
pub proof fn starting_goes_step_by_step(event: StartEvent, videotoolbox: bool, step: StartStep)
    requires
        call_ensures(start_step, (event, videotoolbox), step),
    ensures
        event is CaptureStarted ==> step is AwaitFrame,
        event matches StartEvent::FirstFrame { width, height } ==> (
        step matches StartStep::SelectEncoder { width: w, height: h } && w == width && h == height),
        event is EncoderSelected <==> step is Run,
        step matches StartStep::Fail { message, stop_capture } ==> (stop_capture
            <==> event !is CaptureFailed),
        step is Fail <==> event is CaptureFailed || event is CaptureClosed || event is EncoderFailed,
        event matches StartEvent::EncoderFailed(e) ==> (
        step matches StartStep::Fail { message, .. } && message@.len() >= e@.len()
            && message@.subrange(message@.len() - e@.len(), message@.len() as int) == e@ && (
        !videotoolbox ==> message@ == e@)),
        event matches StartEvent::CaptureFailed(e) ==> (
        step matches StartStep::Fail { message, .. } && message@.len() >= e@.len()
            && message@.subrange(message@.len() - e@.len(), message@.len() as int) == e@),
{
    assert(step@ is Fail <==> step is Fail);
    assert(step@ is Run <==> step is Run);
    assert(step@ is AwaitFrame <==> step is AwaitFrame);
    match event {
        StartEvent::EncoderFailed(e) => {
            let head = "Failed to create encoder: "@;
            assert((head + e@).subrange(head.len() as int, (head + e@).len() as int) =~= e@);
            assert(e@.subrange(0, e@.len() as int) =~= e@);
            assert(step@ is Fail);
        },
        StartEvent::CaptureFailed(e) => {
            let head = "Failed to start capture: "@;
            assert((head + e@).subrange(head.len() as int, (head + e@).len() as int) =~= e@);
            assert(step@ is Fail);
        },
        _ => {},
    }
}

/// A client gets the pipeline exactly when it reports to have started, and its own reason where
/// it reports one.
pub proof fn a_start_is_reported(report: StartReport, out: Result<(), String>)
    requires
        call_ensures(started, (report,), out),
    ensures
        out is Ok <==> report is Started,
        report matches StartReport::Failed(e) ==> out == Err::<(), String>(e),
{
}

/// Each turn either ends the pipeline, waits on, or uses up a frame, and a frame is encoded
/// exactly where somebody watches.
pub proof fn frames_are_encoded_for_viewers(
    shutdown: bool,
    wait: FrameWait,
    subscribers: usize,
    turn: Turn,
)
    requires
        call_ensures(pipeline_turn, (shutdown, wait, subscribers), turn),
    ensures
        turn is Stop <==> shutdown || wait is CaptureEnded,
        turn is Encode <==> !shutdown && wait is Frame && subscribers > 0,
        turn is Release <==> !shutdown && wait is Frame && subscribers == 0,
        turn is Again <==> !shutdown && wait is Nothing,
{
}

/// Each part of what a client may show of a stream is what was said of that part.
pub proof fn debug_texts_are_not_mixed_up(
    encoder: &str,
    config: EncoderConfig,
    quality: &str,
    capture: String,
    input: String,
    out: SessionDebugInfo,
)
    requires
        call_ensures(session_debug_info, (encoder, &config, quality, capture, input), out),
    ensures
        out.capture_backend == capture,
        out.input_backend == input,
        out.quality_preset@ == quality@,
        out.target_bitrate_kbps == config.bitrate_kbps,
        out.encoder_name@.len() > encoder@.len(),
        out.encoder_name@.subrange(0, encoder@.len() as int) == encoder@,
{
    reveal_strlit("-");
    assert(out.encoder_name@.subrange(0, encoder@.len() as int) =~= encoder@);
}

/// Whoever records a stream for the clients has it taken up: the count of changes moves on, and
/// the stream is the one recorded.
pub proof fn recorded_streams_are_taken_up(s: &mut SharedCaptureState, config: StreamConfig)
    requires
        call_ensures(SharedCaptureState::publish_config, (s, config), ()),
    ensures
        final(s).updated_config == Some(config),
        final(s).config_generation != old(s).config_generation,
        old(s).config_generation < u64::MAX ==> final(s).config_generation == old(s).config_generation + 1,
        final(s).selected_output == old(s).selected_output,
        final(s).available_outputs@ == old(s).available_outputs@,
{
}

/// A switch to another output is told to the clients, with the stream that the encoder makes.
pub proof fn switched_outputs_are_told(p: &mut Pipeline, id: u32, rebuilt: Option<EncoderConfig>)
    requires
        call_ensures(Pipeline::output_switched, (p, id, rebuilt), ()),
    ensures
        final(p).shared.selected_output == id,
        final(p).shared.config_generation != old(p).shared.config_generation,
        final(p).shared.updated_config matches Some(stream) && stream.width == final(p).config.width
            && stream.height == final(p).config.height && stream.codec == final(p).config.codec
            && stream.chroma == final(p).config.chroma && stream.framerate == final(p).config.framerate,
        rebuilt matches Some(config) ==> final(p).config == config,
        rebuilt is None ==> final(p).config == old(p).config,
{
}

/// A frame may take its share of a second, and at least one microsecond.
pub proof fn frames_share_the_second(p: Pipeline, budget: u64)
    requires
        call_ensures(Pipeline::frame_budget_us, (&p,), budget),
    ensures
        budget >= 1,
        p.config.framerate == 0 ==> budget == 1_000_000,
        0 < p.config.framerate <= 1_000_000 ==> budget * p.config.framerate <= 1_000_000 < (budget
            + 1) * p.config.framerate,
{
    let f = p.config.framerate;
    if 0 < f <= 1_000_000 {
        let q = 1_000_000u32 / f;
        assert(q >= 1) by (nonlinear_arith)
            requires
                q == 1_000_000u32 / f,
                0 < f <= 1_000_000,
        ;
        assert(q * f <= 1_000_000 < (q + 1) * f) by (nonlinear_arith)
            requires
                q == 1_000_000u32 / f,
                0 < f,
        ;
    }
}

/// Units of video are numbered one by one.
pub proof fn units_are_counted(a: &mut u64, b: &mut u64, first: u64, second: u64)
    requires
        call_ensures(next_encoded_video_unit_seq, (a,), first),
        *old(b) == *final(a),
        call_ensures(next_encoded_video_unit_seq, (b,), second),
        *old(a) < u64::MAX,
    ensures
        first == *old(a),
        second == first + 1,
{
    reveal_with_fuel(crate::pipeline::seq_after, 3);
}

/// A verifier starts with an empty window at the time it is made, and suspects nothing.
pub proof fn verifiers_start_empty(fps: u32, now: u64, out: BitrateVerifier)
    requires
        call_ensures(BitrateVerifier::new, (fps, now), out),
    ensures
        out.window_bytes == 0 && out.window_frames == 0 && out.window_start == now,
        out.pending is None && out.consecutive_failures == 0 && !out.inplace_ineffective,
        fps > 0 ==> out.fps == fps,
        out.fps > 0,
{
}

} // verus!
