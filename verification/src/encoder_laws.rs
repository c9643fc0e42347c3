//! What the encoders do, told of their operations from the outside: which one a client gets,
//! what it is opened with, and what becomes of the pictures.

use vstd::prelude::*;
use crate::encode_plan::{
    constant_rate, fill_bgra_from_slice, option_accepted, option_views, receive_step, start_context,
    CodecContext, CodecOption, FrameCounter, FrameMark, OptionView, PixelFormat, Profile,
    RateUpdate, Received, RowCopy,
};
use crate::encode_sw::{
    fill_bgra_from_dmabuf, source_subresource, staging_is_stale, BufferRead, SoftwareEncoder,
    SoftwarePlan, TextureInfo,
};
use crate::encode_vaapi::{
    detect_gpu_vendor, encoding_vendor, find_render_node, is_nvidia_driver, next_attempt,
    vendor_by_name, GpuVendor, VaapiAttempt, VaapiEncoder, VaapiPath, VaapiSource, VaapiStep,
};
use crate::encode_vt::{
    cm_time, convert_units, extract_parameter_sets, frame_encoded, is_keyframe, session_created,
    vt_output, MediaTime, SyncAttachment, VTEncoder, VtSettings,
};
use crate::encode_win::{
    apply_backend_options, cross_adapter_backends, name_length, preferred_backend_order,
    vendor_label, AdapterInfo, FramePath, FrameSource, HardwarePlan, WindowsEncoderBackend,
    WindowsHwEncoder,
};
use crate::encoder_select::{
    codec_selection_score, create_encoder_for_backend, create_linux_encoder_with_hint,
    encoder_backend, encoder_backend_name, linux_chroma_candidates, select_linux_encoder,
    select_macos_encoder, select_windows_encoder, ChainStep, CrossAdapterBackend, Decision,
    EncoderBackend, EncoderKind, EncodeTarget, EntryResult, LinuxSelectParams, PlanEntry,
    RebuildStep, Selection, WindowsSelectParams,
};
use crate::media::{
    codec_name, codec_support_summary, encoder_chroma_name, supports_yuv444_codec, ChromaSampling,
    DynamicRange, EncoderConfig, Quality, VideoCodec, VideoCodecSupport,
};
use crate::text::occurs_in;

verus! {

/// That a context is one for settings: their size, frame rate and bitrate, each in its own field.
pub open spec fn is_context_for(context: CodecContext, config: EncoderConfig) -> bool {
    &&& config.width <= i32::MAX ==> context.width == config.width
    &&& config.height <= i32::MAX ==> context.height == config.height
    &&& config.framerate <= i32::MAX ==> context.framerate == config.framerate
    &&& config.max_b_frames <= i32::MAX ==> context.max_b_frames == config.max_b_frames
    &&& context.bit_rate == config.bitrate_kbps * 1000
    &&& context.low_delay == config.low_delay
    &&& context.closed_gop
}

/// Every encoder's context is one for its settings, with the format, profile and buffer given.
pub proof fn contexts_are_for_their_settings(
    config: EncoderConfig,
    format: PixelFormat,
    profile: Profile,
    buffer: i32,
    context: CodecContext,
)
    requires
        call_ensures(start_context, (&config, format, profile, buffer), context),
    ensures
        is_context_for(context, config),
        config.gop_size <= i32::MAX ==> context.gop_size == config.gop_size,
        context.pixel_format == format,
        context.profile == profile,
        context.rc_buffer_size == buffer,
        context.rc_min_rate is None && context.rc_max_rate is None,
{
}

/// A software encoder is opened at the size of the stream, which is its own, in a format that
/// keeps the colours asked for, and without keyframes unless they are asked for.
pub proof fn software_encoders_fit_the_stream(
    config: EncoderConfig,
    buffer: i32,
    encoder: SoftwareEncoder,
    plan: SoftwarePlan,
)
    requires
        call_ensures(
            SoftwareEncoder::with_config,
            (&config, buffer),
            Ok::<(SoftwareEncoder, SoftwarePlan), &'static str>((encoder, plan)),
        ),
    ensures
        encoder.width == config.width && encoder.height == config.height,
        is_context_for(plan.context, config),
        config.width <= i32::MAX ==> plan.context.width == encoder.width,
        config.height <= i32::MAX ==> plan.context.height == encoder.height,
        plan.context.rc_buffer_size == buffer,
        config.gop_size == 0 ==> plan.context.gop_size == i32::MAX,
        0 < config.gop_size <= i32::MAX ==> plan.context.gop_size == config.gop_size,
        plan.context.pixel_format == PixelFormat::Yuv444p <==> config.chroma
            == ChromaSampling::Yuv444,
        plan.context.pixel_format == PixelFormat::Yuv420p10le <==> config.chroma
            == ChromaSampling::Yuv420 && config.dynamic_range == DynamicRange::Hdr,
        config.min_qp is None ==> plan.context.qmin is None,
        config.min_qp matches Some(q) ==> q <= i32::MAX ==> (plan.context.qmin matches Some(n) && n
            == q),
        config.slices_per_frame <= i32::MAX ==> (plan.context.slices matches Some(n) && n
            == config.slices_per_frame),
        !encoder.frames.force_keyframe_next && encoder.frames.frame_index == 0,
        config.codec != VideoCodec::Av1 ==> option_views(plan.options@).contains(
            OptionView::Text("tune"@, "zerolatency"@),
        ) && option_views(plan.options@).contains(OptionView::Text("forced-idr"@, "1"@))
            && option_views(plan.options@).contains(
            OptionView::Text("preset"@, config.quality.x26x_preset@),
        ),
        config.codec == VideoCodec::Av1 ==> option_views(plan.options@).contains(
            OptionView::Text("preset"@, config.quality.svtav1_preset@),
        ),
{
    let o = option_views(plan.options@);
    assert(o[0] is Text);
    if config.codec != VideoCodec::Av1 {
        assert(o[1] == OptionView::Text("tune"@, "zerolatency"@));
        assert(o[2] == OptionView::Text("forced-idr"@, "1"@));
        assert(o[0] == OptionView::Text("preset"@, config.quality.x26x_preset@));
    } else {
        assert(o[0] == OptionView::Text("preset"@, config.quality.svtav1_preset@));
    }
}

/// A software encoder is refused exactly for what none of them does: full colour with a high
/// dynamic range, or in AV1.
pub proof fn software_encoders_refuse_what_they_cannot(
    config: EncoderConfig,
    buffer: i32,
    out: Result<(SoftwareEncoder, SoftwarePlan), &'static str>,
)
    requires
        call_ensures(SoftwareEncoder::with_config, (&config, buffer), out),
    ensures
        out is Err <==> config.chroma == ChromaSampling::Yuv444 && (config.dynamic_range
            == DynamicRange::Hdr || config.codec == VideoCodec::Av1),
{
}

/// A VAAPI encoder is opened at the size of the stream, in the profile of the try, with its rate
/// capped at the target, and held there everywhere but on Intel.
pub proof fn vaapi_encoders_fit_the_stream(
    config: EncoderConfig,
    vendor: GpuVendor,
    attempt: VaapiAttempt,
    buffer: i32,
    context: CodecContext,
    options: Vec<crate::encode_plan::CodecOption>,
    encoder: VaapiEncoder,
)
    requires
        call_ensures(
            VaapiEncoder::with_config,
            (&config, vendor, attempt, buffer),
            (context, options),
        ),
        call_ensures(VaapiEncoder::opened, (&config, vendor), encoder),
    ensures
        is_context_for(context, config),
        encoder.width == config.width && encoder.height == config.height,
        encoder.gpu_vendor == vendor,
        !encoder.frames.force_keyframe_next && encoder.frames.frame_index == 0,
        context.pixel_format == PixelFormat::Vaapi,
        context.profile == Profile::Number(attempt.profile),
        context.rc_buffer_size == buffer,
        context.rc_max_rate matches Some(rate) && rate == config.bitrate_kbps * 1000,
        vendor == GpuVendor::Intel ==> context.rc_min_rate is None,
        vendor != GpuVendor::Intel ==> (context.rc_min_rate matches Some(rate) && rate
            == config.bitrate_kbps * 1000),
        option_views(options@).contains(OptionView::Text("low_power"@, "1"@))
            <==> attempt.low_power,
{
    let o = option_views(options@);
    reveal_strlit("low_power");
    reveal_strlit("async_depth");
    reveal_strlit("aud");
    assert("low_power"@.len() != "async_depth"@.len());
    assert("low_power"@.len() != "aud"@.len());
    if attempt.low_power {
        assert(o[o.len() - 1] == OptionView::Text("low_power"@, "1"@));
    }
}

/// A hardware encoder of Windows is opened at the size of the stream with its rate held at the
/// target, whichever graphics processor it is on.
pub proof fn windows_encoders_fit_the_stream(
    config: EncoderConfig,
    backend: WindowsEncoderBackend,
    buffer: i32,
    own: Result<(WindowsHwEncoder, HardwarePlan), &'static str>,
    other: Result<(WindowsHwEncoder, HardwarePlan), &'static str>,
)
    requires
        call_ensures(WindowsHwEncoder::with_config_and_backend, (&config, backend, buffer), own),
        call_ensures(
            WindowsHwEncoder::with_config_cross_adapter,
            (&config, backend, buffer),
            other,
        ),
    ensures
        own is Err <==> config.chroma == ChromaSampling::Yuv444 || (config.dynamic_range
            == DynamicRange::Hdr && backend == WindowsEncoderBackend::MediaFoundation),
        other is Err <==> own is Err,
        own matches Ok((encoder, plan)) ==> {
            &&& encoder.width == config.width && encoder.height == config.height
            &&& encoder.backend == backend
            &&& !encoder.cross_adapter
            &&& is_context_for(plan.context, config)
            &&& plan.context.pixel_format == PixelFormat::D3d11
            &&& plan.context.rc_buffer_size == buffer
            &&& plan.context.rc_min_rate matches Some(rate) && rate == config.bitrate_kbps * 1000
            &&& plan.context.rc_max_rate == plan.context.rc_min_rate
            &&& plan.processor_frame_rate >= 1
            &&& config.framerate > 0 ==> plan.processor_frame_rate == config.framerate
        },
        other matches Ok((encoder, plan)) ==> {
            &&& encoder.cross_adapter
            &&& encoder.width == config.width && encoder.height == config.height
            &&& is_context_for(plan.context, config)
        },
        (own matches Ok((_, a)) && other matches Ok((_, b))) ==> own->Ok_0.1.context
            == other->Ok_0.1.context,
{
}

/// VideoToolbox is set up at the size of the stream, at its bitrate, with a keyframe a second.
pub proof fn videotoolbox_fits_the_stream(
    width: u32,
    height: u32,
    bps: u32,
    fps: u32,
    out: (VTEncoder, VtSettings),
)
    requires
        call_ensures(VTEncoder::new, (width, height, bps, fps), out),
    ensures
        width <= i32::MAX ==> out.1.width == width,
        height <= i32::MAX ==> out.1.height == height,
        bps <= i32::MAX ==> out.1.average_bit_rate == bps,
        fps <= i32::MAX ==> out.1.expected_frame_rate == fps,
        0 < fps <= i32::MAX ==> out.1.max_keyframe_interval == fps,
        out.1.max_keyframe_interval >= 1,
        out.0.frame_count == 0,
{
}

/// The frames of VideoToolbox follow each other a sixtieth of a second apart.
pub proof fn videotoolbox_frames_follow(
    a: &mut VTEncoder,
    b: &mut VTEncoder,
    first: MediaTime,
    second: MediaTime,
)
    requires
        call_ensures(VTEncoder::encode_pixel_buffer, (a,), first),
        call_ensures(VTEncoder::encode_pixel_buffer, (b,), second),
        *old(b) == *final(a),
    ensures
        first.value == old(a).frame_count,
        second.value == first.value + 1,
        first.timescale == 60 && second.timescale == 60,
{
}

/// A software encoder that is asked for a keyframe makes the next frame one, and only that; its
/// frames are numbered one by one.
pub proof fn software_keyframes_come_when_asked(
    a: &mut SoftwareEncoder,
    b: &mut SoftwareEncoder,
    c: &mut SoftwareEncoder,
    first: FrameMark,
    second: FrameMark,
)
    requires
        call_ensures(SoftwareEncoder::reset_for_keyframe, (a,), ()),
        call_ensures(SoftwareEncoder::encode, (b,), first),
        call_ensures(SoftwareEncoder::encode, (c,), second),
        *old(b) == *final(a),
        *old(c) == *final(b),
        old(b).frames.frame_index < i64::MAX,
    ensures
        first.keyframe,
        !second.keyframe,
        first.pts == old(a).frames.frame_index,
        second.pts == first.pts + 1,
        final(c).width == old(a).width && final(c).height == old(a).height,
{
}

/// So does a VAAPI encoder, whether its frames are imported or uploaded.
pub proof fn vaapi_keyframes_come_when_asked(
    a: &mut VaapiEncoder,
    b: &mut VaapiEncoder,
    c: &mut VaapiEncoder,
    first: FrameMark,
    second: FrameMark,
)
    requires
        call_ensures(VaapiEncoder::reset_for_keyframe, (a,), ()),
        call_ensures(VaapiEncoder::encode_ram, (b,), first) || call_ensures(
            VaapiEncoder::encode_dmabuf,
            (b,),
            first,
        ),
        call_ensures(VaapiEncoder::encode_ram, (c,), second) || call_ensures(
            VaapiEncoder::encode_dmabuf,
            (c,),
            second,
        ),
        *old(b) == *final(a),
        *old(c) == *final(b),
        old(b).frames.frame_index < i64::MAX,
    ensures
        first.keyframe,
        !second.keyframe,
        first.pts == old(a).frames.frame_index,
        second.pts == first.pts + 1,
        final(c).width == old(a).width && final(c).height == old(a).height,
{
}

/// And a hardware encoder of Windows.
pub proof fn windows_keyframes_come_when_asked(
    a: &mut WindowsHwEncoder,
    b: &mut WindowsHwEncoder,
    c: &mut WindowsHwEncoder,
    first: FrameMark,
    second: FrameMark,
)
    requires
        call_ensures(WindowsHwEncoder::reset_for_keyframe, (a,), ()),
        call_ensures(WindowsHwEncoder::encode_texture, (b,), first),
        call_ensures(WindowsHwEncoder::encode_texture, (c,), second),
        *old(b) == *final(a),
        *old(c) == *final(b),
        old(b).frames.frame_index < i64::MAX,
    ensures
        first.keyframe,
        !second.keyframe,
        first.pts == old(a).frames.frame_index,
        second.pts == first.pts + 1,
        final(c).backend == old(a).backend,
{
}

/// That an update holds every rate at the target.
pub open spec fn goes_to_target(update: RateUpdate, config: EncoderConfig, buffer: i32) -> bool {
    &&& update.bit_rate == config.bitrate_kbps * 1000
    &&& update.rc_max_rate == config.bitrate_kbps * 1000
    &&& update.rc_buffer_size == buffer
    &&& option_views(update.options@).contains(
        OptionView::Int("b"@, config.bitrate_kbps * 1000),
    )
}

/// Another bitrate is taken up in place exactly by an encoder of the same size, and brings all of
/// its rates to the new target.
pub proof fn bitrates_change_in_place(
    sw: SoftwareEncoder,
    hw: WindowsHwEncoder,
    va: VaapiEncoder,
    config: EncoderConfig,
    buffer: i32,
    a: Result<RateUpdate, &'static str>,
    b: Result<RateUpdate, &'static str>,
    c: Result<RateUpdate, &'static str>,
)
    requires
        call_ensures(SoftwareEncoder::update_bitrate, (&sw, &config, buffer), a),
        call_ensures(WindowsHwEncoder::update_bitrate, (&hw, &config, buffer), b),
        call_ensures(VaapiEncoder::update_bitrate, (&va, &config, buffer), c),
    ensures
        a is Ok <==> config.width == sw.width && config.height == sw.height,
        b is Ok <==> config.width == hw.width && config.height == hw.height,
        c is Ok <==> config.width == va.width && config.height == va.height,
        a matches Ok(update) ==> goes_to_target(update, config, buffer) && update.rc_min_rate
            == config.bitrate_kbps * 1000,
        b matches Ok(update) ==> goes_to_target(update, config, buffer) && update.rc_min_rate
            == config.bitrate_kbps * 1000,
        c matches Ok(update) ==> update.bit_rate == config.bitrate_kbps * 1000
            && update.rc_max_rate == config.bitrate_kbps * 1000 && update.rc_buffer_size == buffer
            && (va.gpu_vendor != GpuVendor::Intel ==> update.rc_min_rate == config.bitrate_kbps
            * 1000),
{
    if let Ok(update) = a {
        assert(option_views(update.options@)[0] == OptionView::Int(
            "b"@,
            config.bitrate_kbps * 1000,
        ));
    }
    if let Ok(update) = b {
        assert(option_views(update.options@)[0] == OptionView::Int(
            "b"@,
            config.bitrate_kbps * 1000,
        ));
    }
}

/// A frame goes to VAAPI by the way of the place that it lies in.
pub proof fn vaapi_frames_go_their_way(e: VaapiEncoder, source: VaapiSource, path: VaapiPath)
    requires
        call_ensures(VaapiEncoder::encode, (&e, source), path),
    ensures
        path is Import <==> source is DmaBuf,
        path is Upload <==> source is Ram,
{
}

/// A frame on a graphics processor goes to a Windows encoder as it is, through memory only where
/// the encoder is on another one; one in memory does not.
pub proof fn windows_frames_go_their_way(
    e: WindowsHwEncoder,
    frame: FrameSource,
    out: Result<FramePath, &'static str>,
)
    requires
        call_ensures(WindowsHwEncoder::encode, (&e, frame), out),
    ensures
        frame is Ram <==> out is Err,
        frame matches FrameSource::Texture { array_index } ==> if e.cross_adapter {
            out matches Ok(FramePath::Staged { array_index: i }) && i == array_index
        } else {
            out matches Ok(FramePath::Direct { array_index: i }) && i == array_index
        },
{
}

/// That a client decodes a codec in a chroma format.
pub open spec fn decodable(
    codecs: VideoCodecSupport,
    full: VideoCodecSupport,
    config: EncoderConfig,
) -> bool {
    let plain = match config.codec {
        VideoCodec::H264 => codecs.h264,
        VideoCodec::Hevc => codecs.hevc,
        VideoCodec::Av1 => codecs.av1,
    };
    let coloured = match config.codec {
        VideoCodec::H264 => full.h264,
        VideoCodec::Hevc => full.hevc,
        VideoCodec::Av1 => false,
    };
    plain && (config.chroma == ChromaSampling::Yuv444 ==> coloured)
}

/// That settings are others but for quality, chroma and dynamic range.
pub open spec fn same_stream(config: EncoderConfig, base: EncoderConfig) -> bool {
    config == (EncoderConfig {
        quality: config.quality,
        chroma: config.chroma,
        dynamic_range: config.dynamic_range,
        ..base
    })
}

/// On Linux only encoders are tried whose stream the client decodes: of a codec that it supports,
/// in full colour only where it supports that, with a high dynamic range only where its display
/// and the settings have it; and each is one of the settings in every other respect.
pub proof fn linux_clients_get_what_they_decode(
    bases: &Vec<EncoderConfig>,
    params: LinuxSelectParams,
    plan: Vec<PlanEntry>,
    i: int,
)
    requires
        call_ensures(select_linux_encoder, (bases, &params), plan),
        0 <= i < plan@.len(),
    ensures
        plan@[i] matches PlanEntry::Try(attempt) ==> {
            &&& attempt.group < bases@.len()
            &&& same_stream(attempt.config, bases@[attempt.group as int])
            &&& decodable(
                params.client_supported_codecs,
                params.client_supported_yuv444_codecs,
                attempt.config,
            )
            &&& attempt.config.dynamic_range == DynamicRange::Hdr <==> params.client_hdr_display
                && bases@[attempt.group as int].dynamic_range == DynamicRange::Hdr
            &&& params.forced_quality matches Some(quality) ==> attempt.config.quality == quality
            &&& params.preferred_chroma matches Some(chroma) ==> attempt.config.chroma == chroma
            &&& attempt.target is LinuxChain
        },
{
    let views = crate::encoder_select::entry_views(plan@);
    assert(views[i] == plan@[i]@);
    lemma_linux_lines(bases@, params, i);
}

proof fn lemma_linux_lines(bases: Seq<EncoderConfig>, params: LinuxSelectParams, i: int)
    requires
        0 <= i < crate::encoder_select::linux_plan(bases, params).len(),
    ensures
        crate::encoder_select::linux_plan(bases, params)[i] matches crate::encoder_select::EntryView::Try(
            group,
            config,
            target,
            _,
        ) ==> {
            &&& group < bases.len()
            &&& same_stream(config, bases[group as int])
            &&& decodable(
                params.client_supported_codecs,
                params.client_supported_yuv444_codecs,
                config,
            )
            &&& config.dynamic_range == DynamicRange::Hdr <==> params.client_hdr_display
                && bases[group as int].dynamic_range == DynamicRange::Hdr
            &&& params.forced_quality matches Some(quality) ==> config.quality == quality
            &&& params.preferred_chroma matches Some(chroma) ==> config.chroma == chroma
            &&& target is LinuxChain
        },
    decreases bases.len(),
{
    if bases.len() > 0 {
        let before = crate::encoder_select::linux_plan(bases.drop_last(), params);
        if i < before.len() {
            lemma_linux_lines(bases.drop_last(), params, i);
        }
    }
}

/// Whoever decodes a codec gets it tried in plain colour on Linux, unless another chroma format is
/// preferred; and in full colour first where the client decodes that in hardware.
pub proof fn linux_codecs_are_tried(
    config: EncoderConfig,
    params: LinuxSelectParams,
    out: Vec<ChromaSampling>,
)
    requires
        call_ensures(linux_chroma_candidates, (&config, &params), out),
    ensures
        out@.len() >= 1,
        params.preferred_chroma matches Some(chroma) ==> out@ == seq![chroma],
        params.preferred_chroma is None ==> out@.last() == ChromaSampling::Yuv420,
        params.preferred_chroma is None ==> (out@.len() == 2 && out@[0] == ChromaSampling::Yuv444
            <==> config.dynamic_range != DynamicRange::Hdr && match config.codec {
            VideoCodec::H264 => params.client_supported_yuv444_codecs.h264
                && params.client_hardware_yuv444_codecs.h264,
            VideoCodec::Hevc => params.client_supported_yuv444_codecs.hevc
                && params.client_hardware_yuv444_codecs.hevc,
            VideoCodec::Av1 => false,
        }),
{
}

/// On Windows too only what the client decodes is tried, and software for every codec that it
/// decodes.
pub proof fn windows_clients_get_what_they_decode(
    bases: &Vec<EncoderConfig>,
    params: WindowsSelectParams,
    plan: Vec<PlanEntry>,
    i: int,
    b: int,
)
    requires
        call_ensures(select_windows_encoder, (bases, &params), plan),
        0 <= i < plan@.len(),
        0 <= b < bases@.len(),
    ensures
        plan@[i] matches PlanEntry::Try(attempt) ==> {
            &&& decodable(
                params.client_supported_codecs,
                params.client_supported_yuv444_codecs,
                attempt.config,
            )
            &&& exists|k: int|
                0 <= k < bases@.len() && attempt.config == (EncoderConfig {
                    quality: attempt.config.quality,
                    ..#[trigger] bases@[k]
                })
            &&& attempt.target is Hardware || attempt.target is CrossAdapter
                ==> params.hardware_capture
            &&& attempt.target is Hardware || attempt.target is CrossAdapter
                || attempt.target is Software
        },
        decodable(
            params.client_supported_codecs,
            params.client_supported_yuv444_codecs,
            bases@[b],
        ) ==> exists|k: int|
            0 <= k < plan@.len() && (#[trigger] plan@[k] matches PlanEntry::Try(attempt)
                && attempt.target is Software && attempt.config == (EncoderConfig {
                quality: attempt.config.quality,
                ..bases@[b]
            })),
{
    let views = crate::encoder_select::entry_views(plan@);
    assert(views[i] == plan@[i]@);
    lemma_windows_lines(bases@, params, i);
    if decodable(
        params.client_supported_codecs,
        params.client_supported_yuv444_codecs,
        bases@[b],
    ) {
        lemma_windows_software(bases@, params, b);
        let k = choose|k: int| is_software_line(bases@, params, b, k);
        assert(is_software_line(bases@, params, b, k));
        assert(views[k] == plan@[k]@);
    }
}

proof fn lemma_windows_lines(bases: Seq<EncoderConfig>, params: WindowsSelectParams, i: int)
    requires
        0 <= i < crate::encoder_select::windows_plan(bases, params).len(),
    ensures
        crate::encoder_select::windows_plan(bases, params)[i] matches crate::encoder_select::EntryView::Try(
            _,
            config,
            target,
            _,
        ) ==> {
            &&& decodable(
                params.client_supported_codecs,
                params.client_supported_yuv444_codecs,
                config,
            )
            &&& exists|k: int|
                0 <= k < bases.len() && config == (EncoderConfig {
                    quality: config.quality,
                    ..#[trigger] bases[k]
                })
            &&& target is Hardware || target is CrossAdapter ==> params.hardware_capture
            &&& target is Hardware || target is CrossAdapter || target is Software
        },
    decreases bases.len(),
{
    if bases.len() > 0 {
        let rest = bases.drop_last();
        let before = crate::encoder_select::windows_plan(rest, params);
        let plan = crate::encoder_select::windows_plan(bases, params);
        if i < before.len() {
            lemma_windows_lines(rest, params, i);
            assert(plan[i] == before[i]);
            if let crate::encoder_select::EntryView::Try(_, config, _, _) = plan[i] {
                let k = choose|k: int|
                    0 <= k < rest.len() && config == (EncoderConfig {
                        quality: config.quality,
                        ..#[trigger] rest[k]
                    });
                assert(bases[k] == rest[k]);
            }
        } else {
            assert(bases[bases.len() - 1] == bases.last());
        }
    }
}

/// That the line at `k` opens the software encoder of one of the settings.
pub open spec fn is_software_line(
    bases: Seq<EncoderConfig>,
    params: WindowsSelectParams,
    b: int,
    k: int,
) -> bool {
    let plan = crate::encoder_select::windows_plan(bases, params);
    &&& 0 <= k < plan.len()
    &&& plan[k] matches crate::encoder_select::EntryView::Try(_, config, target, _)
        && target is Software && config == (EncoderConfig { quality: config.quality, ..bases[b] })
}

proof fn lemma_windows_software(bases: Seq<EncoderConfig>, params: WindowsSelectParams, b: int)
    requires
        0 <= b < bases.len(),
        decodable(
            params.client_supported_codecs,
            params.client_supported_yuv444_codecs,
            bases[b],
        ),
    ensures
        exists|k: int| is_software_line(bases, params, b, k),
    decreases bases.len(),
{
    let rest = bases.drop_last();
    let before = crate::encoder_select::windows_plan(rest, params);
    let plan = crate::encoder_select::windows_plan(bases, params);
    if b < rest.len() {
        assert(rest[b] == bases[b]);
        lemma_windows_software(rest, params, b);
        let k = choose|k: int| is_software_line(rest, params, b, k);
        assert(is_software_line(rest, params, b, k));
        assert(plan[k] == before[k]);
        assert(is_software_line(bases, params, b, k));
    } else {
        let added = crate::encoder_select::windows_codec_entries(
            before.len(),
            bases.last(),
            params,
        );
        let k = plan.len() - 1;
        assert(plan[k] == added[added.len() - 1]);
        assert(is_software_line(bases, params, b, k));
    }
}

/// On macOS H.264 in plain colour is tried, at the settings' own bitrate, exactly for clients that
/// decode it.
pub proof fn macos_clients_get_h264(
    bases: &Vec<EncoderConfig>,
    supported: VideoCodecSupport,
    quality: Option<Quality>,
    plan: Vec<PlanEntry>,
    i: int,
)
    requires
        call_ensures(select_macos_encoder, (bases, supported, quality), plan),
        0 <= i < bases@.len(),
    ensures
        plan@.len() == bases@.len(),
        plan@[i] is Try <==> bases@[i].codec == VideoCodec::H264 && supported.h264
            && bases@[i].chroma == ChromaSampling::Yuv420,
        plan@[i] matches PlanEntry::Try(attempt) ==> {
            &&& same_stream(attempt.config, bases@[i])
            &&& attempt.config.dynamic_range == DynamicRange::Sdr
            &&& attempt.config.chroma == bases@[i].chroma
            &&& bases@[i].bitrate_kbps * 1000 <= u32::MAX ==> (
            attempt.target matches EncodeTarget::VideoToolbox(bps) && bps == bases@[i].bitrate_kbps
                * 1000)
        },
{
    let views = crate::encoder_select::entry_views(plan@);
    assert(views.len() == plan@.len());
    assert(views[i] == plan@[i]@);
}

/// Of two encoders the better one has the higher score: with full colour in hardware before any,
/// in hardware before in software, decoded in hardware before in software, and then by codec.
pub proof fn scores_rank_encoders(
    codec: VideoCodec,
    chroma: ChromaSampling,
    backend: EncoderBackend,
    hardware: VideoCodecSupport,
    score: (u8, u8, u8, u8),
)
    requires
        call_ensures(codec_selection_score, (codec, chroma, backend, hardware), score),
    ensures
        score.0 == 1 <==> chroma == ChromaSampling::Yuv444 && (backend == EncoderBackend::Vaapi
            || backend == EncoderBackend::Nvenc),
        score.1 == 1 <==> backend == EncoderBackend::Vaapi || backend == EncoderBackend::Nvenc,
        score.2 == 1 <==> match codec {
            VideoCodec::H264 => hardware.h264,
            VideoCodec::Hevc => hardware.hevc,
            VideoCodec::Av1 => hardware.av1,
        },
        score.0 <= 1 && score.1 <= 1 && score.2 <= 1,
        score.3 == 0 <==> codec == VideoCodec::H264,
        score.3 == 1 <==> codec == VideoCodec::Hevc,
        score.3 == 2 <==> codec == VideoCodec::Av1,
{
}

/// Whoever is selected was opened, and nobody who was opened and competes with it is better: not
/// one in hardware where it is not, nor, both being in hardware or neither, one that the client
/// decodes in hardware where it does not decode the winner so.
pub proof fn the_best_encoder_is_selected(
    s: &mut Selection,
    i: usize,
    j: int,
    mine: (u8, u8, u8, u8),
    its: (u8, u8, u8, u8),
)
    requires
        call_ensures(Selection::next, (s,), Decision::Selected(i)),
        0 <= j < final(s).results@.len(),
        final(s).results@[j] is Opened,
        final(s).first_group_wins ==> final(s).plan@[j]->Try_0.group
            == final(s).plan@[i as int]->Try_0.group,
        call_ensures(
            codec_selection_score,
            (
                final(s).plan@[i as int]->Try_0.config.codec,
                final(s).plan@[i as int]->Try_0.config.chroma,
                final(s).results@[i as int]->Opened_0,
                final(s).client_hardware_codecs,
            ),
            mine,
        ),
        call_ensures(
            codec_selection_score,
            (
                final(s).plan@[j]->Try_0.config.codec,
                final(s).plan@[j]->Try_0.config.chroma,
                final(s).results@[j]->Opened_0,
                final(s).client_hardware_codecs,
            ),
            its,
        ),
    ensures
        i < final(s).results@.len(),
        final(s).results@[i as int] is Opened,
        mine.0 >= its.0,
        mine.0 == its.0 ==> mine.1 >= its.1,
        mine.0 == its.0 && mine.1 == its.1 ==> mine.2 >= its.2,
        mine.0 == its.0 && mine.1 == its.1 && mine.2 == its.2 ==> mine.3 >= its.3,
        mine == its ==> i <= j,
{
    let f = *final(s);
    assert(f.wins(i as int));
    assert(f.opened(j));
    assert(f.opened(i as int));
    if f.first_group_wins {
        assert forall|k: int| #[trigger] f.opened(k) implies f.group(j) <= f.group(k) by {}
    }
    assert(f.eligible(j));
}

/// Where the first codec that works is wanted, nothing of a later one wins over it.
pub proof fn the_first_codec_wins(s: &mut Selection, i: usize, j: int)
    requires
        call_ensures(Selection::next, (s,), Decision::Selected(i)),
        final(s).first_group_wins,
        0 <= j < final(s).results@.len(),
        final(s).results@[j] is Opened,
    ensures
        final(s).plan@[i as int]->Try_0.group <= final(s).plan@[j]->Try_0.group,
{
    assert(final(s).opened(j));
}

/// The selection gives up exactly when every line has been gone through and nothing opened; until
/// then it goes on with the next line that can be tried.
pub proof fn selection_gives_up_last(s: &mut Selection, decision: Decision)
    requires
        call_ensures(Selection::next, (s,), decision),
    ensures
        decision is Failed ==> final(s).results@.len() == final(s).plan@.len() && forall|k: int|
            0 <= k < final(s).results@.len() ==> !(#[trigger] final(s).results@[k] is Opened),
        decision matches Decision::Try(i) ==> i == final(s).results@.len() && final(s).plan@[i as int] is Try,
        final(s).plan == old(s).plan,
        forall|k: int|
            0 <= k < old(s).results@.len() ==> #[trigger] final(s).results@[k]
                == old(s).results@[k],
{
    if decision is Failed {
        assert forall|k: int| 0 <= k < final(s).results@.len() implies !(
        #[trigger] final(s).results@[k] is Opened) by {
            assert(!final(s).opened(k));
        }
    }
}

/// What is recorded is how the attempt went.
pub proof fn outcomes_are_recorded(s: &mut Selection, outcome: Result<EncoderBackend, String>)
    requires
        call_ensures(Selection::record, (s, outcome), ()),
    ensures
        final(s).results@.len() == old(s).results@.len() + 1,
        outcome matches Ok(backend) ==> final(s).results@.last() == EntryResult::Opened(backend),
        outcome matches Err(e) ==> final(s).results@.last() == EntryResult::Failed(e),
        final(s).plan == old(s).plan,
{
}

/// The chain on Linux goes from VAAPI by NVENC to software, and reports every failure.
pub proof fn the_chain_ends_in_software(errors: &Vec<String>, step: ChainStep)
    requires
        call_ensures(create_linux_encoder_with_hint, (errors,), step),
        errors@.len() <= 3,
    ensures
        errors@.len() == 0 ==> step == ChainStep::Open(EncoderBackend::Vaapi),
        errors@.len() == 1 ==> step == ChainStep::Open(EncoderBackend::Nvenc),
        errors@.len() == 2 ==> step == ChainStep::Open(EncoderBackend::Software),
        errors@.len() == 3 ==> step is Failed,
{
}

/// An encoder is rebuilt with its own backend, and a hardware one on Windows is not.
pub proof fn rebuilds_keep_the_backend(backend: EncoderBackend, windows: bool, step: RebuildStep)
    requires
        call_ensures(create_encoder_for_backend, (backend, windows), step),
    ensures
        step matches RebuildStep::Open(b, _) ==> b == backend,
        step is Refused <==> windows && backend != EncoderBackend::Software,
{
}

/// An open encoder has the backend that it was opened with.
pub proof fn open_encoders_have_their_backend(kind: EncoderKind, backend: EncoderBackend)
    requires
        call_ensures(encoder_backend, (&kind,), backend),
    ensures
        kind is Vaapi <==> backend == EncoderBackend::Vaapi,
        kind is Software <==> backend == EncoderBackend::Software,
        kind is Nvenc || kind == EncoderKind::Hardware(WindowsEncoderBackend::Nvenc) <==> backend
            == EncoderBackend::Nvenc,
        kind == EncoderKind::Hardware(WindowsEncoderBackend::Amf) <==> backend
            == EncoderBackend::Amf,
        kind == EncoderKind::Hardware(WindowsEncoderBackend::MediaFoundation) <==> backend
            == EncoderBackend::MediaFoundation,
{
}

/// A maker's own encoders are tried first on its graphics processors, and all others after them.
pub proof fn own_encoders_come_first(vendor: u32, out: Vec<WindowsEncoderBackend>, backend: WindowsEncoderBackend)
    requires
        call_ensures(preferred_backend_order, (vendor,), out),
    ensures
        out@.len() == 3,
        out@.contains(backend),
        vendor == 0x10de ==> out@[0] == WindowsEncoderBackend::Nvenc,
        vendor == 0x1002 || vendor == 0x1022 ==> out@[0] == WindowsEncoderBackend::Amf,
        vendor == 0x8086 ==> out@[0] == WindowsEncoderBackend::MediaFoundation,
{
    crate::encode_win::every_backend_is_tried(vendor, backend);
}

/// An encoder on another graphics processor is one of that processor's maker, and never on the one
/// that captures.
pub proof fn foreign_encoders_are_elsewhere(
    low: u32,
    high: i32,
    adapters: &Vec<AdapterInfo>,
    out: Vec<CrossAdapterBackend>,
    i: int,
)
    requires
        call_ensures(cross_adapter_backends, (low, high, adapters), out),
        0 <= i < out@.len(),
    ensures
        out@[i].adapter < adapters@.len(),
        ({
            let a = adapters@[out@[i].adapter as int];
            &&& !(a.luid_low == low && a.luid_high == high)
            &&& out@[i].adapter_name@ == a.name@
            &&& out@[i].backend == WindowsEncoderBackend::Nvenc <==> a.vendor_id == 0x10de
            &&& out@[i].backend == WindowsEncoderBackend::Amf <==> a.vendor_id == 0x1002
                || a.vendor_id == 0x1022
            &&& out@[i].backend == WindowsEncoderBackend::MediaFoundation <==> a.vendor_id == 0x8086
        }),
{
    let views = crate::encode_win::foreign_views(out@);
    assert(views.len() == out@.len());
    assert(views[i].adapter == out@[i].adapter as int);
    assert(views[i].name == out@[i].adapter_name@);
    assert(views[i].backend == out@[i].backend);
    lemma_foreign(low, high, adapters@, adapters@.len() as int, i);
}

proof fn lemma_foreign(low: u32, high: i32, adapters: Seq<AdapterInfo>, n: int, i: int)
    requires
        0 <= n <= adapters.len(),
        0 <= i < crate::encode_win::foreign_encoders(low, high, adapters, n).len(),
    ensures
        ({
            let f = crate::encode_win::foreign_encoders(low, high, adapters, n)[i];
            let a = adapters[f.adapter];
            &&& 0 <= f.adapter < n
            &&& !(a.luid_low == low && a.luid_high == high)
            &&& f.name == a.name@
            &&& f.backend == WindowsEncoderBackend::Nvenc <==> a.vendor_id == 0x10de
            &&& f.backend == WindowsEncoderBackend::Amf <==> a.vendor_id == 0x1002 || a.vendor_id
                == 0x1022
            &&& f.backend == WindowsEncoderBackend::MediaFoundation <==> a.vendor_id == 0x8086
        }),
    decreases n,
{
    if n > 0 {
        let rest = crate::encode_win::foreign_encoders(low, high, adapters, n - 1);
        if i < rest.len() {
            lemma_foreign(low, high, adapters, n - 1, i);
        }
    }
}

/// The render node is the first that is there.
pub proof fn the_first_render_node_is_used(present: [bool; 8], k: int, out: Result<String, &'static str>)
    requires
        call_ensures(find_render_node, (&present,), out),
        0 <= k <= 8,
        forall|i: int| 0 <= i < k ==> !(#[trigger] present@[i]),
        k < 8 ==> present@[k],
    ensures
        out is Ok <==> k < 8,
        out matches Ok(path) ==> path@ == "/dev/dri/renderD"@ + crate::text::decimal(
            (128 + k) as nat,
        ),
{
    lemma_first_node(present@, 0, k);
}

proof fn lemma_first_node(present: Seq<bool>, from: int, k: int)
    requires
        present.len() == 8,
        0 <= from <= k <= 8,
        forall|i: int| from <= i < k ==> !(#[trigger] present[i]),
        k < 8 ==> present[k],
    ensures
        crate::encode_vaapi::first_present(present, from) == if k < 8 {
            Some(k)
        } else {
            None
        },
    decreases k - from,
{
    if from < k {
        lemma_first_node(present, from + 1, k);
    }
}

/// A sample is a keyframe unless it says that it is not.
pub proof fn samples_are_keyframes_by_default(attachment: SyncAttachment, yes: bool)
    requires
        call_ensures(is_keyframe, (attachment,), yes),
    ensures
        attachment is Absent ==> yes,
        attachment matches SyncAttachment::NotSync(not_sync) ==> yes == !not_sync,
{
}

/// Units come out behind start codes as they went in behind their lengths, and nothing that was
/// put out before is touched.
pub proof fn units_come_out_whole(out: &mut Vec<u8>, data: &[u8], units: Seq<Seq<u8>>)
    requires
        call_ensures(convert_units, (out, data), ()),
        data@ == crate::encode_vt::length_prefixed(units),
        forall|i: int| 0 <= i < units.len() ==> (#[trigger] units[i]).len() <= 0xffff_ffff,
    ensures
        final(out)@ == old(out)@ + crate::encode_vt::start_prefixed(units),
        units.len() == 1 ==> final(out)@ == old(out)@ + seq![0u8, 0, 0, 1] + units[0],
{
    crate::encode_vt::conversion_keeps_every_unit(units);
    if units.len() == 1 {
        reveal_with_fuel(crate::encode_vt::start_prefixed, 3);
        assert(crate::encode_vt::start_prefixed(units) =~= seq![0u8, 0, 0, 1] + units[0]);
        assert(final(out)@ =~= old(out)@ + seq![0u8, 0, 0, 1] + units[0]);
    }
}

/// A keyframe starts with its parameter sets, any other sample with itself.
pub proof fn keyframes_bring_their_parameters(
    sets: &Vec<Vec<u8>>,
    data: &[u8],
    head: Vec<u8>,
    key: Option<Vec<u8>>,
    plain: Option<Vec<u8>>,
)
    requires
        call_ensures(extract_parameter_sets, (sets,), head),
        call_ensures(vt_output, (true, sets, data), key),
        call_ensures(vt_output, (false, sets, data), plain),
        plain is Some,
    ensures
        key matches Some(stream) && stream@ == head@ + plain->0@,
        sets@.len() == 1 && sets@[0]@.len() > 0 ==> head@ == seq![0u8, 0, 0, 1] + sets@[0]@,
{
    reveal_with_fuel(crate::encode_vt::parameter_units, 3);
    if sets@.len() == 1 && sets@[0]@.len() > 0 {
        assert(head@ =~= seq![0u8, 0, 0, 1] + sets@[0]@);
    }
    let tail = crate::encode_vt::with_start_codes(data@, 0);
    assert(Seq::<u8>::empty() + tail =~= tail);
}

/// An option that an encoder does not know is done without; any other failure counts.
pub proof fn unknown_options_are_done_without(code: i32, not_found: i32, ok: bool)
    requires
        call_ensures(option_accepted, (code, not_found), ok),
    ensures
        !ok <==> code < 0 && code != not_found,
{
}

/// An encoder that has nothing for now has not failed.
pub proof fn draining_is_no_failure(code: i32, again: i32, end: i32, out: Received)
    requires
        call_ensures(receive_step, (code, again, end), out),
    ensures
        out is Drained <==> code == again || code == end,
        out is Packet ==> code >= 0,
        out is Failed ==> code < 0,
{
}

/// A picture in memory that is whole is copied whole: each of its rows lands at the start of the
/// frame's row of the same number.
pub proof fn whole_pictures_are_copied(
    len: usize,
    width: u32,
    height: u32,
    stride: usize,
    out: Vec<RowCopy>,
    r: int,
)
    requires
        call_ensures(fill_bgra_from_slice, (len, width, height, stride), out),
        len == width * 4 * height,
        stride * height <= usize::MAX,
        0 <= r < height,
    ensures
        stride == width * 4 ==> out@.len() == 1 && out@[0].from == 0 && out@[0].to == 0
            && out@[0].len == len,
        stride != width * 4 ==> out@.len() == height && out@[r].from == r * (width * 4)
            && out@[r].to == r * stride && out@[r].len == width * 4,
{
    let row = width * 4;
    if stride != row {
        assert(height as int * row <= len) by (nonlinear_arith)
            requires
                len == width * 4 * height,
                row == width * 4,
        ;
        lemma_rows(len as int, row, stride as int, height as int, r);
        assert(0 <= r * row <= width * 4 * height) by (nonlinear_arith)
            requires
                row == width * 4,
                0 <= r < height,
        ;
        assert(0 <= r * (stride as int) <= stride * height) by (nonlinear_arith)
            requires
                0 <= r < height,
        ;
        assert(row <= width * 4 * height) by (nonlinear_arith)
            requires
                row == width * 4,
                0 < height,
        ;
    } else {
        assert(stride * height == len) by (nonlinear_arith)
            requires
                stride == width * 4,
                len == width * 4 * height,
        ;
    }
}

proof fn lemma_rows(len: int, row: int, stride: int, n: int, r: int)
    requires
        0 <= r < n,
        0 <= row,
        n * row <= len,
    ensures
        crate::encode_plan::row_copies(len, row, stride, n).len() == n,
        crate::encode_plan::row_copies(len, row, stride, n)[r] == (RowCopy {
            from: (r * row) as usize,
            to: (r * stride) as usize,
            len: row as usize,
        }),
    decreases n,
{
    reveal_with_fuel(crate::encode_plan::row_copies, 2);
    assert((n - 1) * row <= len) by (nonlinear_arith)
        requires
            n * row <= len,
            0 <= row,
    ;
    if r < n - 1 {
        lemma_rows(len, row, stride, n - 1, r);
    } else if n > 1 {
        lemma_rows(len, row, stride, n - 1, 0);
    }
}

/// A shared buffer is mapped up to the end of its picture, and each row is copied from its own
/// place to the frame's row of the same number.
pub proof fn shared_pictures_are_copied(
    planes: usize,
    offset: u32,
    pitch: u32,
    width: u32,
    height: u32,
    stride: usize,
    out: Result<BufferRead, &'static str>,
    r: int,
)
    requires
        call_ensures(
            fill_bgra_from_dmabuf,
            (planes, offset, pitch, width, height, stride),
            out,
        ),
        offset + pitch * height <= usize::MAX,
        stride * height <= usize::MAX,
        width * 4 <= usize::MAX,
        0 <= r < height,
    ensures
        out is Err <==> planes == 0,
        out matches Ok(read) ==> {
            &&& read.map_len == offset + pitch * height
            &&& pitch != stride ==> read.copies@.len() == height && read.copies@[r].from == r * pitch
                && read.copies@[r].to == r * stride && read.copies@[r].len == width * 4
            &&& pitch == stride ==> read.copies@.len() == 1 && read.copies@[0].from == 0
                && read.copies@[0].to == 0 && read.copies@[0].len == stride * height
        },
{
    assert(0 <= r * pitch <= pitch * height) by (nonlinear_arith)
        requires
            0 <= r < height,
    ;
    assert(0 <= r * (stride as int) <= stride * height) by (nonlinear_arith)
        requires
            0 <= r < height,
    ;
    assert(0 <= stride * height && 0 <= pitch * height) by (nonlinear_arith);
}

/// A texture to read frames through is made anew exactly where its size or format has changed.
pub proof fn staging_follows_the_source(staging: Option<TextureInfo>, source: TextureInfo, stale: bool)
    requires
        call_ensures(staging_is_stale, (staging, source), stale),
    ensures
        staging is None ==> stale,
        staging matches Some(s) ==> (stale <==> s.width != source.width || s.height
            != source.height || s.format != source.format),
{
}

/// A driver of NVIDIA does not encode by VAAPI; the names of Intel's and AMD's drivers tell their
/// makers, and no other name does.
pub proof fn drivers_tell_their_makers(
    name: &str,
    vendor: GpuVendor,
    driver: Option<&str>,
    nvidia: bool,
    out: Result<GpuVendor, &'static str>,
    detected: GpuVendor,
)
    requires
        call_ensures(vendor_by_name, (name,), vendor),
        call_ensures(is_nvidia_driver, (driver,), nvidia),
        call_ensures(encoding_vendor, (driver,), out),
        call_ensures(detect_gpu_vendor, (driver,), detected),
    ensures
        vendor == GpuVendor::Intel <==> occurs_in(name@, "i915"@) || occurs_in(name@, "xe"@),
        vendor == GpuVendor::Amd ==> occurs_in(name@, "amdgpu"@) || occurs_in(name@, "radeon"@),
        vendor == GpuVendor::Other <==> !occurs_in(name@, "i915"@) && !occurs_in(name@, "xe"@)
            && !occurs_in(name@, "amdgpu"@) && !occurs_in(name@, "radeon"@),
        driver is None ==> !nvidia && detected == GpuVendor::Other,
        driver matches Some(d) ==> (nvidia <==> occurs_in(d@, "nvidia"@)),
        out is Err <==> nvidia,
        out matches Ok(v) ==> v == detected,
{
}

/// A VAAPI encoder is tried in the profiles of its codec, with ten bits exactly where it has to
/// be, and on Intel in low power before any other.
pub proof fn vaapi_tries_fit_the_codec(
    config: EncoderConfig,
    vendor: GpuVendor,
    out: Vec<VaapiAttempt>,
    i: int,
    j: int,
)
    requires
        call_ensures(VaapiEncoder::attempts, (&config, vendor), out),
        0 <= i < j < out@.len(),
    ensures
        out@[i].low_power ==> vendor == GpuVendor::Intel,
        vendor == GpuVendor::Intel ==> out@[0].low_power && !out@.last().low_power,
        out@[j].low_power ==> out@[i].low_power,
        config.codec == VideoCodec::H264 ==> out@[0].profile == 100 && (out@[i].profile == 100
            || out@[i].profile == 77 || out@[i].profile == 578),
        config.codec == VideoCodec::Hevc && config.dynamic_range == DynamicRange::Hdr
            ==> out@[i].profile == 2,
        config.codec == VideoCodec::Hevc && config.dynamic_range != DynamicRange::Hdr
            ==> out@[0].profile == 1 && (out@[i].profile == 1 || out@[i].profile == 2),
        config.codec == VideoCodec::Av1 ==> out@[i].profile == 0,
{
    let views = crate::encode_vaapi::attempt_views(out@);
    assert(views.len() == out@.len());
    assert(views[0] == out@[0]@);
    assert(views[i] == out@[i]@);
    assert(views[j] == out@[j]@);
    assert(views[views.len() - 1] == out@[out@.len() - 1]@);
}

/// The tries are made one after the other, each once, until none is left.
pub proof fn vaapi_tries_are_made_in_turn(
    attempts: &Vec<VaapiAttempt>,
    failures: &Vec<String>,
    codec_name: &str,
    step: VaapiStep,
)
    requires
        call_ensures(next_attempt, (attempts, failures, codec_name), step),
    ensures
        step is GiveUp <==> failures@.len() >= attempts@.len(),
        step matches VaapiStep::Open(attempt) ==> attempt == attempts@[failures@.len() as int],
        step matches VaapiStep::GiveUp(text) ==> text@.subrange(0, codec_name@.len() as int)
            == codec_name@,
{
    if let VaapiStep::GiveUp(text) = step {
        assert(text@.subrange(0, codec_name@.len() as int) =~= codec_name@);
    }
}

/// A hardware encoder on Windows holds its rate, holds no frames back and makes the keyframes that
/// it is asked for complete.
pub proof fn windows_options_hold_the_rate(
    backend: WindowsEncoderBackend,
    config: EncoderConfig,
    out: Vec<CodecOption>,
)
    requires
        call_ensures(apply_backend_options, (backend, &config), out),
    ensures
        ({
            let o = option_views(out@);
            &&& backend == WindowsEncoderBackend::Nvenc ==> o.contains(
                OptionView::Text("rc"@, "cbr"@),
            ) && o.contains(OptionView::Int("delay"@, 0)) && o.contains(
                OptionView::Int("forced-idr"@, 1),
            ) && o.contains(OptionView::Int("zerolatency"@, 1)) && o.contains(
                OptionView::Text("preset"@, config.quality.nvenc_preset@),
            ) && o.contains(OptionView::Text("tune"@, config.quality.nvenc_tune@)) && o.contains(
                OptionView::Int("rc-lookahead"@, 0),
            )
            &&& backend == WindowsEncoderBackend::Amf ==> o.contains(
                OptionView::Text("rc"@, "cbr"@),
            ) && o.contains(OptionView::Int("forced_idr"@, 1)) && o.contains(
                OptionView::Int("async_depth"@, 1),
            )
            &&& backend == WindowsEncoderBackend::MediaFoundation ==> o.contains(
                OptionView::Text("rate_control"@, "cbr"@),
            ) && o.contains(OptionView::Int("hw_encoding"@, 1))
        }),
{
    let o = option_views(out@);
    match backend {
        WindowsEncoderBackend::Nvenc => {
            assert(o[0] == OptionView::Text("preset"@, config.quality.nvenc_preset@));
            assert(o[1] == OptionView::Text("tune"@, config.quality.nvenc_tune@));
            assert(o[2] == OptionView::Text("rc"@, "cbr"@));
            assert(o[3] == OptionView::Int("delay"@, 0));
            assert(o[4] == OptionView::Int("forced-idr"@, 1));
            assert(o[5] == OptionView::Int("zerolatency"@, 1));
            assert(o[8] == OptionView::Int("rc-lookahead"@, 0));
        },
        WindowsEncoderBackend::Amf => {
            assert(o[1] == OptionView::Int("forced_idr"@, 1));
            assert(o[2] == OptionView::Int("async_depth"@, 1));
            assert(o[3] == OptionView::Text("rc"@, "cbr"@));
        },
        WindowsEncoderBackend::MediaFoundation => {
            assert(o[0] == OptionView::Int("hw_encoding"@, 1));
            assert(o[1] == OptionView::Text("rate_control"@, "cbr"@));
        },
    }
}

/// A name in a field ends at its first zero, and where there is none at the end of the field.
pub proof fn names_end_at_zero(field: &[u16], len: usize, i: int)
    requires
        call_ensures(name_length, (field,), len),
    ensures
        len <= field@.len(),
        0 <= i < len ==> field@[i] != 0,
        len < field@.len() ==> field@[len as int] == 0,
{
    lemma_name_end(field@, 0, i);
}

proof fn lemma_name_end(field: Seq<u16>, from: int, i: int)
    requires
        0 <= from <= field.len(),
    ensures
        from <= crate::encode_win::name_end(field, from) <= field.len(),
        from <= i < crate::encode_win::name_end(field, from) ==> field[i] != 0,
        crate::encode_win::name_end(field, from) < field.len() ==> field[crate::encode_win::name_end(
            field,
            from,
        )] == 0,
    decreases field.len() - from,
{
    if from < field.len() && field[from] != 0 {
        lemma_name_end(field, from + 1, i);
    }
}

/// A status other than zero is a failure.
pub proof fn statuses_are_checked(status: i32, made: Result<(), String>, taken: Result<(), String>)
    requires
        call_ensures(session_created, (status,), made),
        call_ensures(frame_encoded, (status,), taken),
    ensures
        made is Ok <==> status == 0,
        taken is Ok <==> status == 0,
{
}

/// The part of a texture with several of them is the one at its own place.
pub proof fn subresources_are_counted(index: u32, source: TextureInfo, out: Option<u32>)
    requires
        call_ensures(source_subresource, (index, source), out),
    ensures
        out is None <==> index == 0 && source.array_size <= 1,
        out matches Some(n) ==> index * source.mip_levels <= u32::MAX ==> n == index
            * source.mip_levels,
{
}

/// The rate is held where it is set: at its least, at its target and at its most.
pub proof fn rates_are_constant(config: EncoderConfig, buffer: i32, out: RateUpdate)
    requires
        call_ensures(constant_rate, (&config, buffer), out),
    ensures
        goes_to_target(out, config, buffer),
        out.rc_min_rate == out.bit_rate && out.rc_max_rate == out.bit_rate,
{
    assert(option_views(out.options@)[0] == OptionView::Int("b"@, config.bitrate_kbps * 1000));
}

/// A frame is told apart by its number, and is a keyframe exactly where one was asked for.
pub proof fn frames_are_marked(a: &mut FrameCounter, b: &mut FrameCounter, first: FrameMark, second: FrameMark)
    requires
        call_ensures(FrameCounter::mark, (a,), first),
        *old(b) == *final(a),
        call_ensures(FrameCounter::mark, (b,), second),
        old(a).frame_index < i64::MAX,
    ensures
        first.keyframe == old(a).force_keyframe_next,
        !second.keyframe,
        first.pts == old(a).frame_index,
        second.pts == first.pts + 1,
{
}

/// What is asked of the settings is what they say.
pub proof fn settings_say_what_they_are(
    config: EncoderConfig,
    chroma: ChromaSampling,
    full: bool,
    hdr: bool,
    bps: i64,
    other: EncoderConfig,
    codec: VideoCodec,
    can: bool,
)
    requires
        call_ensures(EncoderConfig::is_yuv444, (&config,), full),
        call_ensures(EncoderConfig::is_hdr, (&config,), hdr),
        call_ensures(EncoderConfig::bitrate_bps, (&config,), bps),
        call_ensures(EncoderConfig::with_chroma_sampling, (config, chroma), other),
        call_ensures(supports_yuv444_codec, (codec,), can),
    ensures
        full <==> config.chroma == ChromaSampling::Yuv444,
        hdr <==> config.dynamic_range == DynamicRange::Hdr,
        bps == config.bitrate_kbps * 1000,
        other.chroma == chroma,
        other == (EncoderConfig { chroma: other.chroma, ..config }),
        can <==> codec == VideoCodec::H264 || codec == VideoCodec::Hevc,
{
}

/// No two codecs, chroma formats, backends or makers go by one name.
pub proof fn names_differ(
    a: VideoCodec,
    b: VideoCodec,
    codec: (&'static str, &'static str),
    chroma: (&'static str, &'static str),
    p: EncoderBackend,
    q: EncoderBackend,
    backend: (&'static str, &'static str),
)
    requires
        a != b,
        call_ensures(codec_name, (a,), codec.0),
        call_ensures(codec_name, (b,), codec.1),
        call_ensures(encoder_chroma_name, (ChromaSampling::Yuv420,), chroma.0),
        call_ensures(encoder_chroma_name, (ChromaSampling::Yuv444,), chroma.1),
        p != q,
        call_ensures(encoder_backend_name, (p,), backend.0),
        call_ensures(encoder_backend_name, (q,), backend.1),
    ensures
        codec.0@ != codec.1@,
        chroma.0@ != chroma.1@,
        backend.0@ != backend.1@,
        a == VideoCodec::H264 ==> codec.0@ == "h264"@,
        a == VideoCodec::Hevc ==> codec.0@ == "hevc"@,
        a == VideoCodec::Av1 ==> codec.0@ == "av1"@,
        chroma.0@ == "yuv420"@ && chroma.1@ == "yuv444"@,
        p == EncoderBackend::Vaapi ==> backend.0@ == "vaapi"@,
        p == EncoderBackend::Nvenc ==> backend.0@ == "nvenc"@,
        p == EncoderBackend::Amf ==> backend.0@ == "amf"@,
        p == EncoderBackend::MediaFoundation ==> backend.0@ == "mf"@,
        p == EncoderBackend::Software ==> backend.0@ == "software"@,
{
    reveal_strlit("h264");
    reveal_strlit("hevc");
    reveal_strlit("av1");
    reveal_strlit("yuv420");
    reveal_strlit("yuv444");
    reveal_strlit("vaapi");
    reveal_strlit("nvenc");
    reveal_strlit("amf");
    reveal_strlit("mf");
    reveal_strlit("software");
    assert("h264"@[1] == '2' && "hevc"@[1] == 'e' && "av1"@[1] == 'v');
    assert("yuv420"@[4] == '2' && "yuv444"@[4] == '4');
    assert("vaapi"@[0] == 'v' && "nvenc"@[0] == 'n' && "amf"@[0] == 'a' && "mf"@[0] == 'm'
        && "software"@[0] == 's');
}

/// A software encoder has the profile that its format needs.
pub proof fn software_profiles_fit_the_format(
    config: EncoderConfig,
    buffer: i32,
    encoder: SoftwareEncoder,
    plan: SoftwarePlan,
)
    requires
        call_ensures(
            SoftwareEncoder::with_config,
            (&config, buffer),
            Ok::<(SoftwareEncoder, SoftwarePlan), &'static str>((encoder, plan)),
        ),
    ensures
        plan.context.profile == Profile::H264High444Predictive <==> config.codec
            == VideoCodec::H264 && config.chroma == ChromaSampling::Yuv444,
        plan.context.profile == Profile::HevcRangeExtensions <==> config.codec == VideoCodec::Hevc
            && config.chroma == ChromaSampling::Yuv444,
        plan.context.profile == Profile::Number(100) <==> config.codec == VideoCodec::H264
            && config.chroma == ChromaSampling::Yuv420,
        plan.context.profile == Profile::Number(2) <==> config.codec == VideoCodec::Hevc
            && config.chroma == ChromaSampling::Yuv420 && config.dynamic_range
            == DynamicRange::Hdr,
        plan.context.profile == Profile::Number(1) <==> config.codec == VideoCodec::Hevc
            && config.chroma == ChromaSampling::Yuv420 && config.dynamic_range
            == DynamicRange::Sdr,
        plan.context.profile == Profile::Number(0) <==> config.codec == VideoCodec::Av1,
{
}

/// On Intel a VAAPI encoder has no least rate, before a change and after it.
pub proof fn intel_rates_have_no_floor(
    config: EncoderConfig,
    va: VaapiEncoder,
    buffer: i32,
    update: RateUpdate,
)
    requires
        call_ensures(
            VaapiEncoder::update_bitrate,
            (&va, &config, buffer),
            Ok::<RateUpdate, &'static str>(update),
        ),
    ensures
        va.gpu_vendor == GpuVendor::Intel ==> update.rc_min_rate == 0,
        option_views(update.options@).contains(OptionView::Int("b"@, config.bitrate_kbps * 1000)),
        option_views(update.options@).contains(
            OptionView::Int("maxrate"@, config.bitrate_kbps * 1000),
        ),
        option_views(update.options@).contains(OptionView::Int("bufsize"@, buffer as int)),
        va.gpu_vendor != GpuVendor::Intel ==> option_views(update.options@).contains(
            OptionView::Int("minrate"@, config.bitrate_kbps * 1000),
        ),
{
    let o = option_views(update.options@);
    assert(o[0] == OptionView::Int("b"@, config.bitrate_kbps * 1000));
    assert(o[1] == OptionView::Int("maxrate"@, config.bitrate_kbps * 1000));
    assert(o[2] == OptionView::Int("bufsize"@, buffer as int));
    if va.gpu_vendor != GpuVendor::Intel {
        assert(o[3] == OptionView::Int("minrate"@, config.bitrate_kbps * 1000));
    }
}

/// A sample that holds a unit is sent, and one that holds nothing is not.
pub proof fn samples_with_units_are_sent(
    keyframe: bool,
    sets: &Vec<Vec<u8>>,
    data: &[u8],
    out: Option<Vec<u8>>,
    units: Seq<Seq<u8>>,
)
    requires
        call_ensures(vt_output, (keyframe, sets, data), out),
        data@ == crate::encode_vt::length_prefixed(units),
        forall|i: int| 0 <= i < units.len() ==> (#[trigger] units[i]).len() <= 0xffff_ffff,
    ensures
        data@.len() == 0 ==> out is None,
        units.len() > 0 && data@.len() > 0 && !keyframe ==> (out matches Some(stream) && stream@
            == crate::encode_vt::start_prefixed(units)),
{
    crate::encode_vt::conversion_keeps_every_unit(units);
    let stream = crate::encode_vt::start_prefixed(units);
    if units.len() > 0 {
        assert(stream.len() > 0);
    }
    assert(Seq::<u8>::empty() + stream =~= stream);
}

/// A point in time is a valid one of its own scale.
pub proof fn times_are_valid(value: i64, timescale: i32, out: MediaTime)
    requires
        call_ensures(cm_time, (value, timescale), out),
    ensures
        out.value == value && out.timescale == timescale && out.flags == 1 && out.epoch == 0,
{
}

/// The makers of graphics processors are known by their numbers.
pub proof fn makers_are_known(vendor: u32, out: &'static str)
    requires
        call_ensures(vendor_label, (vendor,), out),
    ensures
        vendor == 0x10de ==> out@ == "NVIDIA"@,
        vendor == 0x1002 || vendor == 0x1022 ==> out@ == "AMD"@,
        vendor == 0x8086 ==> out@ == "Intel"@,
        vendor == 0x5143 || vendor == 0x4d4f_4351 ==> out@ == "Qualcomm"@,
        vendor != 0x10de && vendor != 0x1002 && vendor != 0x1022 && vendor != 0x8086 && vendor
            != 0x5143 && vendor != 0x4d4f_4351 ==> out@ == "Unknown"@,
{
}

/// The selection keeps what it was started with.
pub proof fn selections_keep_their_terms(
    s: &mut Selection,
    outcome: Result<EncoderBackend, String>,
)
    requires
        call_ensures(Selection::record, (s, outcome), ()),
    ensures
        final(s).client_hardware_codecs == old(s).client_hardware_codecs,
        final(s).first_group_wins == old(s).first_group_wins,
        forall|k: int|
            0 <= k < old(s).results@.len() ==> #[trigger] final(s).results@[k]
                == old(s).results@[k],
{
}

/// A hardware encoder on Windows has the options of its backend, the profile of its codec and
/// numbers its frames from the start, without a keyframe that nobody asked for.
pub proof fn windows_encoders_start_fresh(
    config: EncoderConfig,
    backend: WindowsEncoderBackend,
    buffer: i32,
    encoder: WindowsHwEncoder,
    plan: HardwarePlan,
    options: Vec<CodecOption>,
    shown: WindowsEncoderBackend,
)
    requires
        call_ensures(
            WindowsHwEncoder::with_config_and_backend,
            (&config, backend, buffer),
            Ok::<(WindowsHwEncoder, HardwarePlan), &'static str>((encoder, plan)),
        ),
        call_ensures(apply_backend_options, (backend, &config), options),
        call_ensures(WindowsHwEncoder::backend, (&encoder,), shown),
    ensures
        option_views(plan.options@) == option_views(options@),
        shown == backend,
        encoder.frames.frame_index == 0 && !encoder.frames.force_keyframe_next,
        config.codec == VideoCodec::H264 ==> plan.context.profile == Profile::Number(100),
        config.codec == VideoCodec::Hevc ==> plan.context.profile == Profile::Number(
            if config.dynamic_range == DynamicRange::Hdr {
                2
            } else {
                1
            },
        ),
        config.codec == VideoCodec::Av1 ==> plan.context.profile == Profile::Number(0),
        config.gop_size <= i32::MAX ==> plan.context.gop_size == config.gop_size,
{
}

/// A frame of VideoToolbox has a valid time.
pub proof fn videotoolbox_times_are_valid(e: &mut VTEncoder, out: MediaTime)
    requires
        call_ensures(VTEncoder::encode_pixel_buffer, (e,), out),
    ensures
        out.flags == 1 && out.epoch == 0,
{
}

/// A set of codecs is told by the names of its codecs, and by a dash where it has none.
pub proof fn sets_are_told_by_name(support: VideoCodecSupport, out: String)
    requires
        call_ensures(codec_support_summary, (support,), out),
    ensures
        !support.h264 && !support.hevc && !support.av1 ==> out@ == "-"@,
        support.h264 && !support.hevc && !support.av1 ==> out@ == "h264"@,
        !support.h264 && support.hevc && !support.av1 ==> out@ == "hevc"@,
        !support.h264 && !support.hevc && support.av1 ==> out@ == "av1"@,
        support.h264 && support.hevc && !support.av1 ==> out@ == "h264"@ + " / "@ + "hevc"@,
        support.h264 && !support.hevc && support.av1 ==> out@ == "h264"@ + " / "@ + "av1"@,
        !support.h264 && support.hevc && support.av1 ==> out@ == "hevc"@ + " / "@ + "av1"@,
        support.h264 && support.hevc && support.av1 ==> out@ == "h264"@ + " / "@ + "hevc"@ + " / "@
            + "av1"@,
{
    reveal_with_fuel(crate::text::joined, 4);
    let labels = crate::media::support_labels(support);
    if labels.len() == 2 {
        assert(labels.drop_last() =~= seq![labels[0]]);
    }
    if labels.len() == 3 {
        assert(labels.drop_last() =~= seq![labels[0], labels[1]]);
        assert(labels.drop_last().drop_last() =~= seq![labels[0]]);
    }
}

/// That the line at `at` of a plan tries a target with one of the settings, as a group of its own.
pub open spec fn tries_at(
    plan: Seq<PlanEntry>,
    at: int,
    target: EncodeTarget,
    base: EncoderConfig,
    quality: Option<Quality>,
) -> bool {
    &&& 0 <= at < plan.len()
    &&& plan[at] matches PlanEntry::Try(attempt) && attempt.group == at && attempt.target == target
        && attempt.config == (match quality {
        Some(q) => EncoderConfig { quality: q, ..base },
        None => base,
    })
}

/// On Windows what a client decodes is tried on each backend of the capturing processor, in their
/// order, then on each other processor, and then in software; nothing but software where the
/// frames are in memory.
pub proof fn windows_tries_hardware_first(
    bases: &Vec<EncoderConfig>,
    params: WindowsSelectParams,
    plan: Vec<PlanEntry>,
    order: Seq<WindowsEncoderBackend>,
    others: Seq<CrossAdapterBackend>,
    b: int,
) -> (at: int)
    requires
        call_ensures(select_windows_encoder, (bases, &params), plan),
        0 <= b < bases@.len(),
        decodable(
            params.client_supported_codecs,
            params.client_supported_yuv444_codecs,
            bases@[b],
        ),
        params.hardware_capture ==> others == params.cross_adapter_backends@,
        params.hardware_capture ==> (match params.hardware_backends {
            Ok(list) => order == list@,
            Err(_) => order.len() == 0,
        }),
        !params.hardware_capture ==> order.len() == 0 && others.len() == 0,
    ensures
        forall|j: int|
            0 <= j < order.len() ==> tries_at(
                plan@,
                at + j,
                EncodeTarget::Hardware(#[trigger] order[j]),
                bases@[b],
                params.forced_quality,
            ),
        forall|j: int|
            0 <= j < others.len() ==> tries_at(
                plan@,
                at + order.len() + j,
                EncodeTarget::CrossAdapter(j as usize, (#[trigger] others[j]).backend),
                bases@[b],
                params.forced_quality,
            ),
        tries_at(
            plan@,
            at + order.len() + others.len(),
            EncodeTarget::Software,
            bases@[b],
            params.forced_quality,
        ),
{
    let views = crate::encoder_select::entry_views(plan@);
    assert(views.len() == plan@.len());
    assert(params.usable_backends() =~= order);
    assert(params.usable_others() =~= others);
    let at = lemma_windows_block(bases@, params, b);
    let block = crate::encoder_select::windows_codec_entries(at as nat, bases@[b], params);
    assert(views == crate::encoder_select::windows_plan(bases@, params));
    assert forall|j: int| 0 <= j < order.len() implies tries_at(
        plan@,
        at + j,
        EncodeTarget::Hardware(#[trigger] order[j]),
        bases@[b],
        params.forced_quality,
    ) by {
        assert(views[at + j] == plan@[at + j]@);
        assert(views[at + j] == block[j]);
    }
    assert forall|j: int| 0 <= j < others.len() implies tries_at(
        plan@,
        at + order.len() + j,
        EncodeTarget::CrossAdapter(j as usize, (#[trigger] others[j]).backend),
        bases@[b],
        params.forced_quality,
    ) by {
        let k = order.len() + j;
        assert(views[at + k] == plan@[at + k]@);
        assert(views[at + k] == block[k]);
    }
    let last = (order.len() + others.len()) as int;
    assert(views[at + last] == plan@[at + last]@);
    assert(views[at + last] == block[last]);
    at
}

proof fn lemma_windows_block(
    bases: Seq<EncoderConfig>,
    params: WindowsSelectParams,
    b: int,
) -> (at: int)
    requires
        0 <= b < bases.len(),
        decodable(
            params.client_supported_codecs,
            params.client_supported_yuv444_codecs,
            bases[b],
        ),
    ensures
        ({
            let plan = crate::encoder_select::windows_plan(bases, params);
            let block = crate::encoder_select::windows_codec_entries(at as nat, bases[b], params);
            &&& 0 <= at
            &&& at + block.len() <= plan.len()
            &&& block.len() == params.usable_backends().len() + params.usable_others().len() + 1
            &&& forall|i: int| 0 <= i < block.len() ==> plan[at + i] == #[trigger] block[i]
        }),
    decreases bases.len(),
{
    let rest = bases.drop_last();
    let before = crate::encoder_select::windows_plan(rest, params);
    let plan = crate::encoder_select::windows_plan(bases, params);
    if b < rest.len() {
        assert(rest[b] == bases[b]);
        let at = lemma_windows_block(rest, params, b);
        let block = crate::encoder_select::windows_codec_entries(at as nat, bases[b], params);
        assert forall|i: int| 0 <= i < block.len() implies plan[at + i] == #[trigger] block[i] by {
            assert(before[at + i] == block[i]);
        }
        at
    } else {
        before.len() as int
    }
}

/// The selection starts at the head of its plan, on the terms that it is given, and encoders
/// number their frames from zero on.
pub proof fn selections_start_at_the_head(
    plan: Vec<PlanEntry>,
    first: bool,
    hardware: VideoCodecSupport,
    out: Selection,
    frames: FrameCounter,
)
    requires
        call_ensures(Selection::new, (plan, first, hardware), out),
        call_ensures(FrameCounter::new, (), frames),
    ensures
        out.plan == plan && out.results@.len() == 0,
        out.first_group_wins == first && out.client_hardware_codecs == hardware,
        frames.frame_index == 0 && !frames.force_keyframe_next,
{
}

} // verus!
