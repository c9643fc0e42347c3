use st_server::encode_plan::{
    constant_rate, encoder_not_found, fill_bgra_from_slice, open_failed, option_accepted,
    receive_step, CodecOption, FrameCounter, OptionValue, PixelFormat, Profile, Received,
};
use st_server::encode_sw::{
    fill_bgra_from_dmabuf, source_subresource, staging_is_stale, SoftwareEncoder, TextureInfo,
};
use st_server::encode_vaapi::{
    attempt_failure, detect_gpu_vendor, encoding_vendor, find_render_node, is_nvidia_driver,
    next_attempt, no_usable_profile, render_node_path, vaapi_encoder_not_found, vendor_by_name, GpuVendor,
    VaapiEncoder, VaapiPath, VaapiSource, VaapiStep,
};
use st_server::encode_vt::{
    cm_time, convert_units, extract_parameter_sets, frame_encoded, is_keyframe, session_created,
    vt_output, SyncAttachment, VTEncoder,
};
use st_server::encode_win::{
    apply_backend_options, cross_adapter_backends, cross_adapter_encoder_not_found, name_length,
    output_view_is_array, preferred_backend_order, vendor_label, AdapterInfo, FramePath,
    FrameSource, WindowsEncoderBackend, WindowsHwEncoder,
};
use st_server::encoder_select::{
    codec_selection_score, create_encoder_for_backend, create_linux_encoder_with_hint,
    encoder_backend, encoder_backend_name, encoder_name, linux_chroma_candidates,
    select_linux_encoder, select_macos_encoder, select_windows_encoder, ChainStep,
    CrossAdapterBackend, Decision, EncodeTarget, EncoderBackend, EncoderKind, LinuxSelectParams,
    PlanEntry, RebuildStep, Selection, WindowsSelectParams,
};
use st_server::media::{
    ChromaSampling, DynamicRange, EncoderConfig, Quality, VideoCodec, VideoCodecSupport,
};

const ALL: VideoCodecSupport = VideoCodecSupport { h264: true, hevc: true, av1: true };
const NONE: VideoCodecSupport = VideoCodecSupport { h264: false, hevc: false, av1: false };

fn quality() -> Quality {
    Quality {
        x26x_preset: "ultrafast",
        svtav1_preset: "12",
        nvenc_preset: "p1",
        nvenc_tune: "ull",
    }
}

fn config(codec: VideoCodec) -> EncoderConfig {
    EncoderConfig {
        width: 1920,
        height: 1080,
        framerate: 60,
        bitrate_kbps: 20_000,
        min_bitrate_kbps: 2_000,
        max_bitrate_kbps: 50_000,
        codec,
        chroma: ChromaSampling::Yuv420,
        dynamic_range: DynamicRange::Sdr,
        quality: quality(),
        gop_size: 120,
        max_b_frames: 0,
        low_delay: true,
        min_qp: None,
        slices_per_frame: 1,
        h264_coder: None,
        intra_refresh: false,
    }
}

fn text_option<'a>(options: &'a [CodecOption], name: &str) -> Option<&'a str> {
    options.iter().find(|o| o.name == name).and_then(|o| match o.value {
        OptionValue::Text(t) => Some(t),
        OptionValue::Int(_) => None,
    })
}

fn int_option(options: &[CodecOption], name: &str) -> Option<i64> {
    options.iter().find(|o| o.name == name).and_then(|o| match o.value {
        OptionValue::Int(n) => Some(n),
        OptionValue::Text(_) => None,
    })
}

#[test]
fn keyframes_are_made_on_request() {
    let mut frames = FrameCounter::new();
    let first = frames.mark();
    assert_eq!((first.pts, first.keyframe), (0, false));
    frames.reset_for_keyframe();
    let second = frames.mark();
    assert_eq!((second.pts, second.keyframe), (1, true));
    let third = frames.mark();
    assert_eq!((third.pts, third.keyframe), (2, false));
}

#[test]
fn codec_calls_are_judged_by_their_codes() {
    assert!(option_accepted(0, -9));
    assert!(option_accepted(-9, -9));
    assert!(!option_accepted(-1, -9));
    assert!(matches!(receive_step(0, -11, -541), Received::Packet));
    assert!(matches!(receive_step(-11, -11, -541), Received::Drained));
    assert!(matches!(receive_step(-541, -11, -541), Received::Drained));
    assert!(matches!(receive_step(-1, -11, -541), Received::Failed));
    assert_eq!(
        encoder_not_found("libx264"),
        "libx264 encoder not found (is FFmpeg built with libx264?)"
    );
    assert_eq!(open_failed("libx264", "no"), "Failed to open libx264 encoder: no");
}

#[test]
fn rows_are_copied_within_the_picture() {
    let rows = fill_bgra_from_slice(2 * 3 * 4, 3, 2, 16);
    assert_eq!(rows.len(), 2);
    assert_eq!((rows[0].from, rows[0].to, rows[0].len), (0, 0, 12));
    assert_eq!((rows[1].from, rows[1].to, rows[1].len), (12, 16, 12));
}

#[test]
fn the_software_encoder_is_set_up_for_low_delay() {
    let (encoder, plan) = SoftwareEncoder::with_config(&config(VideoCodec::H264), 666).ok().unwrap();
    assert_eq!((encoder.width, encoder.height), (1920, 1080));
    assert_eq!(plan.context.bit_rate, 20_000_000);
    assert_eq!(plan.context.rc_buffer_size, 666);
    assert_eq!(plan.context.pixel_format, PixelFormat::Yuv420p);
    assert!(plan.context.low_delay);
    assert_eq!(text_option(&plan.options, "preset"), Some("ultrafast"));
    assert_eq!(text_option(&plan.options, "tune"), Some("zerolatency"));
}

#[test]
fn the_software_encoder_marks_frames() {
    let (mut encoder, _) = SoftwareEncoder::with_config(&config(VideoCodec::Av1), 1).ok().unwrap();
    encoder.encode();
    encoder.reset_for_keyframe();
    assert!(encoder.encode().keyframe);
    assert!(!encoder.encode().keyframe);
}

#[test]
fn software_rates_change_in_place() {
    let (encoder, _) = SoftwareEncoder::with_config(&config(VideoCodec::H264), 1).ok().unwrap();
    let next = EncoderConfig { bitrate_kbps: 5_000, ..config(VideoCodec::H264) };
    let update = encoder.update_bitrate(&next, 77).ok().unwrap();
    assert_eq!(update.bit_rate, 5_000_000);
    assert_eq!(update.rc_buffer_size, 77);
    let smaller = EncoderConfig { width: 1280, ..next };
    assert!(encoder.update_bitrate(&smaller, 77).is_err());
    let plain = constant_rate(&next, 5);
    assert_eq!((plain.rc_min_rate, plain.rc_max_rate), (5_000_000, 5_000_000));
}

#[test]
fn buffers_of_one_plane_are_read() {
    let read = fill_bgra_from_dmabuf(1, 64, 16, 2, 3, 8).ok().unwrap();
    assert_eq!(read.map_len, 64 + 16 * 3);
    assert_eq!(read.copies.len(), 3);
    assert_eq!((read.copies[1].from, read.copies[1].to, read.copies[1].len), (16, 8, 8));
    let whole = fill_bgra_from_dmabuf(1, 0, 8, 2, 3, 8).ok().unwrap();
    assert_eq!(whole.copies.len(), 1);
    assert_eq!(whole.copies[0].len, 24);
    assert_eq!(fill_bgra_from_dmabuf(0, 0, 16, 2, 3, 8).err(), Some("DMA-BUF has no planes"));
}

#[test]
fn staging_textures_follow_their_source() {
    let source =
        TextureInfo { width: 4, height: 5, format: 87, mip_levels: 2, array_size: 3 };
    assert!(staging_is_stale(None, source));
    assert!(!staging_is_stale(Some(source), source));
    assert!(staging_is_stale(Some(TextureInfo { width: 5, ..source }), source));
    assert_eq!(source_subresource(2, source), Some(4));
    assert_eq!(source_subresource(0, TextureInfo { array_size: 1, ..source }), None);
    assert_eq!(source_subresource(u32::MAX, source), Some(u32::MAX));
}

#[test]
fn render_nodes_are_looked_for_in_order() {
    assert_eq!(render_node_path(0), "/dev/dri/renderD128");
    let mut present = [false; 8];
    assert_eq!(
        find_render_node(&present),
        Err("No DRM render node found (/dev/dri/renderD128..135)")
    );
    present[3] = true;
    present[5] = true;
    assert_eq!(find_render_node(&present), Ok("/dev/dri/renderD131".to_string()));
}

#[test]
fn drivers_point_to_makers() {
    assert_eq!(vendor_by_name("i915"), GpuVendor::Intel);
    assert_eq!(vendor_by_name("xe"), GpuVendor::Intel);
    assert_eq!(vendor_by_name("radeon"), GpuVendor::Amd);
    assert_eq!(vendor_by_name("AMDGPU"), GpuVendor::Other);
    assert_eq!(detect_gpu_vendor(Some("AMDGPU")), GpuVendor::Amd);
    assert_eq!(detect_gpu_vendor(None), GpuVendor::Other);
    assert!(is_nvidia_driver(Some("nvidia-drm")));
    assert_eq!(
        encoding_vendor(Some("nvidia-drm")),
        Err("NVIDIA GPU detected — VAAPI encode not supported (use NVENC)")
    );
    assert_eq!(encoding_vendor(Some("I915")), Ok(GpuVendor::Intel));
}

#[test]
fn vaapi_tries_profiles_in_order() {
    let h264 = config(VideoCodec::H264);
    let tries = VaapiEncoder::attempts(&h264, GpuVendor::Intel);
    assert!(tries.len() > 1);
    assert!(tries.iter().any(|t| t.low_power));
    assert!(VaapiEncoder::attempts(&h264, GpuVendor::Amd).iter().all(|t| !t.low_power));
    let (context, _) = VaapiEncoder::with_config(&h264, GpuVendor::Amd, tries[0], 9);
    assert_eq!(context.pixel_format, PixelFormat::Vaapi);
    assert_eq!(context.rc_buffer_size, 9);
    assert!(attempt_failure(tries[0], "why").ends_with("why"));
    assert!(no_usable_profile("h264_vaapi", "last").contains("last"));
    assert!(vaapi_encoder_not_found("h264_vaapi").starts_with("h264_vaapi"));
    let mut encoder = VaapiEncoder::opened(&h264, GpuVendor::Amd);
    encoder.reset_for_keyframe();
    assert!(encoder.encode_dmabuf().keyframe);
    assert!(!encoder.encode_ram().keyframe);
    encoder.reset_for_keyframe();
    assert_eq!(encoder.encode(VaapiSource::Ram), VaapiPath::Upload);
    assert!(encoder.encode_ram().keyframe);
    assert_eq!(encoder.encode(VaapiSource::DmaBuf), VaapiPath::Import);
    let mark = encoder.encode_dmabuf();
    assert!(!mark.keyframe);
    assert_eq!(mark.pts, 3);
    assert!(encoder.update_bitrate(&h264, 3).is_ok());
}

#[test]
fn videotoolbox_units_get_start_codes() {
    let mut out = Vec::new();
    convert_units(&mut out, &[0, 0, 0, 2, 9, 8, 0, 0, 0, 1, 7]);
    assert_eq!(out, vec![0, 0, 0, 1, 9, 8, 0, 0, 0, 1, 7]);
    // A unit that is cut off ends the conversion.
    let mut out = Vec::new();
    convert_units(&mut out, &[0, 0, 0, 5, 1]);
    assert!(out.is_empty());
    assert_eq!(
        extract_parameter_sets(&vec![vec![1], vec![2, 3]]),
        vec![0, 0, 0, 1, 1, 0, 0, 0, 1, 2, 3]
    );
    let unit = vt_output(true, &vec![vec![5]], &[0, 0, 0, 1, 6]).unwrap();
    assert_eq!(unit, vec![0, 0, 0, 1, 5, 0, 0, 0, 1, 6]);
    assert!(vt_output(false, &vec![vec![5]], &[]).is_none());
    assert!(is_keyframe(SyncAttachment::Absent));
    assert!(is_keyframe(SyncAttachment::NotSync(false)));
    assert!(!is_keyframe(SyncAttachment::NotSync(true)));
}

#[test]
fn videotoolbox_counts_its_frames() {
    let time = cm_time(3, 60);
    assert_eq!((time.value, time.timescale), (3, 60));
    let (mut encoder, settings) = VTEncoder::new(640, 480, 1_000_000, 30);
    assert_eq!((settings.width, settings.height), (640, 480));
    assert_eq!(settings.average_bit_rate, 1_000_000);
    assert_eq!(settings.expected_frame_rate, 30);
    assert_eq!(encoder.encode_pixel_buffer().value, 0);
    assert_eq!(encoder.encode_pixel_buffer().value, 1);
    assert!(session_created(0).is_ok());
    assert!(session_created(-1).is_err());
    assert!(frame_encoded(0).is_ok());
    assert!(frame_encoded(-1).is_err());
}

#[test]
fn windows_backends_follow_the_maker() {
    assert_eq!(WindowsEncoderBackend::MediaFoundation.label(), "mf");
    assert_eq!(preferred_backend_order(0x10de)[0], WindowsEncoderBackend::Nvenc);
    assert_eq!(preferred_backend_order(0x1002)[0], WindowsEncoderBackend::Amf);
    assert_eq!(preferred_backend_order(0x8086)[0], WindowsEncoderBackend::MediaFoundation);
    assert_eq!(preferred_backend_order(1).len(), 3);
    assert_eq!(vendor_label(0x10de), "NVIDIA");
    assert_eq!(cross_adapter_encoder_not_found("h264_amf"), "h264_amf encoder not found");
    assert_eq!(name_length(&[65, 66, 0, 67]), 2);
    assert_eq!(name_length(&[65]), 1);
    assert!(!output_view_is_array(1, 0));
    assert!(output_view_is_array(4, 1));
}

#[test]
fn windows_hardware_takes_only_what_it_can() {
    let h264 = config(VideoCodec::H264);
    let (encoder, plan) =
        WindowsHwEncoder::with_config_and_backend(&h264, WindowsEncoderBackend::Nvenc, 9)
            .ok()
            .unwrap();
    assert_eq!(encoder.backend_name(), "nvenc");
    assert_eq!(plan.context.pixel_format, PixelFormat::D3d11);
    assert_eq!(plan.context.profile, Profile::Number(100));
    assert_eq!(text_option(&plan.options, "preset"), Some("p1"));
    assert_eq!(int_option(&plan.options, "aud"), Some(1));
    let full = EncoderConfig { chroma: ChromaSampling::Yuv444, ..h264 };
    assert_eq!(
        WindowsHwEncoder::with_config_and_backend(&full, WindowsEncoderBackend::Amf, 9).err(),
        Some("Windows hardware encoding currently supports YUV420 only")
    );
    let hdr = EncoderConfig { dynamic_range: DynamicRange::Hdr, ..h264 };
    assert_eq!(
        WindowsHwEncoder::with_config_and_backend(
            &hdr,
            WindowsEncoderBackend::MediaFoundation,
            9
        )
        .err(),
        Some("Media Foundation hardware encode is currently SDR-only")
    );
    let av1 = apply_backend_options(WindowsEncoderBackend::Nvenc, &config(VideoCodec::Av1));
    assert_eq!(int_option(&av1, "aud"), None);
}

#[test]
fn frames_cross_adapters_through_staging() {
    let h264 = config(VideoCodec::H264);
    let (direct, _) =
        WindowsHwEncoder::with_config_and_backend(&h264, WindowsEncoderBackend::Amf, 9)
            .ok()
            .unwrap();
    let (mut cross, _) =
        WindowsHwEncoder::with_config_cross_adapter(&h264, WindowsEncoderBackend::Nvenc, 9)
            .ok()
            .unwrap();
    let texture = || FrameSource::Texture { array_index: 2 };
    assert!(matches!(direct.encode(texture()), Ok(FramePath::Direct { array_index: 2 })));
    assert!(matches!(cross.encode(texture()), Ok(FramePath::Staged { array_index: 2 })));
    assert!(direct.encode(FrameSource::Ram).is_err());
    cross.reset_for_keyframe();
    assert!(cross.encode_texture().keyframe);
}

#[test]
fn other_adapters_are_listed() {
    let adapter = |luid_low, vendor_id, name: &str| AdapterInfo {
        luid_low,
        luid_high: 0,
        vendor_id,
        name: name.to_string(),
    };
    let adapters = vec![adapter(1, 0x8086, "iGPU"), adapter(2, 0x10de, "RTX")];
    let others = cross_adapter_backends(1, 0, &adapters);
    assert!(!others.is_empty());
    assert!(others.iter().all(|o| o.adapter == 1 && o.adapter_name == "RTX"));
    assert_eq!(others[0].backend, WindowsEncoderBackend::Nvenc);
}

#[test]
fn scores_prefer_full_colour_then_hardware() {
    let score = |chroma, backend, hw| codec_selection_score(VideoCodec::Hevc, chroma, backend, hw);
    assert!(
        score(ChromaSampling::Yuv444, EncoderBackend::Nvenc, NONE)
            > score(ChromaSampling::Yuv420, EncoderBackend::Nvenc, ALL)
    );
    assert!(
        score(ChromaSampling::Yuv420, EncoderBackend::Vaapi, NONE)
            > score(ChromaSampling::Yuv420, EncoderBackend::Software, ALL)
    );
    assert!(
        score(ChromaSampling::Yuv420, EncoderBackend::Software, ALL)
            > score(ChromaSampling::Yuv420, EncoderBackend::Software, NONE)
    );
}

#[test]
fn encoders_have_names() {
    assert_eq!(encoder_backend_name(EncoderBackend::MediaFoundation), "mf");
    assert_eq!(encoder_name(&EncoderKind::Vaapi), "vaapi");
    let amf = EncoderKind::Hardware(WindowsEncoderBackend::Amf);
    assert_eq!(encoder_name(&amf), "amf");
    assert_eq!(encoder_backend(&amf), EncoderBackend::Amf);
    assert!(matches!(
        create_encoder_for_backend(EncoderBackend::Nvenc, false),
        RebuildStep::Open(EncoderBackend::Nvenc, "NVENC reconfigure failed: ")
    ));
    assert!(matches!(
        create_encoder_for_backend(EncoderBackend::Nvenc, true),
        RebuildStep::Refused(
            "Windows hardware encoder rebuild requires a live D3D11 capture context"
        )
    ));
}

#[test]
fn the_linux_chain_falls_back() {
    let mut errors = Vec::new();
    let order = [EncoderBackend::Vaapi, EncoderBackend::Nvenc, EncoderBackend::Software];
    for (i, backend) in order.into_iter().enumerate() {
        match create_linux_encoder_with_hint(&errors) {
            ChainStep::Open(b) => assert_eq!(b, backend),
            ChainStep::Failed(_) => panic!("there is more to try"),
        }
        errors.push(format!("e{i}"));
    }
    match create_linux_encoder_with_hint(&errors) {
        ChainStep::Failed(text) => assert_eq!(
            text,
            "All encoders failed.\n  VAAPI: e0\n  NVENC: e1\n  Software: e2"
        ),
        ChainStep::Open(_) => panic!("nothing is left"),
    }
}

fn linux_params() -> LinuxSelectParams {
    LinuxSelectParams {
        client_supported_codecs: ALL,
        client_supported_yuv444_codecs: NONE,
        client_hardware_yuv444_codecs: NONE,
        client_hdr_display: false,
        forced_quality: None,
        preferred_chroma: None,
    }
}

#[test]
fn hdr_needs_a_display_that_shows_it() {
    let hdr = EncoderConfig { dynamic_range: DynamicRange::Hdr, ..config(VideoCodec::Hevc) };
    let plan = select_linux_encoder(&vec![hdr], &linux_params());
    match &plan[0] {
        PlanEntry::Try(a) => assert_eq!(a.config.dynamic_range, DynamicRange::Sdr),
        PlanEntry::Skip(_) => panic!("it is tried"),
    }
    let params = LinuxSelectParams { client_hdr_display: true, ..linux_params() };
    let plan = select_linux_encoder(&vec![hdr], &params);
    match &plan[0] {
        PlanEntry::Try(a) => assert_eq!(a.config.dynamic_range, DynamicRange::Hdr),
        PlanEntry::Skip(_) => panic!("it is tried"),
    }
}

#[test]
fn full_colour_needs_hardware_at_the_client() {
    let hevc = config(VideoCodec::Hevc);
    let params = LinuxSelectParams {
        client_supported_yuv444_codecs: ALL,
        client_hardware_yuv444_codecs: ALL,
        ..linux_params()
    };
    assert_eq!(
        linux_chroma_candidates(&hevc, &params),
        vec![ChromaSampling::Yuv444, ChromaSampling::Yuv420]
    );
    assert_eq!(linux_chroma_candidates(&hevc, &linux_params()), vec![ChromaSampling::Yuv420]);
    let wish = LinuxSelectParams {
        preferred_chroma: Some(ChromaSampling::Yuv444),
        ..linux_params()
    };
    match &select_linux_encoder(&vec![hevc], &wish)[0] {
        PlanEntry::Skip(text) => {
            assert_eq!(text, "hevc yuv444 skipped: client does not support it");
        }
        PlanEntry::Try(_) => panic!("the client cannot"),
    }
    match &select_linux_encoder(&vec![config(VideoCodec::Av1)], &wish)[0] {
        PlanEntry::Skip(text) => {
            assert_eq!(text, "av1 yuv444 skipped: codec profile is not implemented");
        }
        PlanEntry::Try(_) => panic!("it is not implemented"),
    }
}

#[test]
fn the_first_codec_group_that_opens_wins() {
    let bases = vec![config(VideoCodec::Av1), config(VideoCodec::H264)];
    let params = LinuxSelectParams {
        client_supported_codecs: VideoCodecSupport { av1: false, ..ALL },
        ..linux_params()
    };
    let plan = select_linux_encoder(&bases, &params);
    assert_eq!(plan.len(), 2);
    let mut selection = Selection::new(plan, true, NONE);
    let at = match selection.next() {
        Decision::Try(at) => at,
        _ => panic!("h264 is tried"),
    };
    assert_eq!(at, 1);
    selection.record(Ok(EncoderBackend::Vaapi));
    assert!(matches!(selection.next(), Decision::Selected(1)));
}

#[test]
fn a_plan_without_luck_lists_its_failures() {
    let params = LinuxSelectParams {
        client_supported_codecs: VideoCodecSupport { av1: false, ..ALL },
        ..linux_params()
    };
    let bases = vec![config(VideoCodec::Av1), config(VideoCodec::H264)];
    let mut selection = Selection::new(select_linux_encoder(&bases, &params), false, NONE);
    assert!(matches!(selection.next(), Decision::Try(1)));
    selection.record(Err("boom".to_string()));
    match selection.next() {
        Decision::Failed(text) => assert_eq!(
            text,
            "No mutually supported video codec could start.\n  \
             av1 skipped: client does not support it\n  h264 yuv420 failed: boom"
        ),
        _ => panic!("nothing is left"),
    }
}

#[test]
fn windows_tries_its_own_adapter_first() {
    let params = WindowsSelectParams {
        client_supported_codecs: ALL,
        client_supported_yuv444_codecs: NONE,
        forced_quality: None,
        hardware_capture: true,
        hardware_backends: Ok(vec![WindowsEncoderBackend::Amf]),
        cross_adapter_backends: vec![CrossAdapterBackend {
            backend: WindowsEncoderBackend::Nvenc,
            adapter: 1,
            adapter_name: "RTX".to_string(),
        }],
    };
    let plan = select_windows_encoder(&vec![config(VideoCodec::H264)], &params);
    let targets: Vec<EncodeTarget> = plan
        .iter()
        .filter_map(|e| match e {
            PlanEntry::Try(a) => Some(a.target),
            PlanEntry::Skip(_) => None,
        })
        .collect();
    assert_eq!(
        targets,
        vec![
            EncodeTarget::Hardware(WindowsEncoderBackend::Amf),
            EncodeTarget::CrossAdapter(0, WindowsEncoderBackend::Nvenc),
            EncodeTarget::Software,
        ]
    );
    let blind = WindowsSelectParams {
        hardware_backends: Err("no DXGI".to_string()),
        cross_adapter_backends: Vec::new(),
        ..params
    };
    let plan = select_windows_encoder(&vec![config(VideoCodec::H264)], &blind);
    assert!(matches!(
        &plan[0],
        PlanEntry::Skip(text) if text == "hardware backend detection failed: no DXGI"
    ));
}

#[test]
fn macos_encodes_h264_only() {
    let bases = vec![config(VideoCodec::Hevc), config(VideoCodec::H264)];
    let plan = select_macos_encoder(&bases, ALL, None);
    assert!(matches!(&plan[0], PlanEntry::Skip(text) if text
        == "hevc unavailable: macOS VideoToolbox encode is currently implemented for H.264 only"));
    match &plan[1] {
        PlanEntry::Try(a) => assert_eq!(a.target, EncodeTarget::VideoToolbox(20_000_000)),
        PlanEntry::Skip(_) => panic!("h264 is tried"),
    }
}

#[test]
fn vaapi_gives_up_with_the_last_failure() {
    let tries = VaapiEncoder::attempts(&config(VideoCodec::H264), GpuVendor::Amd);
    let mut failures = Vec::new();
    for expected in &tries {
        match next_attempt(&tries, &failures, "h264_vaapi") {
            VaapiStep::Open(attempt) => {
                assert_eq!(attempt, *expected);
                failures.push(attempt_failure(attempt, "refused"));
            }
            VaapiStep::GiveUp(_) => panic!("there are tries left"),
        }
    }
    match next_attempt(&tries, &failures, "h264_vaapi") {
        VaapiStep::GiveUp(text) => assert_eq!(
            text,
            "h264_vaapi: no usable profile (last error: constrained_baseline: refused)"
        ),
        VaapiStep::Open(_) => panic!("every try has failed"),
    }
    match next_attempt(&Vec::new(), &Vec::new(), "h264_vaapi") {
        VaapiStep::GiveUp(text) => {
            assert_eq!(text, "h264_vaapi: no usable profile (last error: )");
        }
        VaapiStep::Open(_) => panic!("there is nothing to try"),
    }
}
