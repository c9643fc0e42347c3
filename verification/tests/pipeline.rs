use st_server::media::{
    ChromaSampling, DynamicRange, EncoderConfig, Quality, VideoCodec,
};
use st_server::pipeline::{
    composite_plan, initial_rate_bounds, newest_frame, next_encoded_video_unit_seq, number_units,
    to_stream_config, CursorComposite, EncodedUnit, FrameInfo, FrameInputs, FrameStore,
    OutputInfo, Pipeline, PipelineAction, RebuildPoll, SharedCaptureState, SwitchEvent, SwitchStep,
};
use st_server::pipeline_start::{
    pipeline_turn, session_debug_info, start_step, started, FrameWait, StartEvent, StartReport,
    StartStep, Turn,
};

const MS: u64 = 1_000_000;

fn config() -> EncoderConfig {
    EncoderConfig {
        width: 1920,
        height: 1080,
        framerate: 60,
        bitrate_kbps: 20_000,
        min_bitrate_kbps: 2_000,
        max_bitrate_kbps: 50_000,
        codec: VideoCodec::H264,
        chroma: ChromaSampling::Yuv420,
        dynamic_range: DynamicRange::Sdr,
        quality: Quality {
            x26x_preset: "ultrafast",
            svtav1_preset: "12",
            nvenc_preset: "p1",
            nvenc_tune: "ull",
        },
        gop_size: 120,
        max_b_frames: 0,
        low_delay: true,
        min_qp: None,
        slices_per_frame: 1,
        h264_coder: None,
        intra_refresh: false,
    }
}

fn pipeline() -> Pipeline {
    Pipeline::new(config(), SharedCaptureState::new(), 0)
}

fn inputs(kbps: u32, now: u64) -> FrameInputs {
    FrameInputs {
        keyframe_requested: false,
        force_keyframe: false,
        rebuild: RebuildPoll::NotDone,
        forced_kbps: 0,
        adaptive_kbps: kbps,
        adaptive_limited_kbps: kbps,
        now,
    }
}

#[test]
fn the_start_reports_what_went_wrong() {
    let failure = |event, vt| match start_step(event, vt) {
        StartStep::Fail { message, stop_capture } => (message, stop_capture),
        _ => panic!("it fails"),
    };
    assert_eq!(
        failure(StartEvent::CaptureFailed("busy".to_string()), false),
        ("Failed to start capture: busy".to_string(), false)
    );
    assert_eq!(
        failure(StartEvent::CaptureClosed, false),
        ("Capture channel closed before first frame".to_string(), true)
    );
    assert_eq!(
        failure(StartEvent::EncoderFailed("none".to_string()), false),
        ("none".to_string(), true)
    );
    assert_eq!(
        failure(StartEvent::EncoderFailed("none".to_string()), true),
        ("Failed to create encoder: none".to_string(), true)
    );
    assert!(matches!(start_step(StartEvent::CaptureStarted, false), StartStep::AwaitFrame));
    assert!(matches!(
        start_step(StartEvent::FirstFrame { width: 3, height: 4 }, false),
        StartStep::SelectEncoder { width: 3, height: 4 }
    ));
    assert!(matches!(start_step(StartEvent::EncoderSelected, false), StartStep::Run));
    assert_eq!(started(StartReport::Started), Ok(()));
    assert_eq!(started(StartReport::Failed("x".to_string())), Err("x".to_string()));
    assert_eq!(started(StartReport::Silent), Err("Pipeline thread crashed".to_string()));
}

#[test]
fn clients_can_show_how_the_stream_is_made() {
    let info = session_debug_info(
        "vaapi",
        &config(),
        "balanced",
        "kms".to_string(),
        "uinput(rel)".to_string(),
    );
    assert_eq!(info.encoder_name, "vaapi-yuv420");
    assert_eq!(info.capture_backend, "kms");
    assert_eq!(info.input_backend, "uinput(rel)");
    assert_eq!(info.target_bitrate_kbps, 20_000);
    assert_eq!(info.quality_preset, "balanced");
}

#[test]
fn nothing_is_encoded_for_nobody() {
    assert_eq!(pipeline_turn(true, FrameWait::Frame, 1), Turn::Stop);
    assert_eq!(pipeline_turn(false, FrameWait::Nothing, 1), Turn::Again);
    assert_eq!(pipeline_turn(false, FrameWait::CaptureEnded, 1), Turn::Stop);
    assert_eq!(pipeline_turn(false, FrameWait::Frame, 0), Turn::Release);
    assert_eq!(pipeline_turn(false, FrameWait::Frame, 1), Turn::Encode);
}

#[test]
fn a_dropped_frame_passes_its_keyframe_on() {
    let frame = |force_keyframe, width| FrameInfo { width, height: 1, force_keyframe };
    let newest = newest_frame(&vec![frame(true, 1), frame(false, 2), frame(false, 3)]);
    assert!(newest.force_keyframe);
    assert_eq!(newest.width, 3);
    assert!(!newest_frame(&vec![frame(false, 1)]).force_keyframe);
}

#[test]
fn a_forced_bitrate_is_all_there_is() {
    assert_eq!(initial_rate_bounds(0, &config()), (20_000, 2_000, 50_000));
    assert_eq!(initial_rate_bounds(7_000, &config()), (7_000, 7_000, 7_000));
}

#[test]
fn the_first_primary_output_is_selected() {
    let output = |id, is_primary| OutputInfo { id, name: format!("o{id}"), is_primary };
    let mut shared = SharedCaptureState::new();
    shared.set_outputs(vec![output(4, false), output(5, true), output(6, true)]);
    assert_eq!(shared.selected_output, 5);
    assert_eq!(shared.available_outputs.len(), 3);
    shared.publish_config(to_stream_config(&config()));
    assert_eq!(shared.config_generation, 1);
    assert_eq!(shared.updated_config.unwrap().width, 1920);
}

#[test]
fn keyframes_are_asked_for_before_encoding() {
    let mut p = pipeline();
    let actions =
        p.before_encode(FrameInputs { keyframe_requested: true, ..inputs(20_000, 0) });
    assert_eq!(actions.len(), 1);
    assert!(matches!(actions[0], PipelineAction::RequestKeyframe));
    let actions = p.before_encode(FrameInputs { force_keyframe: true, ..inputs(20_000, 0) });
    assert!(matches!(actions[0], PipelineAction::RequestKeyframe));
    assert!(p.before_encode(inputs(20_000, 0)).is_empty());
}

#[test]
fn a_lower_target_changes_the_encoder_in_place() {
    let mut p = pipeline();
    let actions = p.before_encode(inputs(10_000, 1_000 * MS));
    assert_eq!(actions.len(), 1);
    let next = match &actions[0] {
        PipelineAction::UpdateInPlace(c) => *c,
        _ => panic!("it changes in place"),
    };
    assert_eq!(next.bitrate_kbps, 10_000);
    assert!(p.in_place_result(next, true, 1_000 * MS).is_none());
    assert_eq!(p.config.bitrate_kbps, 10_000);
    // An encoder that refuses is rebuilt.
    let mut p = pipeline();
    p.before_encode(inputs(10_000, 1_000 * MS));
    let rebuild = p.in_place_result(next, false, 1_000 * MS).unwrap();
    assert_eq!(rebuild.bitrate_kbps, 10_000);
    assert!(p.pending_rebuild.is_some());
    // Nothing else is started meanwhile.
    assert!(p.before_encode(inputs(3_000, 9_000 * MS)).is_empty());
}

#[test]
fn a_built_encoder_is_swapped_in_with_a_keyframe() {
    let mut p = pipeline();
    let next = EncoderConfig { framerate: 30, ..config() };
    p.pending_rebuild = Some(next);
    let actions = p.before_encode(FrameInputs {
        rebuild: RebuildPoll::Built,
        ..inputs(20_000, 5 * MS)
    });
    assert!(actions.iter().any(|a| matches!(a, PipelineAction::SwapEncoder)));
    assert_eq!(p.config.framerate, 30);
    assert_eq!(p.shared.updated_config.unwrap().framerate, 30);
    assert!(p.pending_rebuild.is_none());
}

#[test]
fn a_failed_rebuild_resets_the_clients() {
    let mut p = pipeline();
    p.pending_rebuild = Some(EncoderConfig { bitrate_kbps: 9_000, ..config() });
    let actions = p.before_encode(FrameInputs {
        rebuild: RebuildPoll::Failed,
        ..inputs(20_000, 5 * MS)
    });
    assert!(matches!(actions[0], PipelineAction::ResetClients(20_000)));
    assert_eq!(p.config.bitrate_kbps, 20_000);
}

#[test]
fn a_new_size_needs_a_new_encoder() {
    let mut p = pipeline();
    assert!(p.encoder_for_size(1920, 1080).is_none());
    let next = p.encoder_for_size(1280, 720).unwrap();
    assert_eq!((next.width, next.height), (1280, 720));
    p.resized(next);
    assert_eq!(p.shared.updated_config.unwrap().width, 1280);
    assert_eq!(p.frame_budget_us(), 16_666);
}

#[test]
fn frame_rates_change_one_rebuild_at_a_time() {
    let mut p = pipeline();
    assert!(p.after_encode(1_000, None).is_none());
    let next = p.after_encode(1_000, Some(30)).unwrap();
    assert_eq!(next.framerate, 30);
    assert!(p.after_encode(1_000, Some(20)).is_none());
}

#[test]
fn an_output_switch_goes_step_by_step() {
    let mut p = pipeline();
    assert!(matches!(p.switch_output(2, SwitchEvent::Selected(false)), SwitchStep::Ignore));
    assert!(matches!(
        p.switch_output(2, SwitchEvent::Selected(true)),
        SwitchStep::RestartCapture
    ));
    assert!(matches!(p.switch_output(2, SwitchEvent::Restarted(true)), SwitchStep::AwaitFrame));
    let next = match p.switch_output(2, SwitchEvent::FirstFrame(Some((800, 600)))) {
        SwitchStep::Build(c) => c,
        _ => panic!("the size changed"),
    };
    assert_eq!(next.width, 800);
    assert!(matches!(p.switch_output(2, SwitchEvent::Built(Some(next))), SwitchStep::Complete));
    assert_eq!(p.shared.selected_output, 2);
    assert_eq!(p.shared.updated_config.unwrap().height, 600);
    assert!(matches!(p.switch_output(3, SwitchEvent::Restarted(false)), SwitchStep::Stop));
    assert!(matches!(p.switch_output(3, SwitchEvent::FirstFrame(None)), SwitchStep::Stop));
    assert!(matches!(p.switch_output(3, SwitchEvent::Built(None)), SwitchStep::Stop));
    let generation = p.shared.config_generation;
    let same = p.switch_output(4, SwitchEvent::FirstFrame(Some((800, 600))));
    assert!(matches!(same, SwitchStep::Complete));
    assert_eq!(p.shared.config_generation, generation + 1);
}

#[test]
fn videotoolbox_changes_its_rate_or_resets() {
    let mut p = pipeline();
    let next = p.videotoolbox_change(0, 10_000, 10_000, 1_000 * MS).unwrap();
    assert_eq!(next.bitrate_kbps, 10_000);
    assert_eq!(p.videotoolbox_result(next, false, 1_000 * MS), Some(20_000));
    assert_eq!(p.videotoolbox_result(next, true, 1_000 * MS), None);
    assert_eq!(p.config.bitrate_kbps, 10_000);
}

#[test]
fn the_cursor_is_drawn_only_where_nobody_else_does() {
    assert!(matches!(
        composite_plan(false, false, true, FrameStore::Ram),
        CursorComposite::OntoCopy
    ));
    assert!(matches!(
        composite_plan(true, false, true, FrameStore::Ram),
        CursorComposite::Leave
    ));
    assert!(matches!(
        composite_plan(false, true, true, FrameStore::Ram),
        CursorComposite::Leave
    ));
    assert!(matches!(
        composite_plan(false, false, false, FrameStore::Ram),
        CursorComposite::Leave
    ));
}

#[test]
fn units_are_numbered_across_frames() {
    let mut counter = 41;
    assert_eq!(next_encoded_video_unit_seq(&mut counter), 41);
    let units = vec![
        EncodedUnit { data: vec![1, 2], is_recovery: true },
        EncodedUnit { data: vec![3], is_recovery: false },
    ];
    let (frames, bytes) = number_units(&units, 99, &mut counter);
    assert_eq!(bytes, 3);
    assert_eq!(frames[0].source_seq, 42);
    assert_eq!(frames[1].source_seq, 43);
    assert_eq!(frames[1].data, vec![3]);
    assert!(frames[0].is_recovery && frames[0].capture_micros == 99);
    assert_eq!(counter, 44);
}
