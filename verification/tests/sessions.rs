use st_server::control::{
    initial_recovery, ClockReadings, ControlLoop, LoopAction, ReadOutcome,
    DIRECT_INACTIVITY_NANOS, TUNNEL_INACTIVITY_NANOS,
};
use st_server::file_transfer::{FtInbound, FtOutbound};
use st_server::input::{
    ControllerState, InputBackend, InputCapabilities, InputCredential, InputRuntime,
};
use st_server::media::{ChromaSampling, ClientDisplayInfo, VideoCodec, VideoCodecSupport};
use st_server::messages::{ClientMessage, ServerMessage, TransportFeedback};
use st_server::pipeline::{OutputInfo, StreamConfig};
use st_server::pipeline_start::SessionDebugInfo;
use st_server::session::{
    phase_deadline, same_secret, Link, Phase, Session, SessionEvent, SessionStep, Teardown,
};
use st_server::setup::{
    accept_connection, plan_setup, startup_bundle, AcceptStep, RunningPipeline, SetupPlan,
    StreamOffer, Viewers,
};

const MS: u64 = 1_000_000;
const PUNCHED: Link = Link::Tunnel { reliable: false };
const TCP_TUNNEL: Link = Link::Tunnel { reliable: true };

fn display() -> ClientDisplayInfo {
    ClientDisplayInfo {
        max_refresh_millihz: 59_940,
        udp_port: 4000,
        hdr_display: false,
        supported_video_codecs: VideoCodecSupport { h264: true, hevc: true, av1: false },
        hardware_video_codecs: VideoCodecSupport { h264: true, hevc: false, av1: false },
        supported_yuv444_video_codecs: VideoCodecSupport { h264: false, hevc: true, av1: false },
        hardware_yuv444_video_codecs: VideoCodecSupport { h264: false, hevc: false, av1: false },
    }
}

fn auth(token: &str) -> SessionEvent {
    SessionEvent::Received(vec![ClientMessage::Authenticate(token.to_string())])
}

fn names(steps: &[SessionStep]) -> Vec<String> {
    steps
        .iter()
        .map(|s| match s {
            SessionStep::Send(ServerMessage::AuthResult(ok)) => format!("auth {ok}"),
            SessionStep::Send(ServerMessage::Error(text)) => format!("error {text}"),
            SessionStep::Send(ServerMessage::StreamStarted) => "started".to_string(),
            SessionStep::Send(_) => "other message".to_string(),
            SessionStep::Register => "register".to_string(),
            SessionStep::SetUpPipeline => "set up".to_string(),
            SessionStep::OpenStream => "open".to_string(),
            SessionStep::StartTransport => "transport".to_string(),
            SessionStep::Linger => "linger".to_string(),
            SessionStep::Down(t) => format!("{t:?}"),
        })
        .collect()
}

fn feed(s: &mut Session, event: SessionEvent) -> Vec<String> {
    names(&s.on_event(event, "secret", false).steps)
}

#[test]
fn tokens_are_compared_as_texts() {
    assert!(same_secret("s\u{e9}cret", "s\u{e9}cret"));
    assert!(!same_secret("secret", "Secret"));
    assert!(!same_secret("secret", "secrets"));
}

#[test]
fn a_direct_session_comes_up_and_goes_down() {
    let mut s = Session::new(Link::Direct);
    assert_eq!(feed(&mut s, SessionEvent::Received(vec![ClientMessage::Other])), [""; 0]);
    let early = SessionEvent::Received(vec![
        ClientMessage::RequestKeyframe,
        ClientMessage::Authenticate("secret".to_string()),
    ]);
    assert_eq!(feed(&mut s, early), ["auth true", "register"]);
    let prefs = SessionEvent::Received(vec![ClientMessage::DisplayInfo(display())]);
    assert_eq!(feed(&mut s, prefs), ["set up"]);
    assert_eq!(s.display, Some(display()));
    assert_eq!(feed(&mut s, SessionEvent::SetUp(Ok(()))), ["open"]);
    let ready = SessionEvent::Received(vec![
        ClientMessage::Other,
        ClientMessage::ReadyForMedia,
        ClientMessage::SetAudio(false),
    ]);
    let reaction = s.on_event(ready, "secret", false);
    assert_eq!(names(&reaction.steps), ["transport", "started"]);
    assert_eq!(reaction.taken, 2, "the rest is for the control loop");
    assert_eq!(s.phase, Phase::Streaming);
    assert_eq!(
        feed(&mut s, SessionEvent::StreamEnded),
        [
            "StopClipboard",
            "StopFileTransfers",
            "StopTransport",
            "LeaveRateControl",
            "ReleaseControl",
            "UnregisterInput",
            "Unsubscribe",
            "JoinTransport",
            "Forget"
        ]
    );
    assert_eq!(s.phase, Phase::Closed);
    assert_eq!(feed(&mut s, SessionEvent::StreamEnded), [""; 0]);
}

#[test]
fn a_tunnel_session_comes_up_and_goes_down() {
    let mut s = Session::new(PUNCHED);
    // Only the first message of a packet counts.
    let second = SessionEvent::Received(vec![
        ClientMessage::Other,
        ClientMessage::Authenticate("secret".to_string()),
    ]);
    assert_eq!(feed(&mut s, second), [""; 0]);
    assert_eq!(feed(&mut s, auth("secret")), ["auth true"]);
    let prefs = SessionEvent::Received(vec![ClientMessage::DisplayInfo(display())]);
    assert_eq!(feed(&mut s, prefs), ["register", "set up"]);
    assert_eq!(feed(&mut s, SessionEvent::SetUp(Ok(()))), ["open"]);
    let ready = SessionEvent::Received(vec![ClientMessage::Other, ClientMessage::ReadyForMedia]);
    assert_eq!(feed(&mut s, ready), ["transport", "started"]);
    assert_eq!(
        feed(&mut s, SessionEvent::StreamEnded),
        [
            "StopClipboard",
            "StopFileTransfers",
            "StopTransport",
            "ReleaseControl",
            "UnregisterInput",
            "JoinTransport",
            "LeaveRateControl",
            "Unsubscribe",
            "Forget"
        ]
    );
}

#[test]
fn a_wrong_token_is_refused() {
    let mut s = Session::new(Link::Direct);
    assert_eq!(feed(&mut s, auth("guess")), ["auth false", "error Authentication failed."]);
    assert_eq!(s.phase, Phase::Closed);
    let mut s = Session::new(TCP_TUNNEL);
    assert_eq!(feed(&mut s, auth("guess")), ["auth false"]);
    assert_eq!(s.phase, Phase::Closed);
}

#[test]
fn silence_before_authentication_ends_the_session() {
    let mut s = Session::new(Link::Direct);
    assert_eq!(feed(&mut s, SessionEvent::DeadlinePassed), ["error Authentication failed."]);
    let mut s = Session::new(Link::Direct);
    assert_eq!(feed(&mut s, SessionEvent::PeerClosed), ["error Authentication failed."]);
    let mut s = Session::new(Link::Direct);
    assert_eq!(feed(&mut s, SessionEvent::ReadFailed), [""; 0]);
    assert_eq!(s.phase, Phase::Closed);
    let mut s = Session::new(PUNCHED);
    assert_eq!(feed(&mut s, SessionEvent::DeadlinePassed), [""; 0]);
    assert_eq!(s.phase, Phase::Closed);
}

#[test]
fn a_direct_client_need_not_describe_its_display() {
    let mut s = Session::new(Link::Direct);
    feed(&mut s, auth("secret"));
    assert_eq!(feed(&mut s, SessionEvent::DeadlinePassed), ["set up"]);
    assert_eq!(s.display, None);
    let mut s = Session::new(PUNCHED);
    feed(&mut s, auth("secret"));
    feed(&mut s, SessionEvent::DeadlinePassed);
    assert_eq!(s.phase, Phase::Closed);
}

#[test]
fn a_failed_set_up_is_told() {
    let mut s = Session::new(Link::Direct);
    feed(&mut s, auth("secret"));
    feed(&mut s, SessionEvent::DeadlinePassed);
    let failed = SessionEvent::SetUp(Err("no encoder".to_string()));
    assert_eq!(feed(&mut s, failed), ["error no encoder", "linger", "Forget"]);
    let mut s = Session::new(PUNCHED);
    feed(&mut s, auth("secret"));
    feed(&mut s, SessionEvent::Received(vec![ClientMessage::DisplayInfo(display())]));
    let failed = SessionEvent::SetUp(Err("no encoder".to_string()));
    assert_eq!(feed(&mut s, failed), ["error no encoder", "Forget"]);
}

#[test]
fn a_client_that_never_gets_ready_gives_everything_back() {
    let down =
        ["LeaveRateControl", "ReleaseControl", "Unsubscribe", "UnregisterInput", "Forget"];
    let mut s = Session::new(Link::Direct);
    feed(&mut s, auth("secret"));
    feed(&mut s, SessionEvent::PeerClosed);
    feed(&mut s, SessionEvent::SetUp(Ok(())));
    assert_eq!(feed(&mut s, SessionEvent::DeadlinePassed), down);
    assert!(!s.subscribed && !s.known && !s.input_registered);
}

#[test]
fn a_client_that_is_let_go_is_taken_down_at_once() {
    let mut s = Session::new(Link::Direct);
    feed(&mut s, auth("secret"));
    let reaction = s.on_event(SessionEvent::DeadlinePassed, "secret", true);
    assert_eq!(names(&reaction.steps), ["Forget"]);
    let mut s = Session::new(Link::Direct);
    feed(&mut s, auth("secret"));
    feed(&mut s, SessionEvent::DeadlinePassed);
    let reaction = s.on_event(SessionEvent::SetUp(Ok(())), "secret", true);
    assert_eq!(
        names(&reaction.steps),
        ["LeaveRateControl", "ReleaseControl", "Unsubscribe", "Forget"]
    );
    assert!(reaction
        .steps
        .iter()
        .any(|s| matches!(s, SessionStep::Down(Teardown::Unsubscribe))));
}

#[test]
fn phases_have_deadlines() {
    assert_eq!(phase_deadline(Link::Direct, Phase::Authenticating), Some(5_000 * MS));
    assert_eq!(phase_deadline(Link::Direct, Phase::AwaitingDisplay), Some(150 * MS));
    assert_eq!(phase_deadline(Link::Direct, Phase::AwaitingReady), Some(2_000 * MS));
    assert_eq!(phase_deadline(PUNCHED, Phase::Authenticating), Some(10_000 * MS));
    assert_eq!(phase_deadline(PUNCHED, Phase::AwaitingReady), Some(5_000 * MS));
    assert_eq!(phase_deadline(PUNCHED, Phase::Streaming), None);
}

fn stream(codec: VideoCodec, chroma: ChromaSampling) -> StreamConfig {
    StreamConfig { width: 1920, height: 1080, framerate: 60, codec, chroma }
}

fn running(codec: VideoCodec, chroma: ChromaSampling) -> Option<RunningPipeline> {
    Some(RunningPipeline { stream: stream(codec, chroma), finished: false })
}

fn refusal(plan: SetupPlan) -> String {
    match plan {
        SetupPlan::Refuse(text) => text,
        _ => panic!("not refused"),
    }
}

#[test]
fn the_first_client_starts_the_pipeline() {
    match plan_setup(Link::Direct, None, Some(display())) {
        SetupPlan::Start { stop_dead, request } => {
            assert!(!stop_dead);
            assert_eq!(request.fps, Some(60));
            assert_eq!(request.supported, display().supported_video_codecs);
        }
        _ => panic!("nothing runs"),
    }
    match plan_setup(PUNCHED, None, Some(display())) {
        SetupPlan::Start { request, .. } => assert_eq!(request.fps, Some(59)),
        _ => panic!("nothing runs"),
    }
    let dead = Some(RunningPipeline {
        stream: stream(VideoCodec::Av1, ChromaSampling::Yuv420),
        finished: true,
    });
    assert!(matches!(
        plan_setup(Link::Direct, dead, None),
        SetupPlan::Start { stop_dead: true, .. }
    ));
}

#[test]
fn a_client_joins_only_what_it_decodes() {
    let hevc = running(VideoCodec::Hevc, ChromaSampling::Yuv420);
    assert!(matches!(plan_setup(Link::Direct, hevc, Some(display())), SetupPlan::Join));
    let full = running(VideoCodec::Hevc, ChromaSampling::Yuv444);
    assert!(matches!(plan_setup(PUNCHED, full, Some(display())), SetupPlan::Join));
    let av1 = running(VideoCodec::Av1, ChromaSampling::Yuv420);
    assert_eq!(
        refusal(plan_setup(Link::Direct, av1, Some(display()))),
        "Active stream codec 'av1' is not supported by this client"
    );
    assert_eq!(
        refusal(plan_setup(PUNCHED, av1, Some(display()))),
        "Active stream codec 'av1' not supported by punched client"
    );
    let full = running(VideoCodec::H264, ChromaSampling::Yuv444);
    assert_eq!(
        refusal(plan_setup(Link::Direct, full, Some(display()))),
        "Active stream chroma 'yuv444' is not supported by this client for codec 'h264'"
    );
    assert_eq!(
        refusal(plan_setup(PUNCHED, full, Some(display()))),
        "Active stream chroma 'yuv444' not supported by punched client for codec 'h264'"
    );
}

fn offer() -> StreamOffer {
    StreamOffer {
        stream: stream(VideoCodec::H264, ChromaSampling::Yuv420),
        updated: None,
        debug: SessionDebugInfo {
            encoder_name: "software-yuv420".to_string(),
            capture_backend: "x11".to_string(),
            input_backend: "x11".to_string(),
            target_bitrate_kbps: 1,
            quality_preset: "balanced".to_string(),
        },
        client_id: 5,
        credential: InputCredential::from_bytes([1; 16]),
        capabilities: InputCapabilities::none(),
        controller: ControllerState::Available,
        selected_output: 7,
    }
}

fn outputs(n: u32) -> Vec<OutputInfo> {
    (0..n).map(|id| OutputInfo { id, name: "o".to_string(), is_primary: id == 0 }).collect()
}

#[test]
fn a_client_is_told_about_the_stream() {
    let bundle = startup_bundle(offer(), outputs(1));
    assert_eq!(bundle.len(), 5);
    assert!(matches!(bundle[0], ServerMessage::StreamConfig(c) if c == offer().stream));
    assert!(matches!(&bundle[1], ServerMessage::SessionDebugInfo(d) if d.target_bitrate_kbps == 1));
    assert!(matches!(bundle[2], ServerMessage::InputSession { client_id: 5, .. }));
    assert!(matches!(bundle[3], ServerMessage::InputCapabilities(_)));
    assert!(matches!(bundle[4], ServerMessage::ControllerState(ControllerState::Available)));
    let bundle = startup_bundle(offer(), outputs(2));
    assert_eq!(bundle.len(), 7);
    assert!(matches!(&bundle[5], ServerMessage::AvailableOutputs(o) if o.len() == 2));
    assert!(matches!(bundle[6], ServerMessage::SelectOutput(7)));
}

#[test]
fn late_clients_get_the_current_stream() {
    let now = stream(VideoCodec::Hevc, ChromaSampling::Yuv420);
    let bundle = startup_bundle(StreamOffer { updated: Some(now), ..offer() }, outputs(0));
    assert!(matches!(bundle[0], ServerMessage::StreamConfig(c) if c == now));
}

#[test]
fn the_last_viewer_stops_the_pipeline() {
    let mut viewers = Viewers::new();
    assert!(!viewers.unsubscribe_and_maybe_stop_pipeline(1));
    viewers.started(1);
    viewers.joined(2);
    assert!(!viewers.unsubscribe_and_maybe_stop_pipeline(1));
    assert!(!viewers.unsubscribe_and_maybe_stop_pipeline(1));
    assert!(viewers.unsubscribe_and_maybe_stop_pipeline(2));
    assert!(!viewers.running);
}

#[test]
fn blocked_connections_get_an_error() {
    assert!(matches!(accept_connection(true), AcceptStep::Serve));
    match accept_connection(false) {
        AcceptStep::Refuse(text) => {
            assert_eq!(text, "Server is currently blocking new connections.");
        }
        AcceptStep::Serve => panic!("blocked"),
    }
}

const CLOCK: ClockReadings = ClockReadings { recv_micros: 10, send_micros: 11, bitrate_kbps: 12 };

fn new_loop(link: Link) -> ControlLoop {
    ControlLoop::new(link, 1, false, ControllerState::Available, 0, 0)
}

fn able() -> InputRuntime {
    let mut runtime = InputRuntime::new(false);
    runtime.inner.backend = InputBackend::Windows;
    runtime.inner.capabilities = InputCapabilities {
        mouse_absolute: true,
        mouse_relative: true,
        keyboard: true,
        separate_cursor: true,
        hover_capture: true,
        cursor_position_reliable: true,
        text_input: true,
    };
    runtime
}

fn kinds(actions: &[LoopAction]) -> Vec<&'static str> {
    actions
        .iter()
        .map(|a| match a {
            LoopAction::Send(_) => "send",
            LoopAction::RequestKeyframe => "keyframe",
            LoopAction::AdaptErrorCorrection => "fec",
            LoopAction::AdaptAudioRedundancy => "audio",
            LoopAction::AdaptDuplicates => "dup",
            LoopAction::AdaptBitrate => "rate",
            LoopAction::LimitBitrate(_) => "limit",
            LoopAction::SwitchOutput(_) => "output",
            LoopAction::SetClipboard(_) => "clipboard",
            LoopAction::TypeText(_) => "text",
            LoopAction::Transfer(_) => "file",
        })
        .collect()
}

fn feedback(lost: u32, dropped: u32, completed: u32) -> ClientMessage {
    ClientMessage::Feedback(TransportFeedback {
        lost_packets: lost,
        dropped_frames: dropped,
        completed_frames: completed,
    })
}

#[test]
fn feedback_asks_for_keyframes_with_restraint() {
    let mut input = able();
    let mut l = new_loop(Link::Direct);
    let out = l.handle_message(&mut input, feedback(3, 0, 5), CLOCK, 0);
    assert_eq!(kinds(&out.actions), ["fec", "dup", "rate"]);
    let out = l.handle_message(&mut input, feedback(3, 0, 0), CLOCK, 0);
    assert_eq!(kinds(&out.actions), ["keyframe", "fec", "dup", "rate"]);
    let out = l.handle_message(&mut input, feedback(0, 1, 9), CLOCK, 249 * MS);
    assert_eq!(kinds(&out.actions), ["fec", "dup", "rate"]);
    let out = l.handle_message(&mut input, feedback(0, 1, 9), CLOCK, 250 * MS);
    assert_eq!(kinds(&out.actions), ["keyframe", "fec", "dup", "rate"]);

    let mut l = ControlLoop { adaptive_audio: true, ..new_loop(PUNCHED) };
    let out = l.handle_message(&mut input, feedback(3, 0, 5), CLOCK, 0);
    assert_eq!(kinds(&out.actions), ["fec", "audio", "dup", "rate", "keyframe"]);

    let mut l = ControlLoop { adaptive_audio: true, ..new_loop(TCP_TUNNEL) };
    let out = l.handle_message(&mut input, feedback(0, 0, 5), CLOCK, 0);
    assert_eq!(kinds(&out.actions), ["rate"]);
}

#[test]
fn messages_lead_to_their_actions() {
    let mut input = able();
    let mut l = new_loop(Link::Direct);
    l.handle_message(&mut input, ClientMessage::SetAudio(false), CLOCK, 0);
    assert!(!l.audio_enabled);
    let out = l.handle_message(&mut input, ClientMessage::BitratePreference(900), CLOCK, 0);
    assert!(matches!(out.actions[0], LoopAction::LimitBitrate(900)));
    let out = l.handle_message(&mut input, ClientMessage::SelectOutput(3), CLOCK, 0);
    assert!(matches!(out.actions[0], LoopAction::SwitchOutput(3)));
    let out = l.handle_message(&mut input, ClientMessage::RequestKeyframe, CLOCK, 0);
    assert_eq!(kinds(&out.actions), ["keyframe"]);
    let text = ClientMessage::ClipboardText("copied".to_string());
    let out = l.handle_message(&mut input, text, CLOCK, 0);
    assert!(matches!(&out.actions[0], LoopAction::SetClipboard(t) if t == "copied"));
    let file = ClientMessage::File(FtOutbound::FileCancel { transfer_id: 2 });
    let out = l.handle_message(&mut input, file, CLOCK, 0);
    assert!(matches!(
        out.actions[0],
        LoopAction::Transfer(FtInbound::CancelReceived { transfer_id: 2 })
    ));
    assert!(l.handle_message(&mut input, ClientMessage::Other, CLOCK, 0).actions.is_empty());
}

#[test]
fn every_file_message_reaches_the_transfers() {
    let mut input = able();
    let mut l = new_loop(PUNCHED);
    let mut sent = |m: FtOutbound| {
        match l.handle_message(&mut input, ClientMessage::File(m), CLOCK, 0).actions.remove(0) {
            LoopAction::Transfer(event) => event,
            _ => panic!("a file message"),
        }
    };
    assert!(matches!(
        sent(FtOutbound::FileOffer { transfer_id: 1, file_size: 2, file_name: "n".to_string() }),
        FtInbound::OfferReceived { transfer_id: 1, file_size: 2, file_name } if file_name == "n"
    ));
    assert!(matches!(
        sent(FtOutbound::FileAccept { transfer_id: 1, accepted: true }),
        FtInbound::AcceptReceived { transfer_id: 1, accepted: true }
    ));
    assert!(matches!(
        sent(FtOutbound::FileChunk { transfer_id: 1, chunk_index: 4, data: vec![9] }),
        FtInbound::ChunkReceived { transfer_id: 1, chunk_index: 4, data } if data == [9]
    ));
    assert!(matches!(
        sent(FtOutbound::FileComplete { transfer_id: 1, total_chunks: 5, sha256: [7; 32] }),
        FtInbound::CompleteReceived { transfer_id: 1, total_chunks: 5, sha256 }
            if sha256 == [7; 32]
    ));
    assert!(matches!(
        sent(FtOutbound::FileProgress { transfer_id: 1, chunks_received: 6 }),
        FtInbound::ProgressReceived { transfer_id: 1, chunks_received: 6 }
    ));
}

#[test]
fn pings_are_answered_on_direct_connections() {
    let mut input = able();
    let ping = || ClientMessage::ClockSyncPing { client_send_micros: 9 };
    let out = new_loop(Link::Direct).handle_message(&mut input, ping(), CLOCK, 0);
    assert!(matches!(
        out.actions[0],
        LoopAction::Send(ServerMessage::ClockSyncPong {
            client_send_micros: 9,
            server_recv_micros: 10,
            server_send_micros: 11,
            bitrate_kbps: 12,
        })
    ));
    let out = new_loop(PUNCHED).handle_message(&mut input, ping(), CLOCK, 0);
    assert!(out.actions.is_empty());
}

#[test]
fn control_changes_hands_on_request() {
    let mut input = able();
    let mut l = new_loop(Link::Direct);
    l.versions.shape = 4;
    let out = l.handle_message(&mut input, ClientMessage::AcquireControl, CLOCK, 0);
    assert!(matches!(
        out.actions[0],
        LoopAction::Send(ServerMessage::ControllerState(ControllerState::OwnedByYou))
    ));
    assert_eq!(l.versions.shape, 0, "the cursor is told anew");
    assert_eq!(l.controller, ControllerState::OwnedByYou);
    assert_eq!(input.inner.controller_id, Some(1));
    let out = l.handle_message(&mut input, ClientMessage::ReleaseControl, CLOCK, 0);
    assert!(matches!(
        out.actions[0],
        LoopAction::Send(ServerMessage::ControllerState(ControllerState::Available))
    ));
    assert_eq!(input.inner.controller_id, None);
}

#[test]
fn typed_text_goes_to_the_devices() {
    let mut input = able();
    input.register_tunnel_client(1, InputCredential::from_bytes([0; 16]), 0);
    let mut l = new_loop(PUNCHED);
    let text = ClientMessage::TextInput("hi".to_string());
    let out = l.handle_message(&mut input, text, CLOCK, 0);
    assert!(matches!(&out.actions[0], LoopAction::TypeText(t) if t == "hi"));
    assert!(!out.injections.is_empty());
    let nul = ClientMessage::TextInput("h\0i".to_string());
    let out = l.handle_message(&mut input, nul, CLOCK, 0);
    assert!(out.actions.is_empty() && out.injections.is_empty());
}

#[test]
fn changes_are_told_to_the_client() {
    let mut l = new_loop(Link::Direct);
    let config = stream(VideoCodec::Hevc, ChromaSampling::Yuv420);
    assert!(l.start_turn(ControllerState::Available, 0, None, 0).is_empty());
    let out = l.start_turn(ControllerState::OwnedByOther, 1, Some(config), 6);
    assert_eq!(out.len(), 3);
    assert!(matches!(out[0], ServerMessage::ControllerState(ControllerState::OwnedByOther)));
    assert!(matches!(out[1], ServerMessage::StreamConfig(c) if c == config));
    assert!(matches!(out[2], ServerMessage::SelectOutput(6)));
    assert!(l.start_turn(ControllerState::OwnedByOther, 1, Some(config), 6).is_empty());
}

#[test]
fn silent_clients_are_let_go() {
    let mut l = new_loop(Link::Direct);
    assert!(!l.ends_at_turn(false, true, u64::MAX));
    assert!(l.ends_at_turn(true, false, 0));
    assert!(!l.after_read(ReadOutcome::Nothing, DIRECT_INACTIVITY_NANOS));
    assert!(l.after_read(ReadOutcome::Nothing, DIRECT_INACTIVITY_NANOS + 1));
    assert!(!l.after_read(ReadOutcome::Data, DIRECT_INACTIVITY_NANOS + 1));
    assert!(!l.after_read(ReadOutcome::Nothing, DIRECT_INACTIVITY_NANOS + 2));
    assert!(l.after_read(ReadOutcome::Closed, 0));
    assert!(l.after_read(ReadOutcome::Failed, 0));
    let mut l = new_loop(PUNCHED);
    assert!(l.ends_at_turn(false, true, 0));
    assert!(!l.ends_at_turn(false, false, TUNNEL_INACTIVITY_NANOS));
    assert!(l.ends_at_turn(false, false, TUNNEL_INACTIVITY_NANOS + 1));
    assert!(!l.after_read(ReadOutcome::Nothing, u64::MAX));
    l.after_read(ReadOutcome::Data, 99);
    assert_eq!(l.last_inbound, 99);
}

#[test]
fn lossless_links_start_without_loss_recovery() {
    let r = initial_recovery(TCP_TUNNEL, 20, false, 1, 2);
    assert_eq!((r.fec_pct, r.audio_depth), (0, 0));
    let r = initial_recovery(PUNCHED, 20, true, 1, 2);
    assert_eq!((r.fec_pct, r.audio_depth), (20, 1));
    let r = initial_recovery(Link::Direct, 20, false, 1, 2);
    assert_eq!((r.fec_pct, r.audio_depth), (20, 2));
}
