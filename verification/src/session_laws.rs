//! What a client's session, its control loop and its transport do, told of their operations
//! from the outside.

use vstd::prelude::*;
use crate::control::{
    initial_recovery, ClockReadings, ControlLoop, LoopAction, LoopReaction, ReadOutcome,
    RecoverySettings,
};
use crate::file_transfer::{FtInbound, FtOutbound};
use crate::input::{ControllerState, Injection, InputRuntime};
use crate::media::{ChromaSampling, ClientDisplayInfo, VideoCodec};
use crate::messages::{inbound_file_message, ClientMessage, Said, ServerMessage, TransportFeedback};
use crate::net::MediaAddr;
use crate::pipeline::{OutputInfo, StreamConfig};
use crate::session::{
    phase_deadline, same_secret, Link, Phase, Session, SessionEvent, SessionReaction, SessionStep,
    StepView,
};
use crate::setup::{
    accept_connection, plan_setup, startup_bundle, AcceptStep, RunningPipeline, SetupPlan,
    StreamOffer, Viewers,
};
use crate::transport::{
    audio_interleave_enabled, continue_burst, enabled_by_default, max_queue_latency_us,
    observe_send_backlog, AppliedSettings, Backlog, MediaRoute, SenderSettings, SettingsChange,
    Transport, TurnStart, UnitVerdict, VideoGate, VideoUnit,
};
use crate::auth::constant_time_eq;
use crate::linux_uring::io_uring_requested;
use crate::devices::uinput_absolute_enabled;
use crate::config::{client_display_fps_hint, tunnel_fps_hint};

verus! {

/// That something is among the steps of a session.
pub open spec fn takes(steps: Seq<SessionStep>, step: StepView) -> bool {
    exists|i: int| 0 <= i < steps.len() && (#[trigger] steps[i])@ == step
}

/// That a message is among those that carry a token.
pub open spec fn carries(message: ClientMessage, token: Seq<char>) -> bool {
    message matches ClientMessage::Authenticate(t) && t@ == token
}

/// The first token that a client offers decides: with the server's own the session goes on, and
/// the client is told so first; with any other it is refused and the session is over. On a tunnel
/// only the first message of a packet counts.
pub proof fn the_first_token_decides(
    s: &mut Session,
    ms: Vec<ClientMessage>,
    token: &str,
    disconnect: bool,
    out: SessionReaction,
    k: int,
)
    requires
        call_ensures(Session::on_event, (s, SessionEvent::Received(ms), token, disconnect), out),
        old(s).phase == Phase::Authenticating,
        0 <= k < ms@.len(),
        ms@[k] is Authenticate,
        forall|j: int| 0 <= j < k ==> !(#[trigger] ms@[j] is Authenticate),
        old(s).link is Tunnel ==> k == 0,
    ensures
        final(s).phase == Phase::AwaitingDisplay <==> carries(ms@[k], token@),
        final(s).phase == Phase::Closed <==> !carries(ms@[k], token@),
        out.steps@.len() > 0,
        out.steps@[0]@ == StepView::Send(
            Said::Message(ServerMessage::AuthResult(carries(ms@[k], token@))),
        ),
        takes(out.steps@, StepView::Register) <==> old(s).link is Direct && carries(
            ms@[k],
            token@,
        ),
        !carries(ms@[k], token@) && old(s).link is Direct ==> takes(
            out.steps@,
            StepView::Send(Said::Error("Authentication failed."@)),
        ),
        final(s).link == old(s).link,
{
    lemma_first_token(ms@, 0, k);
    let views = crate::session::step_views(out.steps@);
    assert(views.len() == out.steps@.len());
    assert(out.steps@[0]@ == views[0]);
    if out.steps@.len() > 1 {
        assert(out.steps@[1]@ == views[1]);
    }
}

proof fn lemma_first_token(ms: Seq<ClientMessage>, from: int, k: int)
    requires
        0 <= from <= k < ms.len(),
        ms[k] is Authenticate,
        forall|j: int| from <= j < k ==> !(#[trigger] ms[j] is Authenticate),
    ensures
        crate::session::offered_token(ms, from) matches Some(t) && carries(ms[k], t),
    decreases k - from,
{
    if from < k {
        lemma_first_token(ms, from + 1, k);
    }
}

/// A client that offers no token in time gets nothing: the session is over, and nothing of the
/// server is touched.
pub proof fn a_session_without_a_token_ends(
    s: &mut Session,
    token: &str,
    disconnect: bool,
    out: SessionReaction,
    i: int,
)
    requires
        call_ensures(Session::on_event, (s, SessionEvent::DeadlinePassed, token, disconnect), out),
        old(s).phase == Phase::Authenticating,
        0 <= i < out.steps@.len(),
    ensures
        final(s).phase == Phase::Closed,
        out.steps@[i]@ == StepView::Send(Said::Error("Authentication failed."@)),
{
    let views = crate::session::step_views(out.steps@);
    assert(views.len() == out.steps@.len());
    assert(views[i] == out.steps@[i]@);
}

/// A direct client that describes its display gets the stream set up for it, with the display
/// that it described last; in time it gets it without.
pub proof fn a_display_starts_the_set_up(
    s: &mut Session,
    event: SessionEvent,
    token: &str,
    out: SessionReaction,
    display: Option<ClientDisplayInfo>,
)
    requires
        call_ensures(Session::on_event, (s, event, token, false), out),
        old(s).phase == Phase::AwaitingDisplay,
        old(s).link is Direct,
        match event {
            SessionEvent::Received(ms) => ms@.len() > 0 && (
            ms@.last() matches ClientMessage::DisplayInfo(d) && display == Some(d)),
            SessionEvent::DeadlinePassed => display is None,
            _ => false,
        },
    ensures
        final(s).phase == Phase::SettingUp,
        final(s).display == display,
        takes(out.steps@, StepView::SetUpPipeline),
        out.steps@.len() == 1,
{
    let views = crate::session::step_views(out.steps@);
    assert(views.len() == out.steps@.len());
    assert(out.steps@[0]@ == views[0]);
}

/// A client behind a tunnel gets it with the display that its packet starts with, and is put on
/// the list of clients with it; without one it is let go in time.
pub proof fn a_tunnel_needs_a_display(
    s: &mut Session,
    event: SessionEvent,
    token: &str,
    disconnect: bool,
    out: SessionReaction,
)
    requires
        call_ensures(Session::on_event, (s, event, token, disconnect), out),
        old(s).phase == Phase::AwaitingDisplay,
        old(s).link is Tunnel,
    ensures
        event is DeadlinePassed ==> final(s).phase == Phase::Closed,
        event matches SessionEvent::Received(ms) ==> {
            &&& (ms@.len() > 0 && ms@[0] is DisplayInfo) <==> final(s).phase == Phase::SettingUp
            &&& ms@.len() > 0 && (ms@[0] matches ClientMessage::DisplayInfo(d) && final(s).display
                == Some(d) && takes(out.steps@, StepView::Register) && takes(
                out.steps@,
                StepView::SetUpPipeline,
            )) || final(s).phase == Phase::AwaitingDisplay
        },
{
    let views = crate::session::step_views(out.steps@);
    assert(views.len() == out.steps@.len());
    if out.steps@.len() > 1 {
        assert(out.steps@[0]@ == views[0]);
        assert(out.steps@[1]@ == views[1]);
    }
}

/// A stream that is set up is opened for the client; one that could not be is told with its
/// reason, and the session is over.
pub proof fn set_ups_are_answered(
    s: &mut Session,
    result: Result<(), String>,
    token: &str,
    out: SessionReaction,
)
    requires
        call_ensures(Session::on_event, (s, SessionEvent::SetUp(result), token, false), out),
        old(s).phase == Phase::SettingUp,
    ensures
        result is Ok ==> final(s).phase == Phase::AwaitingReady && takes(
            out.steps@,
            StepView::OpenStream,
        ) && final(s).subscribed && final(s).input_registered,
        result matches Err(e) ==> final(s).phase == Phase::Closed && takes(
            out.steps@,
            StepView::Send(Said::Error(e@)),
        ) && !takes(out.steps@, StepView::OpenStream),
        final(s).display == old(s).display,
{
    let views = crate::session::step_views(out.steps@);
    assert(views.len() == out.steps@.len());
    assert(views.len() > 0);
    assert(out.steps@[0]@ == views[0]);
    if let Err(e) = result {
        assert forall|i: int| 0 <= i < out.steps@.len() implies (#[trigger] out.steps@[i])@
            != StepView::OpenStream by {
            assert(out.steps@[i]@ == views[i]);
        }
    }
}

/// Media starts when the client says that it is ready, and not before: then the transport starts
/// and the client is told. What a direct client sent behind that word is left for the control
/// loop.
pub proof fn readiness_starts_the_stream(
    s: &mut Session,
    ms: Vec<ClientMessage>,
    token: &str,
    out: SessionReaction,
    k: int,
)
    requires
        call_ensures(Session::on_event, (s, SessionEvent::Received(ms), token, false), out),
        old(s).phase == Phase::AwaitingReady,
        0 <= k <= ms@.len(),
        forall|j: int| 0 <= j < k ==> !(#[trigger] ms@[j] is ReadyForMedia),
        k < ms@.len() ==> ms@[k] is ReadyForMedia,
    ensures
        k < ms@.len() ==> {
            &&& final(s).phase == Phase::Streaming
            &&& takes(out.steps@, StepView::StartTransport)
            &&& takes(out.steps@, StepView::Send(Said::Message(ServerMessage::StreamStarted)))
            &&& old(s).link is Direct ==> out.taken == k + 1
        },
        k == ms@.len() ==> *final(s) == *old(s) && out.steps@.len() == 0 && out.taken == k,
{
    lemma_first_ready(ms@, 0, k);
    let views = crate::session::step_views(out.steps@);
    assert(views.len() == out.steps@.len());
    if k < ms@.len() {
        assert(out.steps@[0]@ == views[0]);
        assert(out.steps@[1]@ == views[1]);
    }
}

proof fn lemma_first_ready(ms: Seq<ClientMessage>, from: int, k: int)
    requires
        0 <= from <= k <= ms.len(),
        k < ms.len() ==> ms[k] is ReadyForMedia,
        forall|j: int| from <= j < k ==> !(#[trigger] ms[j] is ReadyForMedia),
    ensures
        crate::session::ready_at(ms, from) == if k < ms.len() {
            Some(k)
        } else {
            None
        },
    decreases k - from,
{
    if from < k {
        lemma_first_ready(ms, from + 1, k);
    }
}

/// A phase takes as long as it may and no longer: a client that lets its time pass while it is
/// to authenticate or to get ready is let go, and so is any client whose stream has ended.
pub proof fn silence_ends_a_session(
    s: &mut Session,
    event: SessionEvent,
    token: &str,
    disconnect: bool,
    out: SessionReaction,
)
    requires
        call_ensures(Session::on_event, (s, event, token, disconnect), out),
    ensures
        event is DeadlinePassed && (old(s).phase == Phase::Authenticating || old(s).phase
            == Phase::AwaitingReady) ==> final(s).phase == Phase::Closed,
        event is StreamEnded && old(s).phase == Phase::Streaming ==> final(s).phase
            == Phase::Closed,
        old(s).phase == Phase::Closed ==> *final(s) == *old(s) && out.steps@.len() == 0,
        old(s).phase == Phase::Streaming && event !is StreamEnded ==> *final(s) == *old(s)
            && out.steps@.len() == 0,
{
    assert(crate::session::step_views(out.steps@).len() == out.steps@.len());
}

/// A client that asks for control has it, where there are devices, and is told so; it is told
/// so from the very state that holds afterwards.
pub proof fn asking_gives_control(
    l: &mut ControlLoop,
    input: &mut InputRuntime,
    clock: ClockReadings,
    now: u64,
    out: LoopReaction,
)
    requires
        call_ensures(
            ControlLoop::handle_message,
            (l, input, ClientMessage::AcquireControl, clock, now),
            out,
        ),
    ensures
        old(input)@.inner.available() ==> final(input)@.inner.controller_id == Some(
            old(l).client_id,
        ) && final(l).controller == ControllerState::OwnedByYou,
        !old(input)@.inner.available() ==> final(input)@ == old(input)@ && final(l).controller
            == ControllerState::Unavailable && out.injections@.len() == 0,
        out.actions@.len() == 1,
        out.actions@[0] == LoopAction::Send(ServerMessage::ControllerState(final(l).controller)),
        final(l).versions.shape == 0 && final(l).versions.state == 0,
{
}

/// A client that gives control up no longer has it; whoever else has it keeps it.
pub proof fn giving_up_frees_control(
    l: &mut ControlLoop,
    input: &mut InputRuntime,
    clock: ClockReadings,
    now: u64,
    out: LoopReaction,
)
    requires
        call_ensures(
            ControlLoop::handle_message,
            (l, input, ClientMessage::ReleaseControl, clock, now),
            out,
        ),
    ensures
        final(input)@.inner.controller_id != Some(old(l).client_id),
        old(input)@.inner.controller_id == Some(old(l).client_id) ==> final(input)@.inner.controller_id is None,
        old(input)@.inner.controller_id != Some(old(l).client_id) ==> final(input)@ == old(input)@
            && out.injections@.len() == 0,
        final(l).controller != ControllerState::OwnedByYou,
        out.actions@.len() == 1,
        out.actions@[0] == LoopAction::Send(ServerMessage::ControllerState(final(l).controller)),
{
}

/// What a client asks for is what is done, with the very values that it sent, and nothing else.
pub proof fn requests_are_carried_out(
    l: &mut ControlLoop,
    input: &mut InputRuntime,
    message: ClientMessage,
    clock: ClockReadings,
    now: u64,
    out: LoopReaction,
)
    requires
        call_ensures(ControlLoop::handle_message, (l, input, message, clock, now), out),
    ensures
        message matches ClientMessage::SetAudio(on) ==> final(l).audio_enabled == on
            && out.actions@.len() == 0,
        message !is SetAudio ==> final(l).audio_enabled == old(l).audio_enabled,
        message matches ClientMessage::BitratePreference(kbps) ==> out.actions@ == seq![
            LoopAction::LimitBitrate(kbps),
        ],
        message is RequestKeyframe ==> out.actions@ == seq![LoopAction::RequestKeyframe],
        message matches ClientMessage::SelectOutput(id) ==> out.actions@ == seq![
            LoopAction::SwitchOutput(id),
        ],
        message matches ClientMessage::ClipboardText(text) ==> out.actions@ == seq![
            LoopAction::SetClipboard(text),
        ],
        message matches ClientMessage::TextInput(text) ==> (forall|i: int|
            0 <= i < out.actions@.len() ==> #[trigger] out.actions@[i] == LoopAction::TypeText(
                text,
            )) && out.actions@.len() <= 1,
        message is File ==> out.actions@.len() == 1 && out.actions@[0] is Transfer,
        message is Authenticate || message is DisplayInfo || message is ReadyForMedia
            || message is Other ==> out.actions@.len() == 0 && *final(l) == *old(l),
        message !is AcquireControl && message !is ReleaseControl && message !is TextInput
            ==> final(input)@ == old(input)@ && out.injections@.len() == 0,
        final(l).client_id == old(l).client_id,
        final(l).link == old(l).link,
        final(l).generation == old(l).generation,
{
}

/// A clock comparison gives the client its own time back, with the times at which it came in and
/// goes out, in that order; only on a direct link.
pub proof fn clocks_are_compared_as_read(
    l: &mut ControlLoop,
    input: &mut InputRuntime,
    sent: u64,
    clock: ClockReadings,
    now: u64,
    out: LoopReaction,
)
    requires
        call_ensures(
            ControlLoop::handle_message,
            (l, input, ClientMessage::ClockSyncPing { client_send_micros: sent }, clock, now),
            out,
        ),
    ensures
        old(l).link is Tunnel ==> out.actions@.len() == 0,
        old(l).link is Direct ==> out.actions@.len() == 1 && (
        out.actions@[0] matches LoopAction::Send(
            ServerMessage::ClockSyncPong {
                client_send_micros,
                server_recv_micros,
                server_send_micros,
                bitrate_kbps,
            },
        ) && client_send_micros == sent && server_recv_micros == clock.recv_micros
            && server_send_micros == clock.send_micros && bitrate_kbps == clock.bitrate_kbps),
{
}

/// Feedback always reaches the bitrate's control. Losses that leave the picture broken make a
/// keyframe be asked for, unless one was a quarter of a second ago; without losses none is. The
/// loss recovery is adapted on every link that can lose anything.
pub proof fn losses_are_mended(
    l: &mut ControlLoop,
    input: &mut InputRuntime,
    fb: TransportFeedback,
    clock: ClockReadings,
    now: u64,
    out: LoopReaction,
)
    requires
        call_ensures(
            ControlLoop::handle_message,
            (l, input, ClientMessage::Feedback(fb), clock, now),
            out,
        ),
    ensures
        out.actions@.contains(LoopAction::AdaptBitrate),
        fb.dropped_frames > 0 && (old(l).last_recovery_keyframe matches Some(at) ==> now - at
            >= 250_000_000) ==> out.actions@.contains(LoopAction::RequestKeyframe) && final(l).last_recovery_keyframe == Some(now),
        fb.lost_packets == 0 && fb.dropped_frames == 0 ==> !out.actions@.contains(
            LoopAction::RequestKeyframe,
        ),
        old(l).last_recovery_keyframe matches Some(at) && now - at < 250_000_000
            ==> !out.actions@.contains(LoopAction::RequestKeyframe) && final(l).last_recovery_keyframe == old(l).last_recovery_keyframe,
        fb.lost_packets > 0 && fb.dropped_frames == 0 && old(l).last_recovery_keyframe is None
            ==> (out.actions@.contains(LoopAction::RequestKeyframe) <==> old(l).link is Tunnel
            || fb.completed_frames == 0),
        out.actions@.contains(LoopAction::AdaptErrorCorrection) <==> old(l).link != (
        Link::Tunnel { reliable: true }),
        out.actions@.contains(LoopAction::AdaptDuplicates) <==> old(l).link != (
        Link::Tunnel { reliable: true }),
        out.actions@.contains(LoopAction::AdaptAudioRedundancy) <==> old(l).link != (
        Link::Tunnel { reliable: true }) && old(l).adaptive_audio,
        final(l).audio_enabled == old(l).audio_enabled,
{
    let a = out.actions@;
    let n = a.len();
    if old(l).link is Direct {
        assert(a[n - 1] == LoopAction::AdaptBitrate);
        if a[0] == LoopAction::RequestKeyframe {
            assert(a[1] == LoopAction::AdaptErrorCorrection);
            assert(a[2] == if old(l).adaptive_audio {
                LoopAction::AdaptAudioRedundancy
            } else {
                LoopAction::AdaptDuplicates
            });
            if old(l).adaptive_audio {
                assert(a[3] == LoopAction::AdaptDuplicates);
            }
        } else {
            assert(a[0] == LoopAction::AdaptErrorCorrection);
            assert(a[1] == if old(l).adaptive_audio {
                LoopAction::AdaptAudioRedundancy
            } else {
                LoopAction::AdaptDuplicates
            });
            if old(l).adaptive_audio {
                assert(a[2] == LoopAction::AdaptDuplicates);
            }
        }
    } else if old(l).link == (Link::Tunnel { reliable: true }) {
        assert(a[0] == LoopAction::AdaptBitrate);
        if n > 1 {
            assert(a[1] == LoopAction::RequestKeyframe);
        }
    } else {
        assert(a[0] == LoopAction::AdaptErrorCorrection);
        if old(l).adaptive_audio {
            assert(a[1] == LoopAction::AdaptAudioRedundancy);
            assert(a[2] == LoopAction::AdaptDuplicates);
            assert(a[3] == LoopAction::AdaptBitrate);
            if n > 4 {
                assert(a[4] == LoopAction::RequestKeyframe);
            }
        } else {
            assert(a[1] == LoopAction::AdaptDuplicates);
            assert(a[2] == LoopAction::AdaptBitrate);
            if n > 3 {
                assert(a[3] == LoopAction::RequestKeyframe);
            }
        }
    }
}

/// A client is told who controls the input and what the stream is, each exactly when that is
/// not what it was told last, and with what holds now.
pub proof fn clients_are_told_of_changes(
    l: &mut ControlLoop,
    controller: ControllerState,
    generation: u64,
    updated: Option<StreamConfig>,
    selected: u32,
    out: Vec<ServerMessage>,
)
    requires
        call_ensures(
            ControlLoop::start_turn,
            (l, controller, generation, updated, selected),
            out,
        ),
    ensures
        final(l).controller == controller,
        final(l).generation == generation,
        out@.contains(ServerMessage::ControllerState(controller)) <==> controller != old(l).controller,
        updated matches Some(config) ==> (out@.contains(ServerMessage::StreamConfig(config))
            <==> generation != old(l).generation) && (out@.contains(
            ServerMessage::SelectOutput(selected),
        ) <==> generation != old(l).generation),
        forall|i: int|
            0 <= i < out@.len() ==> match #[trigger] out@[i] {
                ServerMessage::ControllerState(c) => c == controller,
                ServerMessage::StreamConfig(c) => updated == Some(c),
                ServerMessage::SelectOutput(id) => id == selected,
                _ => false,
            },
{
    let o = out@;
    if controller != old(l).controller {
        assert(o[0] == ServerMessage::ControllerState(controller));
    }
    if let Some(config) = updated {
        if generation != old(l).generation {
            assert(o[o.len() - 2] == ServerMessage::StreamConfig(config));
            assert(o[o.len() - 1] == ServerMessage::SelectOutput(selected));
        }
    }
}

/// A client that says nothing is gone after fifteen seconds on a direct link and after five on a
/// tunnel, and every word of it starts that time anew. A closed or broken direct link ends at
/// once.
pub proof fn silent_clients_are_let_go(l: &mut ControlLoop, read: ReadOutcome, now: u64, end: bool)
    requires
        call_ensures(ControlLoop::after_read, (l, read, now), end),
    ensures
        read is Data ==> final(l).last_inbound == now && !end,
        read !is Data ==> *final(l) == *old(l),
        old(l).link is Direct && (read is Closed || read is Failed) ==> end,
        old(l).link is Direct && read is Nothing ==> (end <==> now - old(l).last_inbound
            > 15_000_000_000),
        old(l).link is Tunnel ==> !end,
{
}

/// A loop ends when the client is to be let go; on a tunnel also with the server, and where
/// nothing has come for five seconds.
pub proof fn loops_end_when_asked(l: ControlLoop, disconnect: bool, shutdown: bool, now: u64, end: bool)
    requires
        call_ensures(ControlLoop::ends_at_turn, (&l, disconnect, shutdown, now), end),
    ensures
        disconnect ==> end,
        l.link is Tunnel ==> (end <==> disconnect || shutdown || now - l.last_inbound
            > 5_000_000_000),
        l.link is Direct ==> (end <==> disconnect),
{
}

/// A link that loses nothing starts without loss recovery, any other with the one that is
/// configured.
pub proof fn recovery_starts_as_configured(
    link: Link,
    fec: u16,
    adaptive: bool,
    adaptive_depth: u8,
    fixed_depth: u8,
    out: RecoverySettings,
)
    requires
        call_ensures(initial_recovery, (link, fec, adaptive, adaptive_depth, fixed_depth), out),
    ensures
        link == (Link::Tunnel { reliable: true }) ==> out.fec_pct == 0 && out.audio_depth == 0,
        link != (Link::Tunnel { reliable: true }) ==> out.fec_pct == fec && out.audio_depth == (
        if adaptive {
            adaptive_depth
        } else {
            fixed_depth
        }),
{
}

/// A file message keeps its transfer's number and all that it says.
pub proof fn file_messages_keep_their_content(message: FtOutbound, out: FtInbound)
    requires
        call_ensures(inbound_file_message, (message,), out),
    ensures
        message matches FtOutbound::FileOffer { transfer_id, file_size, file_name } ==> (
        out matches FtInbound::OfferReceived {
            transfer_id: id,
            file_size: size,
            file_name: name,
        } && id == transfer_id && size == file_size && name == file_name),
        message matches FtOutbound::FileAccept { transfer_id, accepted } ==> (
        out matches FtInbound::AcceptReceived { transfer_id: id, accepted: yes } && id
            == transfer_id && yes == accepted),
        message matches FtOutbound::FileChunk { transfer_id, chunk_index, data } ==> (
        out matches FtInbound::ChunkReceived { transfer_id: id, chunk_index: at, data: bytes }
            && id == transfer_id && at == chunk_index && bytes == data),
        message matches FtOutbound::FileComplete { transfer_id, total_chunks, sha256 } ==> (
        out matches FtInbound::CompleteReceived {
            transfer_id: id,
            total_chunks: chunks,
            sha256: digest,
        } && id == transfer_id && chunks == total_chunks && digest == sha256),
        message matches FtOutbound::FileCancel { transfer_id } ==> (
        out matches FtInbound::CancelReceived { transfer_id: id } && id == transfer_id),
        message matches FtOutbound::FileProgress { transfer_id, chunks_received } ==> (
        out matches FtInbound::ProgressReceived { transfer_id: id, chunks_received: n } && id
            == transfer_id && n == chunks_received),
{
}

/// A client starts the stream where none runs, with what it said of its own display; it joins
/// one that runs exactly if it said that it decodes its codec, and with full colour its codec with
/// full colour; else it is refused.
pub proof fn clients_get_streams_they_decode(
    link: Link,
    running: Option<RunningPipeline>,
    info: ClientDisplayInfo,
    plan: SetupPlan,
)
    requires
        call_ensures(plan_setup, (link, running, Some(info)), plan),
    ensures
        plan is Start <==> (running matches Some(p) ==> p.finished),
        plan matches SetupPlan::Start { stop_dead, request } ==> {
            &&& stop_dead <==> running is Some
            &&& request.supported == info.supported_video_codecs
            &&& request.hardware == info.hardware_video_codecs
            &&& request.supported_yuv444 == info.supported_yuv444_video_codecs
            &&& request.hardware_yuv444 == info.hardware_yuv444_video_codecs
            &&& request.hdr_display == info.hdr_display
            &&& info.max_refresh_millihz == 0 ==> request.fps is None
        },
        running matches Some(p) ==> !p.finished ==> {
            let decodes = match p.stream.codec {
                VideoCodec::H264 => info.supported_video_codecs.h264,
                VideoCodec::Hevc => info.supported_video_codecs.hevc,
                VideoCodec::Av1 => info.supported_video_codecs.av1,
            };
            let decodes_full = match p.stream.codec {
                VideoCodec::H264 => info.supported_yuv444_video_codecs.h264,
                VideoCodec::Hevc => info.supported_yuv444_video_codecs.hevc,
                VideoCodec::Av1 => info.supported_yuv444_video_codecs.av1,
            };
            &&& plan is Join <==> decodes && (p.stream.chroma == ChromaSampling::Yuv444
                ==> decodes_full)
            &&& plan is Refuse <==> !(plan is Join)
        },
{
    assert(plan is Start <==> plan@ is Start);
    assert(plan is Join <==> plan@ is Join);
    assert(plan is Refuse <==> plan@ is Refuse);
    if let SetupPlan::Start { stop_dead, request } = plan {
        assert(plan@ == (crate::setup::SetupView::Start { stop_dead, request }));
    }
}

/// A client that says nothing of its display is taken to decode plain H.264 and nothing else.
pub proof fn unknown_clients_get_h264(
    link: Link,
    running: Option<RunningPipeline>,
    plan: SetupPlan,
)
    requires
        call_ensures(plan_setup, (link, running, None), plan),
    ensures
        plan matches SetupPlan::Start { stop_dead, request } ==> request.supported.h264
            && !request.supported.hevc && !request.supported.av1 && !request.hdr_display
            && request.fps is None && !request.supported_yuv444.h264,
        running matches Some(p) ==> !p.finished ==> (plan is Join <==> p.stream.codec
            == VideoCodec::H264 && p.stream.chroma != ChromaSampling::Yuv444),
{
    assert(plan is Start <==> plan@ is Start);
    assert(plan is Join <==> plan@ is Join);
    if let SetupPlan::Start { stop_dead, request } = plan {
        assert(plan@ == (crate::setup::SetupView::Start { stop_dead, request }));
    }
}

/// A client learns its own number and credential, what it may do with the input, who controls
/// it, and the stream as it is now; the outputs only where there is a choice.
pub proof fn clients_are_welcomed(
    offer: StreamOffer,
    outputs: Vec<OutputInfo>,
    out: Vec<ServerMessage>,
)
    requires
        call_ensures(startup_bundle, (offer, outputs), out),
    ensures
        out@.len() == if outputs@.len() > 1 {
            7int
        } else {
            5
        },
        out@[0] == ServerMessage::StreamConfig(
            if offer.updated is Some {
                offer.updated->0
            } else {
                offer.stream
            },
        ),
        out@[1] == ServerMessage::SessionDebugInfo(offer.debug),
        out@[2] matches ServerMessage::InputSession { client_id, credential } && client_id
            == offer.client_id && credential == offer.credential,
        out@[3] == ServerMessage::InputCapabilities(offer.capabilities),
        out@[4] == ServerMessage::ControllerState(offer.controller),
        outputs@.len() > 1 ==> out@[5] == ServerMessage::AvailableOutputs(outputs) && out@[6]
            == ServerMessage::SelectOutput(offer.selected_output),
{
    let said = crate::messages::all_said(out@);
    assert(said.len() == out@.len());
    assert forall|i: int| 0 <= i < out@.len() implies said[i] == #[trigger] out@[i]@ by {}
    assert(said[0] == out@[0]@);
    assert(said[1] == out@[1]@);
    assert(said[2] == out@[2]@);
    assert(said[3] == out@[3]@);
    assert(said[4] == out@[4]@);
    if outputs@.len() > 1 {
        assert(said[5] == out@[5]@);
        assert(said[6] == out@[6]@);
    }
}

/// The pipeline runs for exactly as long as somebody watches: it is stopped with the last viewer
/// and not before, and taking one viewer out leaves the others in.
pub proof fn the_last_viewer_stops_the_pipeline(v: &mut Viewers, id: u64, stop: bool)
    requires
        call_ensures(Viewers::unsubscribe_and_maybe_stop_pipeline, (v, id), stop),
        old(v).wf(),
    ensures
        stop ==> final(v).ids@.len() == 0 && !final(v).running,
        old(v).running && !stop ==> final(v).ids@.len() > 0 && final(v).running,
        !final(v).ids@.contains(id),
        forall|other: u64|
            other != id ==> (#[trigger] final(v).ids@.contains(other) <==> old(v).ids@.contains(
                other,
            )),
{
    if stop {
        if final(v).ids@.len() > 0 {
            let x = final(v).ids@[0];
            assert(final(v).ids@.contains(x));
            let k = choose|k: int| 0 <= k < old(v).ids@.len() && old(v).ids@[k] == x;
            assert(old(v).ids@[k] == id);
        }
    } else if old(v).running {
        let k = choose|k: int| 0 <= k < old(v).ids@.len() && #[trigger] old(v).ids@[k] != id;
        assert(old(v).ids@.contains(old(v).ids@[k]));
        assert(final(v).ids@.contains(old(v).ids@[k]));
    }
}

/// Those who come are among the viewers from then on.
pub proof fn viewers_are_counted(v: &mut Viewers, id: u64, other: u64)
    requires
        call_ensures(Viewers::joined, (v, id), ()),
    ensures
        final(v).running,
        final(v).ids@.len() == old(v).ids@.len() + 1,
        final(v).ids@.contains(id),
        old(v).ids@.contains(other) ==> final(v).ids@.contains(other),
{
    let after = final(v).ids@;
    assert(after[after.len() - 1] == id);
    if old(v).ids@.contains(other) {
        let k = old(v).ids@.index_of(other);
        assert(after[k] == other);
    }
}

/// New connections are served unless the server takes none.
pub proof fn blocked_servers_refuse(allow: bool, step: AcceptStep)
    requires
        call_ensures(accept_connection, (allow,), step),
    ensures
        step is Serve <==> allow,
{
}

/// A unit is sent if decoding can start at it. Any other is sent exactly if the client can
/// decode it and it is not too late: nothing before it is missing, nothing is being waited for, and
/// it has waited for less than the ceiling.
pub proof fn decodable_units_are_sent(
    g: &mut VideoGate,
    unit: VideoUnit,
    now_us: u64,
    now: u64,
    verdict: UnitVerdict,
)
    requires
        call_ensures(VideoGate::judge, (g, unit, now_us, now), verdict),
    ensures
        unit.is_recovery ==> verdict.send,
        !unit.is_recovery ==> (verdict.send <==> {
            &&& !old(g).waiting_for_recovery
            &&& old(g).last_source_seq matches Some(last) ==> unit.source_seq <= last + 1
            &&& old(g).hard_ceiling_us matches Some(c) ==> (now_us - unit.capture_micros < c && (c
                > 0))
        }),
        final(g).waiting_for_recovery <==> !verdict.send,
        final(g).last_source_seq == Some(unit.source_seq),
        final(g).hard_ceiling_us == old(g).hard_ceiling_us,
{
}

/// A keyframe is asked for when a unit is held back or missing, unless one was asked for less
/// than a quarter of a second ago; the time of the request is kept.
pub proof fn missing_units_ask_for_a_keyframe(
    g: &mut VideoGate,
    unit: VideoUnit,
    now_us: u64,
    now: u64,
    verdict: UnitVerdict,
)
    requires
        call_ensures(VideoGate::judge, (g, unit, now_us, now), verdict),
    ensures
        verdict.request_keyframe <==> (!verdict.send || (old(g).last_source_seq matches Some(last)
            && unit.source_seq > last + 1)) && (old(g).last_keyframe_request matches Some(at)
            ==> now - at >= 250_000_000),
        verdict.request_keyframe ==> final(g).last_keyframe_request == Some(now),
        !verdict.request_keyframe ==> final(g).last_keyframe_request == old(g).last_keyframe_request,
{
}

/// The transport passes a unit's verdict on, and what it sends keeps the path alive.
pub proof fn sending_keeps_the_path_alive(
    t: &mut Transport,
    g: &mut VideoGate,
    unit: VideoUnit,
    now_us: u64,
    now: u64,
    verdict: UnitVerdict,
    same: UnitVerdict,
)
    requires
        call_ensures(Transport::handle_unit, (t, unit, now_us, now), verdict),
        call_ensures(VideoGate::judge, (g, unit, now_us, now), same),
        *old(g) == old(t).gate,
    ensures
        verdict == same,
        final(t).gate == *final(g),
        final(t).last_keepalive == if verdict.send {
            now
        } else {
            old(t).last_keepalive
        },
        final(t).applied == old(t).applied,
{
}

/// A path that has been quiet for half a second carries a keepalive, and none else; the sender is
/// given each wanted setting that it does not have, and no other.
pub proof fn quiet_paths_are_kept_alive(
    t: &mut Transport,
    wanted: SenderSettings,
    now: u64,
    start: TurnStart,
)
    requires
        call_ensures(Transport::start_turn, (t, wanted, now), start),
    ensures
        start.send_keepalive <==> now - old(t).last_keepalive >= 500_000_000,
        final(t).last_keepalive == if start.send_keepalive {
            now
        } else {
            old(t).last_keepalive
        },
        start.change.fec_pct matches Some(pct) ==> pct == wanted.fec_pct,
        start.change.fec_pct is None <==> wanted.fec_pct == old(t).applied.fec_pct,
        start.change.audio_depth matches Some(depth) ==> depth == wanted.audio_depth,
        start.change.audio_depth is None <==> wanted.audio_depth == old(t).applied.audio_depth,
        start.change.dup_first matches Some(on) ==> on == wanted.dup_first,
        start.change.dup_first is None <==> old(t).applied.dup_first == Some(wanted.dup_first),
        final(t).applied.fec_pct == wanted.fec_pct,
        final(t).applied.audio_depth == wanted.audio_depth,
        final(t).applied.dup_first == Some(wanted.dup_first),
        final(t).gate == old(t).gate,
{
}

/// Settings that were taken up are not handed over again.
pub proof fn settings_are_applied_once(
    a: &mut AppliedSettings,
    b: &mut AppliedSettings,
    wanted: SenderSettings,
    first: SettingsChange,
    second: SettingsChange,
)
    requires
        call_ensures(AppliedSettings::update, (a, wanted), first),
        call_ensures(AppliedSettings::update, (b, wanted), second),
        *old(b) == *final(a),
    ensures
        second.fec_pct is None && second.audio_depth is None && second.dup_first is None,
        first.fec_pct is None <==> old(a).fec_pct == wanted.fec_pct,
        first.fec_pct matches Some(pct) ==> pct == wanted.fec_pct,
        first.audio_depth matches Some(depth) ==> depth == wanted.audio_depth,
        first.dup_first matches Some(on) ==> on == wanted.dup_first,
{
}

/// The average of the waiting times starts with the first and moves an eighth of the way to each
/// further one; a unit has waited too long from the ceiling on.
pub proof fn waiting_times_are_averaged(
    captured: u64,
    now_us: u64,
    b: &mut Backlog,
    ceiling: Option<u32>,
    breached: bool,
)
    requires
        call_ensures(observe_send_backlog, (captured, now_us, b, ceiling), breached),
        captured <= now_us <= captured + u32::MAX,
    ensures
        final(b).seen,
        !old(b).seen ==> final(b).ewma_us == now_us - captured,
        old(b).seen ==> 8 * final(b).ewma_us <= 7 * old(b).ewma_us + (now_us - captured) < 8 * (
        final(b).ewma_us + 1),
        breached <==> (ceiling matches Some(c) && now_us - captured >= c),
{
}

/// Media follows the client to where it is, and picks it up with a keyframe; where the sender
/// could not be pointed there nothing changes.
pub proof fn media_follows_the_client(
    r: &mut MediaRoute,
    wanted: MediaAddr,
    to: Option<MediaAddr>,
    ok: bool,
    keyframe: bool,
)
    requires
        call_ensures(MediaRoute::wants_repoint, (old(r), wanted), to),
        call_ensures(MediaRoute::repointed, (r, wanted, ok), keyframe),
    ensures
        to is Some <==> old(r).current != wanted,
        to matches Some(addr) ==> addr == wanted,
        ok ==> final(r).current == wanted && keyframe,
        !ok ==> final(r).current == old(r).current && !keyframe,
{
}

/// At most sixteen units go out in one turn.
pub proof fn bursts_are_bounded(burst: usize, more: bool)
    requires
        call_ensures(continue_burst, (burst,), more),
    ensures
        more <==> burst < 16,
{
}

/// An option that is on by default is off for the four words that say so, and for nothing else.
pub proof fn options_are_switched_off_by_word(value: Option<&str>, on: bool)
    requires
        call_ensures(enabled_by_default, (value,), on),
    ensures
        on <==> (value matches Some(v) ==> v@ != "0"@ && v@ != "false"@ && v@ != "no"@ && v@
            != "off"@),
{
}

/// Without a setting the ceiling is half a second; the words that switch off leave none; a
/// number is milliseconds.
pub proof fn the_ceiling_is_as_configured(value: Option<&str>, ceiling: Option<u32>)
    requires
        call_ensures(max_queue_latency_us, (value,), ceiling),
    ensures
        value is None ==> ceiling == Some(500_000u32),
        ceiling is None <==> (value matches Some(v) && (v@ == "0"@ || v@ == "false"@ || v@ == "no"@
            || v@ == "off"@)),
        value matches Some(v) ==> ceiling is Some ==> (match crate::text::parsed_unsigned(
            crate::text::trimmed(v@),
            u32::MAX as nat,
        ) {
            Some(ms) => ms > 0 && ms * 1000 <= u32::MAX ==> ceiling->0 == ms * 1000,
            None => ceiling->0 == 500_000,
        }),
{
}

/// A direct session has five seconds to authenticate, less for its display and two seconds to be
/// ready; behind a tunnel it has more for each of them.
pub proof fn phases_have_deadlines(
    tunnel: Link,
    times: (Option<u64>, Option<u64>, Option<u64>),
    far: (Option<u64>, Option<u64>, Option<u64>),
)
    requires
        tunnel is Tunnel,
        call_ensures(phase_deadline, (Link::Direct, Phase::Authenticating), times.0),
        call_ensures(phase_deadline, (Link::Direct, Phase::AwaitingDisplay), times.1),
        call_ensures(phase_deadline, (Link::Direct, Phase::AwaitingReady), times.2),
        call_ensures(phase_deadline, (tunnel, Phase::Authenticating), far.0),
        call_ensures(phase_deadline, (tunnel, Phase::AwaitingDisplay), far.1),
        call_ensures(phase_deadline, (tunnel, Phase::AwaitingReady), far.2),
    ensures
        times.0 == Some(5_000_000_000u64),
        times.1 == Some(150_000_000u64),
        times.2 == Some(2_000_000_000u64),
        far.0 == Some(10_000_000_000u64),
        far.1 == Some(5_000_000_000u64),
        far.2 == Some(5_000_000_000u64),
{
}

/// Secrets are the same exactly where they do not differ in any place.
pub proof fn secrets_are_compared_whole(a: &str, b: &str, same: bool, i: int)
    requires
        call_ensures(same_secret, (a, b), same),
    ensures
        same ==> a@.len() == b@.len(),
        same && 0 <= i < a@.len() ==> a@[i] == b@[i],
        a@ == b@ ==> same,
{
}

/// Bytes are the same exactly where they do not differ in any place.
pub proof fn bytes_are_compared_whole(a: &[u8], b: &[u8], same: bool, i: int)
    requires
        call_ensures(constant_time_eq, (a, b), same),
    ensures
        a@.len() != b@.len() ==> !same,
        0 <= i < a@.len() && i < b@.len() && a@[i] != b@[i] ==> !same,
        a@ == b@ ==> same,
{
}

/// Every option that is on by default is switched off by the same words.
pub proof fn options_agree(
    value: Option<&str>,
    on: bool,
    ring: bool,
    audio: bool,
    games: bool,
    axes: bool,
)
    requires
        call_ensures(enabled_by_default, (value,), on),
        call_ensures(io_uring_requested, (value,), ring),
        call_ensures(audio_interleave_enabled, (value,), audio),
        call_ensures(crate::game_mode::enabled, (value,), games),
        call_ensures(uinput_absolute_enabled, (value,), axes),
    ensures
        ring == on && audio == on && games == on && axes == on,
        value is None ==> on,
{
}

/// The loop of a session starts with its audio on, with nothing of the cursor sent, and with what
/// the session knows.
pub proof fn loops_start_with_the_session(
    link: Link,
    id: u32,
    adaptive: bool,
    controller: ControllerState,
    generation: u64,
    now: u64,
    out: ControlLoop,
)
    requires
        call_ensures(ControlLoop::new, (link, id, adaptive, controller, generation, now), out),
    ensures
        out.audio_enabled,
        out.link == link && out.client_id == id && out.adaptive_audio == adaptive,
        out.versions.shape == 0 && out.versions.state == 0,
        out.controller == controller && out.generation == generation && out.last_inbound == now,
        out.last_recovery_keyframe is None,
{
}

/// A message about the input does what the input side does by itself, for the client that sent it.
pub proof fn input_messages_reach_the_input(
    l: &mut ControlLoop,
    input: &mut InputRuntime,
    message: ClientMessage,
    clock: ClockReadings,
    now: u64,
    out: LoopReaction,
    alone: &mut InputRuntime,
    list: Vec<Injection>,
    state: ControllerState,
    text: &str,
    typed: Option<Vec<Injection>>,
)
    requires
        call_ensures(ControlLoop::handle_message, (l, input, message, clock, now), out),
        old(alone)@ == old(input)@,
        match message {
            ClientMessage::AcquireControl => call_ensures(
                InputRuntime::acquire_control,
                (alone, old(l).client_id),
                (state, list),
            ),
            ClientMessage::ReleaseControl => call_ensures(
                InputRuntime::release_control,
                (alone, old(l).client_id),
                (state, list),
            ),
            ClientMessage::TextInput(t) => text@ == t@ && call_ensures(
                InputRuntime::handle_text_input,
                (alone, old(l).client_id, text, now),
                typed,
            ),
            _ => false,
        },
    ensures
        final(input)@ == final(alone)@,
        message is AcquireControl || message is ReleaseControl ==> out.injections@ == list@
            && final(l).controller == state,
        message is TextInput ==> {
            &&& typed matches Some(keys) ==> out.injections@ == keys@ && out.actions@.len() == 1
            &&& typed is None ==> out.injections@.len() == 0 && out.actions@.len() == 0
        },
{
}

/// What a direct client sends behind the message that it is ready is left for the loop; everything
/// else is used up.
pub proof fn messages_behind_ready_are_left(
    s: &mut Session,
    ms: Vec<ClientMessage>,
    token: &str,
    disconnect: bool,
    out: SessionReaction,
    k: int,
)
    requires
        call_ensures(Session::on_event, (s, SessionEvent::Received(ms), token, disconnect), out),
        0 <= k <= ms@.len(),
        k < ms@.len() ==> ms@[k] is ReadyForMedia,
        forall|j: int| 0 <= j < k ==> !(#[trigger] ms@[j] is ReadyForMedia),
    ensures
        old(s).phase == Phase::AwaitingReady && old(s).link is Direct && k < ms@.len() ==> out.taken
            == k + 1,
        old(s).phase != Phase::AwaitingReady || old(s).link is Tunnel || k == ms@.len()
            ==> out.taken == ms@.len(),
{
    lemma_ready(ms@, 0, k);
}

proof fn lemma_ready(ms: Seq<ClientMessage>, from: int, k: int)
    requires
        0 <= from <= k <= ms.len(),
        k < ms.len() ==> ms[k] is ReadyForMedia,
        forall|j: int| from <= j < k ==> !(#[trigger] ms[j] is ReadyForMedia),
    ensures
        crate::session::ready_at(ms, from) == if k < ms.len() {
            Some(k)
        } else {
            None
        },
    decreases k - from,
{
    if from < k {
        assert(!(ms[from] is ReadyForMedia));
        lemma_ready(ms, from + 1, k);
    }
}

/// A client that says nothing of its display decodes nothing in hardware and nothing in full
/// colour.
pub proof fn unknown_clients_decode_plainly(
    link: Link,
    running: Option<RunningPipeline>,
    plan: SetupPlan,
)
    requires
        call_ensures(plan_setup, (link, running, None), plan),
    ensures
        plan is Start <==> (running matches Some(p) ==> p.finished),
        plan matches SetupPlan::Start { stop_dead, request } ==> {
            &&& !request.hardware.h264 && !request.hardware.hevc && !request.hardware.av1
            &&& request.supported_yuv444 == request.hardware
            &&& request.hardware_yuv444 == request.hardware
            &&& stop_dead <==> running is Some
        },
{
    assert(plan is Start <==> plan@ is Start);
    if let SetupPlan::Start { stop_dead, request } = plan {
        assert(plan@ == (crate::setup::SetupView::Start { stop_dead, request }));
    }
}

/// A stream that starts asks for the frame rate that the display of its client hints at, by the
/// rule of its link.
pub proof fn starts_ask_for_the_frame_rate(
    link: Link,
    running: Option<RunningPipeline>,
    info: ClientDisplayInfo,
    plan: SetupPlan,
    direct: Option<u32>,
    tunnel: Option<u32>,
)
    requires
        call_ensures(plan_setup, (link, running, Some(info)), plan),
        call_ensures(client_display_fps_hint, (Some(info),), direct),
        call_ensures(tunnel_fps_hint, (&info,), tunnel),
    ensures
        plan matches SetupPlan::Start { stop_dead, request } ==> request.fps == (if link is Direct {
            direct
        } else {
            tunnel
        }),
{
    if let SetupPlan::Start { stop_dead, request } = plan {
        assert(plan@ == (crate::setup::SetupView::Start { stop_dead, request }));
    }
}

/// A sender starts with nothing sent, nothing applied and no recovery awaited.
pub proof fn senders_start_fresh(ceiling: Option<u32>, now: u64, out: Transport)
    requires
        call_ensures(Transport::new, (ceiling, now), out),
    ensures
        !out.gate.waiting_for_recovery,
        out.gate.last_source_seq is None && out.gate.last_keyframe_request is None,
        out.gate.hard_ceiling_us == ceiling,
        out.last_keepalive == now,
        out.applied.dup_first is None,
{
}

/// A gate starts open, with nothing seen, and no event but messages uses messages up.
pub proof fn gates_start_open(
    ceiling: Option<u32>,
    gate: VideoGate,
    s: &mut Session,
    event: SessionEvent,
    token: &str,
    disconnect: bool,
    out: SessionReaction,
)
    requires
        call_ensures(VideoGate::new, (ceiling,), gate),
        call_ensures(Session::on_event, (s, event, token, disconnect), out),
    ensures
        !gate.waiting_for_recovery && gate.last_source_seq is None
            && gate.last_keyframe_request is None && gate.hard_ceiling_us == ceiling,
        !gate.backlog.seen && gate.backlog.ewma_us == 0,
        !(event is Received) ==> out.taken == 0,
{
}

} // verus!
