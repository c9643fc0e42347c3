//! The control loop of a session whose stream runs.
//!
//! [`ControlLoop`] answers a client's messages, tells it of changes, and notices when it
//! is gone. Points in time are nanoseconds on a monotonic clock; the clock readings that a
//! client compares are microseconds of wall time.

use vstd::prelude::*;
use crate::bitrate::elapsed;
use crate::file_transfer::FtInbound;
use crate::input::{
    ControllerState, CursorVersionCursor, Injection, InnerView, InputRuntime, RuntimeView,
};
use crate::messages::{
    as_inbound, inbound_file_message, ClientMessage, ServerMessage, TransportFeedback,
};
use crate::pipeline::StreamConfig;
use crate::session::Link;
use crate::transport::KEYFRAME_THROTTLE_NANOS;

verus! {

/// A directly connected client that says nothing for longer is gone.
pub const DIRECT_INACTIVITY_NANOS: u64 = 15_000_000_000;

/// A client behind a tunnel that says nothing for longer is gone.
pub const TUNNEL_INACTIVITY_NANOS: u64 = 5_000_000_000;

/// Something to do now.
pub enum LoopAction {
    Send(ServerMessage),
    RequestKeyframe,
    /// Hand the feedback to the controller of the error correction.
    AdaptErrorCorrection,
    /// Hand the feedback to the controller of the audio redundancy.
    AdaptAudioRedundancy,
    /// Hand the feedback to the controller of the doubled frame starts.
    AdaptDuplicates,
    /// Hand the feedback, and how long media waits here, to the bitrate controller.
    AdaptBitrate,
    /// Keep the client's bitrate at or below this many kilobits in a second.
    LimitBitrate(u32),
    /// Capture another output.
    SwitchOutput(u32),
    SetClipboard(String),
    /// The text that goes where the injections say.
    TypeText(String),
    Transfer(FtInbound),
}

/// What is read for a clock comparison.
#[derive(Clone, Copy, Debug, PartialEq, Eq, Structural)]
pub struct ClockReadings {
    pub recv_micros: u64,
    pub send_micros: u64,
    pub bitrate_kbps: u32,
}

/// The state of a client's control loop.
#[derive(Clone, Copy, Debug, PartialEq, Eq, Structural)]
pub struct ControlLoop {
    pub link: Link,
    pub client_id: u32,
    pub audio_enabled: bool,
    /// That the audio redundancy follows the losses.
    pub adaptive_audio: bool,
    pub versions: CursorVersionCursor,
    pub last_recovery_keyframe: Option<u64>,
    /// What the client was last told about who controls the input.
    pub controller: ControllerState,
    /// The change of the stream that the client was last told of.
    pub generation: u64,
    pub last_inbound: u64,
}

/// What a message leads to.
pub struct LoopReaction {
    pub actions: Vec<LoopAction>,
    pub injections: Vec<Injection>,
}

/// The sender's settings that a session starts with.
#[derive(Clone, Copy, Debug, PartialEq, Eq, Structural)]
pub struct RecoverySettings {
    pub fec_pct: u16,
    pub audio_depth: u8,
}

/// What a session starts its loss recovery with: nothing on a link that loses nothing.
pub fn initial_recovery(
    link: Link,
    fec_pct: u16,
    adaptive_audio: bool,
    adaptive_depth: u8,
    fixed_depth: u8,
) -> (out: RecoverySettings)
    ensures
        out == (match link {
            Link::Tunnel { reliable: true } => RecoverySettings { fec_pct: 0, audio_depth: 0 },
            _ => RecoverySettings {
                fec_pct,
                audio_depth: if adaptive_audio {
                    adaptive_depth
                } else {
                    fixed_depth
                },
            },
        }),
{
    if matches!(link, Link::Tunnel { reliable: true }) {
        return RecoverySettings { fec_pct: 0, audio_depth: 0 };
    }
    RecoverySettings {
        fec_pct,
        audio_depth: if adaptive_audio {
            adaptive_depth
        } else {
            fixed_depth
        },
    }
}

impl ControlLoop {
    /// That the link loses nothing.
    pub open spec fn lossless(self) -> bool {
        self.link == (Link::Tunnel { reliable: true })
    }

    /// That feedback tells of losses which only a keyframe mends.
    pub open spec fn needs_keyframe(self, fb: TransportFeedback) -> bool {
        match self.link {
            Link::Direct => fb.dropped_frames > 0 || (fb.lost_packets > 0 && fb.completed_frames
                == 0),
            Link::Tunnel { .. } => fb.lost_packets > 0 || fb.dropped_frames > 0,
        }
    }

    pub open spec fn may_request(self, now: u64) -> bool {
        self.last_recovery_keyframe matches Some(last) ==> elapsed(now, last)
            >= KEYFRAME_THROTTLE_NANOS
    }

    pub open spec fn requests(self, fb: TransportFeedback, now: u64) -> bool {
        self.needs_keyframe(fb) && self.may_request(now)
    }

    /// What feedback leads to. Loss recovery stays as it is on a link that loses nothing.
    pub open spec fn feedback_actions(self, fb: TransportFeedback, now: u64) -> Seq<LoopAction> {
        let key = if self.requests(fb, now) {
            seq![LoopAction::RequestKeyframe]
        } else {
            Seq::<LoopAction>::empty()
        };
        let recovery = if self.lossless() {
            Seq::<LoopAction>::empty()
        } else if self.adaptive_audio {
            seq![
                LoopAction::AdaptErrorCorrection,
                LoopAction::AdaptAudioRedundancy,
                LoopAction::AdaptDuplicates,
            ]
        } else {
            seq![LoopAction::AdaptErrorCorrection, LoopAction::AdaptDuplicates]
        };
        let rate = seq![LoopAction::AdaptBitrate];
        match self.link {
            Link::Direct => key + recovery + rate,
            Link::Tunnel { .. } => recovery + rate + key,
        }
    }

    /// Who controls the input once the client has asked for it.
    pub open spec fn granted(input: RuntimeView) -> ControllerState {
        if input.inner.available() {
            ControllerState::OwnedByYou
        } else {
            ControllerState::Unavailable
        }
    }

    /// Who controls the input once the client has given it up.
    pub open spec fn given_up(input: RuntimeView) -> ControllerState {
        if input.inner.available() {
            ControllerState::Available
        } else {
            ControllerState::Unavailable
        }
    }

    /// The loop after a message.
    pub open spec fn after(self, input: RuntimeView, message: ClientMessage, now: u64) -> ControlLoop {
        match message {
            ClientMessage::SetAudio(on) => ControlLoop { audio_enabled: on, ..self },
            ClientMessage::Feedback(fb) => if self.requests(fb, now) {
                ControlLoop { last_recovery_keyframe: Some(now), ..self }
            } else {
                self
            },
            ClientMessage::AcquireControl => ControlLoop {
                versions: CursorVersionCursor { shape: 0, state: 0 },
                controller: ControlLoop::granted(input),
                ..self
            },
            ClientMessage::ReleaseControl => ControlLoop {
                controller: ControlLoop::given_up(input),
                ..self
            },
            _ => self,
        }
    }

    /// What a message leads to.
    pub open spec fn actions(
        self,
        input: RuntimeView,
        message: ClientMessage,
        clock: ClockReadings,
        now: u64,
    ) -> Seq<LoopAction> {
        match message {
            ClientMessage::Feedback(fb) => self.feedback_actions(fb, now),
            ClientMessage::BitratePreference(kbps) => seq![LoopAction::LimitBitrate(kbps)],
            ClientMessage::ClockSyncPing { client_send_micros } => if self.link is Direct {
                seq![
                    LoopAction::Send(
                        ServerMessage::ClockSyncPong {
                            client_send_micros,
                            server_recv_micros: clock.recv_micros,
                            server_send_micros: clock.send_micros,
                            bitrate_kbps: clock.bitrate_kbps,
                        },
                    ),
                ]
            } else {
                Seq::empty()
            },
            ClientMessage::AcquireControl => seq![
                LoopAction::Send(ServerMessage::ControllerState(ControlLoop::granted(input))),
            ],
            ClientMessage::ReleaseControl => seq![
                LoopAction::Send(ServerMessage::ControllerState(ControlLoop::given_up(input))),
            ],
            ClientMessage::RequestKeyframe => seq![LoopAction::RequestKeyframe],
            ClientMessage::SelectOutput(id) => seq![LoopAction::SwitchOutput(id)],
            ClientMessage::ClipboardText(text) => seq![LoopAction::SetClipboard(text)],
            ClientMessage::TextInput(text) => if input.accepts_text(self.client_id, text@, now) {
                seq![LoopAction::TypeText(text)]
            } else {
                Seq::empty()
            },
            ClientMessage::File(m) => seq![LoopAction::Transfer(as_inbound(m))],
            _ => Seq::empty(),
        }
    }

    /// The input side after a message.
    pub open spec fn input_after(self, input: RuntimeView, message: ClientMessage, now: u64) -> RuntimeView {
        match message {
            ClientMessage::AcquireControl => if input.inner.available() {
                input.with_inner(
                    InnerView { controller_id: Some(self.client_id), ..input.inner.released() },
                )
            } else {
                input
            },
            ClientMessage::ReleaseControl => if input.inner.controller_id == Some(self.client_id) {
                input.with_inner(InnerView { controller_id: None, ..input.inner.released() })
            } else {
                input
            },
            ClientMessage::TextInput(text) => input.after_text(self.client_id, text@, now),
            _ => input,
        }
    }

    /// What a message has injected.
    pub open spec fn injected(self, input: RuntimeView, message: ClientMessage, now: u64) -> Seq<
        Injection,
    > {
        match message {
            ClientMessage::AcquireControl => if input.inner.available() {
                input.inner.release_out()
            } else {
                Seq::empty()
            },
            ClientMessage::ReleaseControl => if input.inner.controller_id == Some(self.client_id) {
                input.inner.release_out()
            } else {
                Seq::empty()
            },
            ClientMessage::TextInput(text) => if input.accepts_text(self.client_id, text@, now) {
                input.inner.activate_out(self.client_id) + input.inner.activated(
                    self.client_id,
                ).text_out()
            } else {
                Seq::empty()
            },
            _ => Seq::empty(),
        }
    }

    /// The loop of a session whose stream has just started.
    pub fn new(
        link: Link,
        client_id: u32,
        adaptive_audio: bool,
        controller: ControllerState,
        generation: u64,
        now: u64,
    ) -> (out: Self)
        ensures
            out == (ControlLoop {
                link,
                client_id,
                audio_enabled: true,
                adaptive_audio,
                versions: CursorVersionCursor { shape: 0, state: 0 },
                last_recovery_keyframe: None,
                controller,
                generation,
                last_inbound: now,
            }),
    {
        ControlLoop {
            link,
            client_id,
            audio_enabled: true,
            adaptive_audio,
            versions: CursorVersionCursor::new(),
            last_recovery_keyframe: None,
            controller,
            generation,
            last_inbound: now,
        }
    }

    fn request_if_due(&mut self, fb: TransportFeedback, now: u64) -> (requested: bool)
        ensures
            requested == old(self).requests(fb, now),
            *final(self) == (if requested {
                ControlLoop { last_recovery_keyframe: Some(now), ..*old(self) }
            } else {
                *old(self)
            }),
    {
        let needed: bool = match self.link {
            Link::Direct => fb.dropped_frames > 0 || (fb.lost_packets > 0 && fb.completed_frames
                == 0),
            Link::Tunnel { .. } => fb.lost_packets > 0 || fb.dropped_frames > 0,
        };
        let due: bool = match self.last_recovery_keyframe {
            Some(last) => now.saturating_sub(last) >= KEYFRAME_THROTTLE_NANOS,
            None => true,
        };
        if needed && due {
            self.last_recovery_keyframe = Some(now);
        }
        needed && due
    }

    fn handle_feedback(&mut self, fb: TransportFeedback, now: u64) -> (actions: Vec<LoopAction>)
        ensures
            actions@ == old(self).feedback_actions(fb, now),
            *final(self) == (if old(self).requests(fb, now) {
                ControlLoop { last_recovery_keyframe: Some(now), ..*old(self) }
            } else {
                *old(self)
            }),
    {
        let ghost start = *self;
        let mut actions: Vec<LoopAction> = Vec::new();
        let direct: bool = matches!(self.link, Link::Direct);
        let lossless: bool = matches!(self.link, Link::Tunnel { reliable: true });
        let request = self.request_if_due(fb, now);
        if direct && request {
            actions.push(LoopAction::RequestKeyframe);
        }
        if !lossless {
            actions.push(LoopAction::AdaptErrorCorrection);
            if self.adaptive_audio {
                actions.push(LoopAction::AdaptAudioRedundancy);
            }
            actions.push(LoopAction::AdaptDuplicates);
        }
        actions.push(LoopAction::AdaptBitrate);
        if !direct && request {
            actions.push(LoopAction::RequestKeyframe);
        }
        proof {
            assert(actions@ =~= start.feedback_actions(fb, now));
        }
        actions
    }

    /// Answers a message. `clock` is read for the case that it asks for the time.
    pub fn handle_message(
        &mut self,
        input: &mut InputRuntime,
        message: ClientMessage,
        clock: ClockReadings,
        now: u64,
    ) -> (out: LoopReaction)
        requires
            old(input).wf(),
        ensures
            final(input).wf(),
            *final(self) == old(self).after(old(input)@, message, now),
            out.actions@ == old(self).actions(old(input)@, message, clock, now),
            final(input)@ == old(self).input_after(old(input)@, message, now),
            out.injections@ == old(self).injected(old(input)@, message, now),
    {
        let ghost start = *self;
        let ghost before = input@;
        let ghost given = message;
        let mut actions: Vec<LoopAction> = Vec::new();
        let mut injections: Vec<Injection> = Vec::new();
        match message {
            ClientMessage::SetAudio(on) => {
                self.audio_enabled = on;
            },
            ClientMessage::Feedback(fb) => {
                actions = self.handle_feedback(fb, now);
            },
            ClientMessage::BitratePreference(kbps) => {
                actions.push(LoopAction::LimitBitrate(kbps));
            },
            ClientMessage::ClockSyncPing { client_send_micros } => {
                if matches!(self.link, Link::Direct) {
                    actions.push(
                        LoopAction::Send(
                            ServerMessage::ClockSyncPong {
                                client_send_micros,
                                server_recv_micros: clock.recv_micros,
                                server_send_micros: clock.send_micros,
                                bitrate_kbps: clock.bitrate_kbps,
                            },
                        ),
                    );
                }
            },
            ClientMessage::AcquireControl => {
                let (state, list) = input.acquire_control(self.client_id);
                injections = list;
                self.versions = CursorVersionCursor::new();
                self.controller = state;
                actions.push(LoopAction::Send(ServerMessage::ControllerState(state)));
            },
            ClientMessage::ReleaseControl => {
                let (state, list) = input.release_control(self.client_id);
                injections = list;
                self.controller = state;
                actions.push(LoopAction::Send(ServerMessage::ControllerState(state)));
            },
            ClientMessage::RequestKeyframe => {
                actions.push(LoopAction::RequestKeyframe);
            },
            ClientMessage::SelectOutput(id) => {
                actions.push(LoopAction::SwitchOutput(id));
            },
            ClientMessage::ClipboardText(text) => {
                actions.push(LoopAction::SetClipboard(text));
            },
            ClientMessage::TextInput(text) => {
                if let Some(list) = input.handle_text_input(self.client_id, text.as_str(), now) {
                    injections = list;
                    actions.push(LoopAction::TypeText(text));
                }
            },
            ClientMessage::File(m) => {
                actions.push(LoopAction::Transfer(inbound_file_message(m)));
            },
            _ => {},
        }
        proof {
            assert(actions@ =~= start.actions(before, given, clock, now));
            assert(injections@ =~= start.injected(before, given, now));
        }
        LoopReaction { actions, injections }
    }

    /// What a client is told at the start of a turn.
    pub open spec fn news(
        self,
        controller: ControllerState,
        generation: u64,
        updated: Option<StreamConfig>,
        selected_output: u32,
    ) -> Seq<ServerMessage> {
        let first = if controller != self.controller {
            seq![ServerMessage::ControllerState(controller)]
        } else {
            Seq::<ServerMessage>::empty()
        };
        match updated {
            Some(config) => if generation != self.generation {
                first + seq![
                    ServerMessage::StreamConfig(config),
                    ServerMessage::SelectOutput(selected_output),
                ]
            } else {
                first
            },
            None => first,
        }
    }

    /// Starts a turn: what the client has to be told, because who controls the input or
    /// what the stream is has changed.
    pub fn start_turn(
        &mut self,
        controller: ControllerState,
        generation: u64,
        updated: Option<StreamConfig>,
        selected_output: u32,
    ) -> (out: Vec<ServerMessage>)
        ensures
            out@ == old(self).news(controller, generation, updated, selected_output),
            *final(self) == (ControlLoop { controller, generation, ..*old(self) }),
    {
        let ghost start = *self;
        let mut out: Vec<ServerMessage> = Vec::new();
        if controller != self.controller {
            out.push(ServerMessage::ControllerState(controller));
            self.controller = controller;
        }
        if generation != self.generation {
            self.generation = generation;
            if let Some(config) = updated {
                out.push(ServerMessage::StreamConfig(config));
                out.push(ServerMessage::SelectOutput(selected_output));
            }
        }
        proof {
            assert(out@ =~= start.news(controller, generation, updated, selected_output));
        }
        out
    }

    /// That a client has been silent for too long.
    pub open spec fn silent_too_long(self, now: u64) -> bool {
        elapsed(now, self.last_inbound) > (match self.link {
            Link::Direct => DIRECT_INACTIVITY_NANOS,
            Link::Tunnel { .. } => TUNNEL_INACTIVITY_NANOS,
        })
    }

    /// Whether the loop ends at the start of a turn: the client is to be let go, and on a
    /// tunnel also that the server ends or that nothing has come for too long.
    pub fn ends_at_turn(&self, disconnect: bool, shutdown: bool, now: u64) -> (end: bool)
        ensures
            end == (match self.link {
                Link::Direct => disconnect,
                Link::Tunnel { .. } => disconnect || shutdown || self.silent_too_long(now),
            }),
    {
        match self.link {
            Link::Direct => disconnect,
            Link::Tunnel { .. } => disconnect || shutdown || now.saturating_sub(self.last_inbound)
                > TUNNEL_INACTIVITY_NANOS,
        }
    }

    /// Takes in what came of reading; `true` ends the loop. A direct connection ends when
    /// it is closed or broken, or when nothing has come for too long.
    pub fn after_read(&mut self, read: ReadOutcome, now: u64) -> (end: bool)
        ensures
            *final(self) == (if read == ReadOutcome::Data {
                ControlLoop { last_inbound: now, ..*old(self) }
            } else {
                *old(self)
            }),
            end == (old(self).link is Direct && match read {
                ReadOutcome::Data => false,
                ReadOutcome::Nothing => old(self).silent_too_long(now),
                ReadOutcome::Closed | ReadOutcome::Failed => true,
            }),
    {
        if matches!(read, ReadOutcome::Data) {
            self.last_inbound = now;
        }
        match self.link {
            Link::Direct => match read {
                ReadOutcome::Data => false,
                ReadOutcome::Nothing => now.saturating_sub(self.last_inbound)
                    > DIRECT_INACTIVITY_NANOS,
                ReadOutcome::Closed => true,
                ReadOutcome::Failed => true,
            },
            Link::Tunnel { .. } => false,
        }
    }
}

/// What came of reading from a client.
#[derive(Clone, Copy, Debug, PartialEq, Eq, Structural)]
pub enum ReadOutcome {
    Data,
    /// Nothing came in the time of a turn.
    Nothing,
    Closed,
    Failed,
}

/// Between two keyframes that feedback asks for lies at least the throttle time.
pub proof fn recovery_keyframes_are_throttled(
    l: ControlLoop,
    input: RuntimeView,
    first: TransportFeedback,
    first_at: u64,
    second: TransportFeedback,
    second_at: u64,
)
    requires
        l.requests(first, first_at),
        l.after(input, ClientMessage::Feedback(first), first_at).requests(second, second_at),
    ensures
        second_at >= first_at + KEYFRAME_THROTTLE_NANOS,
{
}

/// On a link that loses nothing, feedback leaves the loss recovery alone.
pub proof fn lossless_links_adapt_only_the_bitrate(
    l: ControlLoop,
    fb: TransportFeedback,
    now: u64,
    i: int,
)
    requires
        l.lossless(),
        0 <= i < l.feedback_actions(fb, now).len(),
    ensures
        l.feedback_actions(fb, now)[i] is AdaptBitrate || l.feedback_actions(
            fb,
            now,
        )[i] is RequestKeyframe,
{
}

/// A client is told of each change of the stream once: in the turn behind the one that
/// told of it there is nothing new.
pub proof fn changes_are_told_once(
    l: ControlLoop,
    controller: ControllerState,
    generation: u64,
    updated: Option<StreamConfig>,
    selected_output: u32,
)
    ensures
        (ControlLoop { controller, generation, ..l }).news(
            controller,
            generation,
            updated,
            selected_output,
        ) == Seq::<ServerMessage>::empty(),
{
}

/// A message of a client changes no more of the input side than that client may: whoever
/// else is in control stays so unless the client asks for control.
pub proof fn only_asking_takes_control(
    l: ControlLoop,
    input: RuntimeView,
    message: ClientMessage,
    now: u64,
    owner: u32,
)
    requires
        input.inner.controller_id == Some(owner),
        owner != l.client_id,
        message !is AcquireControl,
    ensures
        l.input_after(input, message, now).inner.controller_id == Some(owner),
{
}

} // verus!
