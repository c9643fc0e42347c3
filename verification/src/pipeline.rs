//! The shared pipeline: one capture and one encoder for all clients.
//!
//! [`Pipeline`] holds what the pipeline thread decides by. Capturing, encoding and
//! building encoders happen outside; each handler takes in what came of that and
//! says what to do next. Points in time are nanoseconds on a monotonic clock.

use vstd::prelude::*;
use crate::bitrate::{reconfigure_due, should_schedule_bitrate_reconfigure, BitrateVerifier};
use crate::media::{ChromaSampling, EncoderConfig, VideoCodec};

verus! {

/// What a client has to know to decode and present the stream.
#[derive(Clone, Copy, Debug, PartialEq, Eq, Structural)]
pub struct StreamConfig {
    pub width: u32,
    pub height: u32,
    pub framerate: u32,
    pub codec: VideoCodec,
    pub chroma: ChromaSampling,
}

/// The stream that an encoder with these settings produces.
pub open spec fn stream_of(config: EncoderConfig) -> StreamConfig {
    StreamConfig {
        width: config.width,
        height: config.height,
        framerate: config.framerate,
        codec: config.codec,
        chroma: config.chroma,
    }
}

/// The stream that an encoder with these settings produces.
pub fn to_stream_config(config: &EncoderConfig) -> (out: StreamConfig)
    ensures
        out == stream_of(*config),
{
    StreamConfig {
        width: config.width,
        height: config.height,
        framerate: config.framerate,
        codec: config.codec,
        chroma: config.chroma,
    }
}

/// A monitor that can be captured.
pub struct OutputInfo {
    pub id: u32,
    pub name: String,
    pub is_primary: bool,
}

/// What the pipeline shares with the client handlers.
pub struct SharedCaptureState {
    pub available_outputs: Vec<OutputInfo>,
    /// The captured output; zero where it is not known.
    pub selected_output: u32,
    /// The stream after the last change, where there was one.
    pub updated_config: Option<StreamConfig>,
    /// Counts the changes, so that each client takes up each one once.
    pub config_generation: u64,
}

impl SharedCaptureState {
    pub fn new() -> (out: Self)
        ensures
            out.available_outputs@.len() == 0,
            out.selected_output == 0,
            out.updated_config is None,
            out.config_generation == 0,
    {
        SharedCaptureState {
            available_outputs: Vec::new(),
            selected_output: 0,
            updated_config: None,
            config_generation: 0,
        }
    }

    /// The state once `config` is published: the counter moves on by one and
    /// starts over behind its last value.
    pub open spec fn published(self, config: StreamConfig) -> SharedCaptureState {
        SharedCaptureState {
            updated_config: Some(config),
            config_generation: if self.config_generation < u64::MAX {
                (self.config_generation + 1) as u64
            } else {
                0
            },
            ..self
        }
    }

    /// Records a new stream for the clients to take up.
    pub fn publish_config(&mut self, config: StreamConfig)
        ensures
            *final(self) == old(self).published(config),
    {
        self.updated_config = Some(config);
        self.config_generation = self.config_generation.wrapping_add(1);
    }

    /// Takes in the outputs that can be captured; the first primary one counts as
    /// selected.
    pub fn set_outputs(&mut self, outputs: Vec<OutputInfo>)
        ensures
            final(self).available_outputs == outputs,
            final(self).updated_config == old(self).updated_config,
            final(self).config_generation == old(self).config_generation,
            (forall|i: int| 0 <= i < outputs@.len() ==> !(#[trigger] outputs@[i]).is_primary)
                ==> final(self).selected_output == old(self).selected_output,
            forall|i: int|
                0 <= i < outputs@.len() && (#[trigger] outputs@[i]).is_primary && (forall|j: int|
                    0 <= j < i ==> !(#[trigger] outputs@[j]).is_primary)
                    ==> final(self).selected_output == outputs@[i].id,
    {
        let mut i: usize = 0;
        while i < outputs.len() && !outputs[i].is_primary
            invariant
                i <= outputs@.len(),
                forall|j: int| 0 <= j < i ==> !(#[trigger] outputs@[j]).is_primary,
            decreases outputs@.len() - i,
        {
            i = i + 1;
        }
        if i < outputs.len() {
            self.selected_output = outputs[i].id;
        }
        self.available_outputs = outputs;
    }
}

/// What the newest of several captured frames has to carry on.
#[derive(Clone, Copy, Debug, PartialEq, Eq, Structural)]
pub struct FrameInfo {
    pub width: u32,
    pub height: u32,
    pub force_keyframe: bool,
}

/// Picks the newest of the queued frames; a keyframe that any of them demands is
/// demanded of it.
pub fn newest_frame(frames: &Vec<FrameInfo>) -> (out: FrameInfo)
    requires
        frames@.len() > 0,
    ensures
        out.width == frames@.last().width,
        out.height == frames@.last().height,
        out.force_keyframe == (exists|i: int|
            0 <= i < frames@.len() && (#[trigger] frames@[i]).force_keyframe),
{
    let mut force = false;
    let mut i: usize = 0;
    while i < frames.len()
        invariant
            i <= frames@.len(),
            force == (exists|k: int| 0 <= k < i && (#[trigger] frames@[k]).force_keyframe),
        decreases frames@.len() - i,
    {
        if frames[i].force_keyframe {
            force = true;
        }
        i = i + 1;
    }
    let last = frames[frames.len() - 1];
    FrameInfo { width: last.width, height: last.height, force_keyframe: force }
}

/// The bounds that bitrate control starts with: start, least, most.
pub fn initial_rate_bounds(forced_kbps: u32, config: &EncoderConfig) -> (bounds: (u32, u32, u32))
    ensures
        bounds == (if forced_kbps > 0 {
            (forced_kbps, forced_kbps, forced_kbps)
        } else {
            (config.bitrate_kbps, config.min_bitrate_kbps, config.max_bitrate_kbps)
        }),
{
    if forced_kbps > 0 {
        (forced_kbps, forced_kbps, forced_kbps)
    } else {
        (config.bitrate_kbps, config.min_bitrate_kbps, config.max_bitrate_kbps)
    }
}

/// What the pipeline thread decides by.
pub struct Pipeline {
    pub config: EncoderConfig,
    /// The settings of an encoder that is being built on the side.
    pub pending_rebuild: Option<EncoderConfig>,
    pub last_reconfigure: u64,
    pub verifier: BitrateVerifier,
    pub shared: SharedCaptureState,
}

/// Something to do now.
pub enum PipelineAction {
    /// Ask the encoder in use for a keyframe.
    RequestKeyframe,
    /// Put the encoder that was built on the side in place of the one in use.
    SwapEncoder,
    /// Set every client's bitrate back to this one, in kbit/s.
    ResetClients(u32),
    /// Start to build an encoder on the side.
    StartRebuild(EncoderConfig),
    /// Change the bitrate of the encoder in use, and report how that went.
    UpdateInPlace(EncoderConfig),
}

/// What came of the encoder that was being built on the side.
#[derive(Clone, Copy, Debug, PartialEq, Eq, Structural)]
pub enum RebuildPoll {
    NotDone,
    Built,
    Failed,
}

/// What one frame brings with it.
#[derive(Clone, Copy, Debug, PartialEq, Eq, Structural)]
pub struct FrameInputs {
    /// That a client asked for a keyframe.
    pub keyframe_requested: bool,
    /// That the capture demands one.
    pub force_keyframe: bool,
    pub rebuild: RebuildPoll,
    /// A bitrate that is forced, in kbit/s; zero where none is.
    pub forced_kbps: u32,
    /// The encoder's share of the clients' target, in kbit/s.
    pub adaptive_kbps: u32,
    /// That share once the configured limits are applied.
    pub adaptive_limited_kbps: u32,
    pub now: u64,
}

/// A state and what was done to reach it.
pub ghost struct Progress {
    pub config: EncoderConfig,
    pub pending_rebuild: Option<EncoderConfig>,
    pub last_reconfigure: u64,
    pub verifier: BitrateVerifier,
    pub shared: SharedCaptureState,
    pub actions: Seq<PipelineAction>,
}

impl Pipeline {
    pub open spec fn progress(self, actions: Seq<PipelineAction>) -> Progress {
        Progress {
            config: self.config,
            pending_rebuild: self.pending_rebuild,
            last_reconfigure: self.last_reconfigure,
            verifier: self.verifier,
            shared: self.shared,
            actions,
        }
    }
}

impl Progress {
    /// One keyframe request for the clients', one for the capture's.
    pub open spec fn with_keyframes(self, inputs: FrameInputs) -> Progress {
        let first = if inputs.keyframe_requested {
            self.actions.push(PipelineAction::RequestKeyframe)
        } else {
            self.actions
        };
        Progress {
            actions: if inputs.force_keyframe {
                first.push(PipelineAction::RequestKeyframe)
            } else {
                first
            },
            ..self
        }
    }

    /// An encoder that is ready takes over and starts with a keyframe; a new frame
    /// rate is published. One that failed leaves the old one in place.
    pub open spec fn with_rebuild(self, inputs: FrameInputs) -> Progress {
        match (self.pending_rebuild, inputs.rebuild) {
            (Some(built), RebuildPoll::Built) => Progress {
                config: built,
                pending_rebuild: None,
                last_reconfigure: inputs.now,
                shared: if built.framerate != self.config.framerate {
                    self.shared.published(stream_of(built))
                } else {
                    self.shared
                },
                actions: self.actions.push(PipelineAction::SwapEncoder).push(
                    PipelineAction::RequestKeyframe,
                ),
                ..self
            },
            (Some(_), RebuildPoll::Failed) => Progress {
                pending_rebuild: None,
                actions: self.actions.push(PipelineAction::ResetClients(self.config.bitrate_kbps)),
                ..self
            },
            _ => self,
        }
    }

    /// Where nothing is being built: an in-place change that had no effect makes
    /// the encoder be rebuilt with the settings that it should have.
    pub open spec fn with_verifier(self, inputs: FrameInputs) -> Progress {
        if self.pending_rebuild is Some {
            self
        } else if self.verifier.failure_at(inputs.now) {
            Progress {
                verifier: self.verifier.checked(inputs.now),
                pending_rebuild: Some(self.config),
                actions: self.actions.push(PipelineAction::StartRebuild(self.config)),
                ..self
            }
        } else {
            Progress { verifier: self.verifier.checked(inputs.now), ..self }
        }
    }

    /// The bitrate to aim at.
    pub open spec fn target(inputs: FrameInputs) -> u32 {
        if inputs.forced_kbps > 0 {
            inputs.forced_kbps
        } else {
            inputs.adaptive_kbps
        }
    }

    /// The settings with the bitrate to aim at.
    pub open spec fn next_config(self, inputs: FrameInputs) -> EncoderConfig {
        EncoderConfig {
            bitrate_kbps: if inputs.forced_kbps > 0 {
                inputs.forced_kbps
            } else {
                inputs.adaptive_limited_kbps
            },
            ..self.config
        }
    }

    /// Where nothing is being built and a change is due: change in place, or
    /// rebuild where that has proved to have no effect.
    pub open spec fn with_bitrate(self, inputs: FrameInputs) -> Progress {
        if self.pending_rebuild is None && reconfigure_due(
            self.config.bitrate_kbps,
            Self::target(inputs),
            self.last_reconfigure,
            inputs.now,
        ) {
            if self.verifier.inplace_ineffective {
                Progress {
                    pending_rebuild: Some(self.next_config(inputs)),
                    actions: self.actions.push(
                        PipelineAction::StartRebuild(self.next_config(inputs)),
                    ),
                    ..self
                }
            } else {
                Progress {
                    actions: self.actions.push(
                        PipelineAction::UpdateInPlace(self.next_config(inputs)),
                    ),
                    ..self
                }
            }
        } else {
            self
        }
    }

    /// All that happens before a frame is encoded.
    pub open spec fn before_encode(self, inputs: FrameInputs) -> Progress {
        self.with_keyframes(inputs).with_rebuild(inputs).with_verifier(inputs).with_bitrate(inputs)
    }
}

impl Pipeline {
    /// A pipeline whose encoder has just been opened.
    pub fn new(config: EncoderConfig, shared: SharedCaptureState, now: u64) -> (out: Self)
        ensures
            out.config == config,
            out.pending_rebuild is None,
            out.last_reconfigure == now,
            out.verifier == (BitrateVerifier {
                fps: if config.framerate == 0 {
                    1
                } else {
                    config.framerate
                },
                window_bytes: 0,
                window_frames: 0,
                window_start: now,
                pending: None,
                consecutive_failures: 0,
                inplace_ineffective: false,
            }),
            out.shared == shared,
    {
        let verifier = BitrateVerifier::new(config.framerate, now);
        Pipeline { config, pending_rebuild: None, last_reconfigure: now, verifier, shared }
    }

    /// The settings of the encoder to build before a frame of this size can be
    /// encoded, where the one in use does not fit it.
    pub fn encoder_for_size(&self, width: u32, height: u32) -> (rebuild: Option<EncoderConfig>)
        ensures
            rebuild == (if width != self.config.width || height != self.config.height {
                Some(EncoderConfig { width, height, ..self.config })
            } else {
                None
            }),
    {
        if width != self.config.width || height != self.config.height {
            Some(EncoderConfig { width, height, ..self.config })
        } else {
            None
        }
    }

    /// Takes up an encoder that was built for a new frame size. The caller asks
    /// it for a keyframe.
    pub fn resized(&mut self, config: EncoderConfig)
        ensures
            *final(self) == (Pipeline {
                config,
                shared: old(self).shared.published(stream_of(config)),
                ..*old(self)
            }),
    {
        self.config = config;
        self.shared.publish_config(to_stream_config(&config));
    }

    /// Takes up a switch to another output once its first frame has come, with
    /// the encoder that was built for it where the size differs.
    pub fn output_switched(&mut self, id: u32, rebuilt: Option<EncoderConfig>)
        ensures
            final(self).config == (match rebuilt {
                Some(config) => config,
                None => old(self).config,
            }),
            final(self).shared == (SharedCaptureState {
                selected_output: id,
                ..old(self).shared
            }).published(stream_of(final(self).config)),
            final(self).pending_rebuild == old(self).pending_rebuild,
            final(self).last_reconfigure == old(self).last_reconfigure,
            final(self).verifier == old(self).verifier,
    {
        match rebuilt {
            Some(config) => {
                self.config = config;
            },
            None => {},
        }
        self.shared.selected_output = id;
        let stream = to_stream_config(&self.config);
        self.shared.publish_config(stream);
    }

    /// Decides what happens before a frame is encoded.
    ///
    /// A bitrate change in place is the last action, where there is one; its
    /// result goes to [`Pipeline::in_place_result`].
    pub fn before_encode(&mut self, inputs: FrameInputs) -> (actions: Vec<PipelineAction>)
        requires
            inputs.now + crate::bitrate::EXTENSION_NANOS <= u64::MAX,
        ensures
            final(self).progress(actions@) == old(self).progress(Seq::empty()).before_encode(inputs),
    {
        let mut actions: Vec<PipelineAction> = Vec::new();
        if inputs.keyframe_requested {
            actions.push(PipelineAction::RequestKeyframe);
        }
        if inputs.force_keyframe {
            actions.push(PipelineAction::RequestKeyframe);
        }
        let ghost stage1 = old(self).progress(Seq::empty()).with_keyframes(inputs);
        assert(self.progress(actions@) == stage1);
        match self.pending_rebuild {
            Some(built) => {
                match inputs.rebuild {
                    RebuildPoll::NotDone => {},
                    RebuildPoll::Built => {
                        let fps_changed = built.framerate != self.config.framerate;
                        self.pending_rebuild = None;
                        actions.push(PipelineAction::SwapEncoder);
                        actions.push(PipelineAction::RequestKeyframe);
                        self.config = built;
                        self.last_reconfigure = inputs.now;
                        if fps_changed {
                            self.shared.publish_config(to_stream_config(&built));
                        }
                    },
                    RebuildPoll::Failed => {
                        self.pending_rebuild = None;
                        actions.push(PipelineAction::ResetClients(self.config.bitrate_kbps));
                    },
                }
            },
            None => {},
        }
        let ghost stage2 = stage1.with_rebuild(inputs);
        assert(self.progress(actions@) == stage2);
        if self.pending_rebuild.is_none() && self.verifier.check_and_take_failure(inputs.now) {
            self.pending_rebuild = Some(self.config);
            actions.push(PipelineAction::StartRebuild(self.config));
        }
        let ghost stage3 = stage2.with_verifier(inputs);
        assert(self.progress(actions@) == stage3);
        let target: u32 = if inputs.forced_kbps > 0 {
            inputs.forced_kbps
        } else {
            inputs.adaptive_kbps
        };
        if self.pending_rebuild.is_none() && should_schedule_bitrate_reconfigure(
            self.config.bitrate_kbps,
            target,
            self.last_reconfigure,
            inputs.now,
        ) {
            let mut next = self.config;
            next.bitrate_kbps = if inputs.forced_kbps > 0 {
                inputs.forced_kbps
            } else {
                inputs.adaptive_limited_kbps
            };
            if self.verifier.inplace_ineffective {
                self.pending_rebuild = Some(next);
                actions.push(PipelineAction::StartRebuild(next));
            } else {
                actions.push(PipelineAction::UpdateInPlace(next));
            }
        }
        assert(self.progress(actions@) == stage3.with_bitrate(inputs));
        actions
    }

    /// Takes in how a bitrate change in place went. Where it failed, the encoder
    /// to build on the side is returned.
    ///
    /// A change downward that was accepted is put to the proof.
    pub fn in_place_result(&mut self, next: EncoderConfig, ok: bool, now: u64) -> (rebuild: Option<
        EncoderConfig,
    >)
        requires
            now + crate::bitrate::GRACE_NANOS <= u64::MAX,
        ensures
            rebuild == (if ok {
                None
            } else {
                Some(next)
            }),
            ok ==> {
                &&& final(self).config == next
                &&& final(self).last_reconfigure == now
                &&& final(self).pending_rebuild == old(self).pending_rebuild
                &&& final(self).shared == old(self).shared
                &&& final(self).verifier == (if next.bitrate_kbps
                    < old(self).config.bitrate_kbps {
                    BitrateVerifier {
                        pending: Some((next.bitrate_kbps, (now + crate::bitrate::GRACE_NANOS) as u64)),
                        window_bytes: 0,
                        window_frames: 0,
                        window_start: now,
                        ..old(self).verifier
                    }
                } else {
                    old(self).verifier
                })
            },
            !ok ==> *final(self) == (Pipeline { pending_rebuild: Some(next), ..*old(self) }),
    {
        if ok {
            let downward = next.bitrate_kbps < self.config.bitrate_kbps;
            self.config = next;
            self.last_reconfigure = now;
            if downward {
                self.verifier.arm_downward(next.bitrate_kbps, now);
            }
            None
        } else {
            self.pending_rebuild = Some(next);
            Some(next)
        }
    }

    /// The time that one frame may take, in microseconds.
    pub fn frame_budget_us(&self) -> (budget: u64)
        ensures
            budget == (if self.config.framerate == 0 {
                1_000_000
            } else if 1_000_000u32 / self.config.framerate == 0 {
                1
            } else {
                1_000_000u32 / self.config.framerate
            }),
    {
        let fps: u64 = if self.config.framerate == 0 {
            1
        } else {
            self.config.framerate as u64
        };
        let budget: u64 = 1_000_000 / fps;
        if budget == 0 {
            1
        } else {
            budget
        }
    }

    /// Takes in an encoded frame and the frame rate that the adaptive control
    /// proposes, where nothing else is being built. The encoder to build on the
    /// side is returned; the capture takes up its frame rate at once.
    pub fn after_encode(&mut self, encoded_bytes: usize, proposed_fps: Option<u32>) -> (rebuild:
        Option<EncoderConfig>)
        ensures
            final(self).verifier.window_bytes == (if old(self).verifier.window_bytes + encoded_bytes
                <= u64::MAX {
                (old(self).verifier.window_bytes + encoded_bytes) as u64
            } else {
                u64::MAX
            }),
            final(self).verifier.window_frames == (if old(self).verifier.window_frames < u32::MAX {
                (old(self).verifier.window_frames + 1) as u32
            } else {
                u32::MAX
            }),
            *final(self) == (Pipeline {
                verifier: BitrateVerifier {
                    window_bytes: final(self).verifier.window_bytes,
                    window_frames: final(self).verifier.window_frames,
                    ..old(self).verifier
                },
                pending_rebuild: if old(self).pending_rebuild is Some {
                    old(self).pending_rebuild
                } else {
                    rebuild
                },
                ..*old(self)
            }),
            rebuild == (if old(self).pending_rebuild is None && proposed_fps is Some {
                Some(EncoderConfig { framerate: proposed_fps->0, ..old(self).config })
            } else {
                None
            }),
    {
        self.verifier.record(encoded_bytes);
        if self.pending_rebuild.is_none() {
            match proposed_fps {
                Some(fps) => {
                    let mut next = self.config;
                    next.framerate = fps;
                    self.pending_rebuild = Some(next);
                    return Some(next);
                },
                None => {},
            }
        }
        None
    }
}

/// What has happened in a switch to another output.
#[derive(Clone, Copy, Debug)]
pub enum SwitchEvent {
    /// The capture knows the output (`true`) or does not.
    Selected(bool),
    /// The capture was stopped and has started again (`true`) or could not.
    Restarted(bool),
    /// The first frame from the new output, by its size; `None` after five
    /// seconds without one.
    FirstFrame(Option<(u32, u32)>),
    /// An encoder for the new size was built, or could not be.
    Built(Option<EncoderConfig>),
}

/// What comes next in a switch to another output.
#[derive(Clone, Copy, Debug)]
pub enum SwitchStep {
    /// Nothing changes.
    Ignore,
    /// Stop the capture and start it on the new output.
    RestartCapture,
    AwaitFrame,
    /// Build an encoder for the new size.
    Build(EncoderConfig),
    /// The switch is through; the frame that came is encoded.
    Complete,
    /// The pipeline ends.
    Stop,
}

impl Pipeline {
    pub open spec fn switch_next(self, event: SwitchEvent) -> SwitchStep {
        match event {
            SwitchEvent::Selected(known) => if known {
                SwitchStep::RestartCapture
            } else {
                SwitchStep::Ignore
            },
            SwitchEvent::Restarted(ok) => if ok {
                SwitchStep::AwaitFrame
            } else {
                SwitchStep::Stop
            },
            SwitchEvent::FirstFrame(size) => match size {
                None => SwitchStep::Stop,
                Some((width, height)) => if width != self.config.width || height
                    != self.config.height {
                    SwitchStep::Build(EncoderConfig { width, height, ..self.config })
                } else {
                    SwitchStep::Complete
                },
            },
            SwitchEvent::Built(built) => if built is Some {
                SwitchStep::Complete
            } else {
                SwitchStep::Stop
            },
        }
    }

    /// Leads through a switch to output `id`; on completion the new output and
    /// stream are published.
    pub fn switch_output(&mut self, id: u32, event: SwitchEvent) -> (step: SwitchStep)
        ensures
            step == old(self).switch_next(event),
            step is Complete ==> {
                &&& final(self).config == (match event {
                    SwitchEvent::Built(Some(config)) => config,
                    _ => old(self).config,
                })
                &&& final(self).shared == (SharedCaptureState {
                    selected_output: id,
                    ..old(self).shared
                }).published(stream_of(final(self).config))
                &&& final(self).pending_rebuild == old(self).pending_rebuild
                &&& final(self).last_reconfigure == old(self).last_reconfigure
                &&& final(self).verifier == old(self).verifier
            },
            step !is Complete ==> *final(self) == *old(self),
    {
        match event {
            SwitchEvent::Selected(known) => {
                if known {
                    SwitchStep::RestartCapture
                } else {
                    SwitchStep::Ignore
                }
            },
            SwitchEvent::Restarted(ok) => {
                if ok {
                    SwitchStep::AwaitFrame
                } else {
                    SwitchStep::Stop
                }
            },
            SwitchEvent::FirstFrame(size) => {
                match size {
                    None => SwitchStep::Stop,
                    Some((width, height)) => {
                        match self.encoder_for_size(width, height) {
                            Some(config) => SwitchStep::Build(config),
                            None => {
                                self.output_switched(id, None);
                                SwitchStep::Complete
                            },
                        }
                    },
                }
            },
            SwitchEvent::Built(built) => {
                match built {
                    Some(config) => {
                        self.output_switched(id, Some(config));
                        SwitchStep::Complete
                    },
                    None => SwitchStep::Stop,
                }
            },
        }
    }

    /// The settings to change the VideoToolbox encoder to, where a change is due.
    pub fn videotoolbox_change(
        &self,
        forced_kbps: u32,
        adaptive_kbps: u32,
        adaptive_limited_kbps: u32,
        now: u64,
    ) -> (next: Option<EncoderConfig>)
        ensures
            next == (if reconfigure_due(
                self.config.bitrate_kbps,
                if forced_kbps > 0 {
                    forced_kbps
                } else {
                    adaptive_kbps
                },
                self.last_reconfigure,
                now,
            ) {
                Some(
                    EncoderConfig {
                        bitrate_kbps: if forced_kbps > 0 {
                            forced_kbps
                        } else {
                            adaptive_limited_kbps
                        },
                        ..self.config
                    },
                )
            } else {
                None
            }),
    {
        let target: u32 = if forced_kbps > 0 {
            forced_kbps
        } else {
            adaptive_kbps
        };
        if should_schedule_bitrate_reconfigure(
            self.config.bitrate_kbps,
            target,
            self.last_reconfigure,
            now,
        ) {
            let mut next = self.config;
            next.bitrate_kbps = if forced_kbps > 0 {
                forced_kbps
            } else {
                adaptive_limited_kbps
            };
            Some(next)
        } else {
            None
        }
    }

    /// Takes in how a VideoToolbox change went; where it failed, the bitrate that
    /// every client is set back to is returned.
    pub fn videotoolbox_result(&mut self, next: EncoderConfig, ok: bool, now: u64) -> (reset: Option<
        u32,
    >)
        ensures
            reset == (if ok {
                None
            } else {
                Some(old(self).config.bitrate_kbps)
            }),
            *final(self) == (if ok {
                Pipeline { config: next, last_reconfigure: now, ..*old(self) }
            } else {
                *old(self)
            }),
    {
        if ok {
            self.config = next;
            self.last_reconfigure = now;
            None
        } else {
            Some(self.config.bitrate_kbps)
        }
    }
}

/// How many encoders a list of actions starts to build on the side.
pub open spec fn rebuilds_started(actions: Seq<PipelineAction>) -> nat
    decreases actions.len(),
{
    if actions.len() == 0 {
        0
    } else {
        rebuilds_started(actions.drop_last()) + (if actions.last() is StartRebuild {
            1nat
        } else {
            0
        })
    }
}

/// At most one encoder is built on the side at a time: a frame starts none while
/// one is pending and not done, and at most one otherwise; and what is pending
/// afterwards is what was started last.
pub proof fn rebuilds_do_not_stack(p: Pipeline, inputs: FrameInputs)
    ensures
        ({
            let after = p.progress(Seq::empty()).before_encode(inputs);
            let started = rebuilds_started(after.actions);
            &&& started <= 1
            &&& p.pending_rebuild is Some && inputs.rebuild == RebuildPoll::NotDone ==> started == 0
                && after.pending_rebuild == p.pending_rebuild
            &&& started == 1 ==> after.pending_rebuild is Some && after.actions.last()
                == PipelineAction::StartRebuild(after.pending_rebuild->0)
        }),
{
    let start = p.progress(Seq::empty());
    let s1 = start.with_keyframes(inputs);
    let s2 = s1.with_rebuild(inputs);
    let s3 = s2.with_verifier(inputs);
    let s4 = s3.with_bitrate(inputs);
    reveal_with_fuel(rebuilds_started, 8);
    assert(rebuilds_started(s1.actions) == 0) by {
        if inputs.keyframe_requested && inputs.force_keyframe {
            let a = start.actions.push(PipelineAction::RequestKeyframe);
            assert(a.drop_last() == start.actions);
            assert(s1.actions.drop_last() == a);
        } else if inputs.keyframe_requested || inputs.force_keyframe {
            assert(s1.actions.drop_last() == start.actions);
        }
    }
    assert(rebuilds_started(s2.actions) == 0) by {
        let a = s1.actions.push(PipelineAction::SwapEncoder);
        assert(a.drop_last() == s1.actions);
        assert(a.push(PipelineAction::RequestKeyframe).drop_last() == a);
        assert(s1.actions.push(
            PipelineAction::ResetClients(s1.config.bitrate_kbps),
        ).drop_last() == s1.actions);
    }
    assert(s2.actions.push(PipelineAction::StartRebuild(s2.config)).drop_last() == s2.actions);
    assert(s3.actions.push(PipelineAction::StartRebuild(s3.next_config(inputs))).drop_last()
        == s3.actions);
    assert(s3.actions.push(PipelineAction::UpdateInPlace(s3.next_config(inputs))).drop_last()
        == s3.actions);
}

/// What the pipeline publishes is the stream of the encoder in use, and a frame
/// publishes only where the frame rate changes.
pub proof fn published_stream_is_current(p: Pipeline, inputs: FrameInputs)
    ensures
        ({
            let after = p.progress(Seq::empty()).before_encode(inputs);
            &&& after.shared == p.shared || after.shared == p.shared.published(
                stream_of(after.config),
            )
            &&& after.shared != p.shared ==> after.config.framerate != p.config.framerate
        }),
{
}

/// Every encoder that takes over starts with a keyframe.
pub proof fn swapped_encoder_starts_with_keyframe(p: Pipeline, inputs: FrameInputs, i: int)
    requires
        0 <= i < p.progress(Seq::empty()).before_encode(inputs).actions.len(),
        p.progress(Seq::empty()).before_encode(inputs).actions[i] is SwapEncoder,
    ensures
        i + 1 < p.progress(Seq::empty()).before_encode(inputs).actions.len(),
        p.progress(Seq::empty()).before_encode(inputs).actions[i + 1] is RequestKeyframe,
{
}

/// Where the captured frame lies.
#[derive(Clone, Copy, Debug, PartialEq, Eq, Structural)]
pub enum FrameStore {
    Ram,
    /// A Direct3D texture.
    Texture,
    /// A DMA buffer on the GPU.
    DmaBuf,
}

/// How the cursor gets into the picture.
#[derive(Clone, Copy, Debug, PartialEq, Eq, Structural)]
pub enum CursorComposite {
    /// Not at all.
    Leave,
    /// Onto a copy of the frame.
    OntoCopy,
    /// Onto a copy that is read back from the GPU; where that fails, not at all.
    OntoReadback,
}

/// How the cursor gets into the picture: only where nobody controls the input and
/// clients do not draw the cursor themselves.
pub fn composite_plan(
    control_active: bool,
    separate_cursor: bool,
    has_cursor: bool,
    store: FrameStore,
) -> (plan: CursorComposite)
    ensures
        plan == (if control_active || separate_cursor || !has_cursor || store
            == FrameStore::Texture {
            CursorComposite::Leave
        } else if store == FrameStore::Ram {
            CursorComposite::OntoCopy
        } else {
            CursorComposite::OntoReadback
        }),
{
    if !control_active && !separate_cursor && has_cursor {
        match store {
            FrameStore::Ram => CursorComposite::OntoCopy,
            FrameStore::Texture => CursorComposite::Leave,
            FrameStore::DmaBuf => CursorComposite::OntoReadback,
        }
    } else {
        CursorComposite::Leave
    }
}

/// What an encoder puts out.
pub struct EncodedUnit {
    pub data: Vec<u8>,
    pub is_recovery: bool,
}

/// An encoded unit on its way to the clients.
pub struct EncodedVideoFrame {
    pub data: Vec<u8>,
    pub capture_micros: u64,
    pub source_seq: u64,
    pub is_recovery: bool,
}

/// The next number of the sequence, which starts over behind its last value.
pub open spec fn seq_after(seq: u64, steps: nat) -> u64
    decreases steps,
{
    if steps == 0 {
        seq
    } else {
        let before = seq_after(seq, (steps - 1) as nat);
        if before < u64::MAX {
            (before + 1) as u64
        } else {
            0
        }
    }
}

/// Takes the next number of the sequence.
pub fn next_encoded_video_unit_seq(counter: &mut u64) -> (seq: u64)
    ensures
        seq == *old(counter),
        *final(counter) == seq_after(*old(counter), 1),
{
    let seq: u64 = *counter;
    *counter = counter.wrapping_add(1);
    proof {
        reveal_with_fuel(seq_after, 2);
    }
    seq
}

/// The total number of bytes.
pub open spec fn total_bytes(units: Seq<EncodedUnit>) -> nat
    decreases units.len(),
{
    if units.len() == 0 {
        0
    } else {
        total_bytes(units.drop_last()) + units.last().data@.len()
    }
}

proof fn lemma_total_prefix(units: Seq<EncodedUnit>, k: int)
    requires
        0 <= k <= units.len(),
    ensures
        total_bytes(units.subrange(0, k)) <= total_bytes(units),
    decreases units.len() - k,
{
    if k == units.len() {
        assert(units.subrange(0, k) == units);
    } else {
        lemma_total_prefix(units, k + 1);
        assert(units.subrange(0, k + 1).drop_last() == units.subrange(0, k));
    }
}

/// Numbers the units of one captured frame for the clients and counts their bytes.
pub fn number_units(units: &Vec<EncodedUnit>, capture_micros: u64, counter: &mut u64) -> (out: (
    Vec<EncodedVideoFrame>,
    usize,
))
    requires
        total_bytes(units@) <= usize::MAX,
    ensures
        out.1 == total_bytes(units@),
        out.0@.len() == units@.len(),
        *final(counter) == seq_after(*old(counter), units@.len()),
        forall|i: int|
            0 <= i < units@.len() ==> {
                let f = #[trigger] out.0@[i];
                &&& f.data@ == units@[i].data@
                &&& f.is_recovery == units@[i].is_recovery
                &&& f.capture_micros == capture_micros
                &&& f.source_seq == seq_after(*old(counter), i as nat)
            },
{
    let mut frames: Vec<EncodedVideoFrame> = Vec::new();
    let mut bytes: usize = 0;
    let mut i: usize = 0;
    let ghost start = *counter;
    proof {
        assert(units@.subrange(0, 0).len() == 0);
    }
    while i < units.len()
        invariant
            i <= units@.len(),
            total_bytes(units@) <= usize::MAX,
            bytes == total_bytes(units@.subrange(0, i as int)),
            frames@.len() == i,
            *counter == seq_after(start, i as nat),
            forall|k: int|
                0 <= k < i ==> {
                    let f = #[trigger] frames@[k];
                    &&& f.data@ == units@[k].data@
                    &&& f.is_recovery == units@[k].is_recovery
                    &&& f.capture_micros == capture_micros
                    &&& f.source_seq == seq_after(start, k as nat)
                },
        decreases units@.len() - i,
    {
        proof {
            lemma_total_prefix(units@, i + 1);
            assert(units@.subrange(0, i + 1).drop_last() == units@.subrange(0, i as int));
            reveal_with_fuel(seq_after, 2);
        }
        bytes = bytes + units[i].data.len();
        let source_seq: u64 = next_encoded_video_unit_seq(counter);
        frames.push(
            EncodedVideoFrame {
                data: vstd::slice::slice_to_vec(units[i].data.as_slice()),
                capture_micros,
                source_seq,
                is_recovery: units[i].is_recovery,
            },
        );
        i = i + 1;
    }
    proof {
        assert(units@.subrange(0, i as int) == units@);
    }
    (frames, bytes)
}

} // verus!
