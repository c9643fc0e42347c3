//! How a client gets into the stream: whether it can take part, and what it is told.

use vstd::prelude::*;
use crate::config::{client_display_fps_hint, fps_hint, tunnel_fps_hint};
use crate::input::{ControllerState, InputCapabilities, InputCredential};
use crate::media::{
    chroma_label, client_hardware_video_codecs, client_hardware_yuv444_video_codecs,
    client_hdr_display, client_supported_video_codecs, client_supported_yuv444_video_codecs,
    codec_label, codec_name, encoder_chroma_name, ChromaSampling, ClientDisplayInfo,
    VideoCodecSupport,
};
use crate::messages::{all_said, Said, ServerMessage};
use crate::pipeline::{OutputInfo, StreamConfig};
use crate::pipeline_start::SessionDebugInfo;
use crate::session::Link;
use crate::text::concat3;

verus! {

/// The pipeline as a client that connects finds it.
#[derive(Clone, Copy, Debug, PartialEq, Eq, Structural)]
pub struct RunningPipeline {
    pub stream: StreamConfig,
    /// That its thread has ended.
    pub finished: bool,
}

/// What the pipeline is started with: the wishes of the client that starts it.
#[derive(Clone, Copy, Debug, PartialEq, Eq, Structural)]
pub struct StartRequest {
    pub fps: Option<u32>,
    pub supported: VideoCodecSupport,
    pub hardware: VideoCodecSupport,
    pub supported_yuv444: VideoCodecSupport,
    pub hardware_yuv444: VideoCodecSupport,
    pub hdr_display: bool,
}

/// How a client gets into the stream.
#[derive(Debug)]
pub enum SetupPlan {
    /// Start the pipeline, once a dead one is out of the way.
    Start { stop_dead: bool, request: StartRequest },
    /// Subscribe to the one that runs.
    Join,
    Refuse(String),
}

/// The same as a value of mathematics.
pub ghost enum SetupView {
    Start { stop_dead: bool, request: StartRequest },
    Join,
    Refuse(Seq<char>),
}

impl View for SetupPlan {
    type V = SetupView;

    open spec fn view(&self) -> SetupView {
        match self {
            SetupPlan::Start { stop_dead, request } => SetupView::Start {
                stop_dead: *stop_dead,
                request: *request,
            },
            SetupPlan::Join => SetupView::Join,
            SetupPlan::Refuse(text) => SetupView::Refuse(text@),
        }
    }
}

/// The codecs that a client decodes: H.264 where it has not said.
pub open spec fn decodes(display: Option<ClientDisplayInfo>) -> VideoCodecSupport {
    match display {
        Some(info) => info.supported_video_codecs,
        None => VideoCodecSupport { h264: true, hevc: false, av1: false },
    }
}

/// The codecs that a client decodes with full colour: none where it has not said.
pub open spec fn decodes_yuv444(display: Option<ClientDisplayInfo>) -> VideoCodecSupport {
    match display {
        Some(info) => info.supported_yuv444_video_codecs,
        None => VideoCodecSupport { h264: false, hevc: false, av1: false },
    }
}

/// The wishes of a client.
pub open spec fn wishes(link: Link, display: Option<ClientDisplayInfo>) -> StartRequest {
    let none = VideoCodecSupport { h264: false, hevc: false, av1: false };
    match display {
        Some(info) => StartRequest {
            fps: match link {
                Link::Direct => fps_hint(info.max_refresh_millihz),
                Link::Tunnel { .. } => if info.max_refresh_millihz > 0 {
                    Some((info.max_refresh_millihz / 1000) as u32)
                } else {
                    None
                },
            },
            supported: info.supported_video_codecs,
            hardware: info.hardware_video_codecs,
            supported_yuv444: info.supported_yuv444_video_codecs,
            hardware_yuv444: info.hardware_yuv444_video_codecs,
            hdr_display: info.hdr_display,
        },
        None => StartRequest {
            fps: None,
            supported: decodes(display),
            hardware: none,
            supported_yuv444: none,
            hardware_yuv444: none,
            hdr_display: false,
        },
    }
}

/// Why a client cannot take part in a stream, where it cannot.
pub open spec fn refusal(link: Link, stream: StreamConfig, display: Option<ClientDisplayInfo>) -> Option<
    Seq<char>,
> {
    if !decodes(display).has(stream.codec) {
        Some(
            match link {
                Link::Direct => "Active stream codec '"@ + codec_label(stream.codec)
                    + "' is not supported by this client"@,
                Link::Tunnel { .. } => "Active stream codec '"@ + codec_label(stream.codec)
                    + "' not supported by punched client"@,
            },
        )
    } else if stream.chroma == ChromaSampling::Yuv444 && !decodes_yuv444(display).has(stream.codec) {
        Some(
            match link {
                Link::Direct => "Active stream chroma '"@ + chroma_label(stream.chroma)
                    + "' is not supported by this client for codec '"@ + codec_label(stream.codec)
                    + "'"@,
                Link::Tunnel { .. } => "Active stream chroma '"@ + chroma_label(stream.chroma)
                    + "' not supported by punched client for codec '"@ + codec_label(stream.codec)
                    + "'"@,
            },
        )
    } else {
        None
    }
}

/// How a client gets into the stream.
pub open spec fn planned(
    link: Link,
    pipeline: Option<RunningPipeline>,
    display: Option<ClientDisplayInfo>,
) -> SetupView {
    match pipeline {
        Some(p) => if p.finished {
            SetupView::Start { stop_dead: true, request: wishes(link, display) }
        } else {
            match refusal(link, p.stream, display) {
                Some(text) => SetupView::Refuse(text),
                None => SetupView::Join,
            }
        },
        None => SetupView::Start { stop_dead: false, request: wishes(link, display) },
    }
}

fn start_request(link: Link, display: Option<ClientDisplayInfo>) -> (out: StartRequest)
    ensures
        out == wishes(link, display),
{
    let fps: Option<u32> = match link {
        Link::Direct => client_display_fps_hint(display),
        Link::Tunnel { .. } => match &display {
            Some(info) => tunnel_fps_hint(info),
            None => None,
        },
    };
    let supported = client_supported_video_codecs(display);
    let hardware = client_hardware_video_codecs(display);
    let supported_yuv444 = client_supported_yuv444_video_codecs(display);
    let hardware_yuv444 = client_hardware_yuv444_video_codecs(display);
    proof {
        if display is None {
            lemma_support(supported, decodes(display));
            lemma_support(hardware, decodes_yuv444(display));
            lemma_support(supported_yuv444, decodes_yuv444(display));
            lemma_support(hardware_yuv444, decodes_yuv444(display));
        }
    }
    StartRequest {
        fps,
        supported,
        hardware,
        supported_yuv444,
        hardware_yuv444,
        hdr_display: client_hdr_display(display),
    }
}

proof fn lemma_support(a: VideoCodecSupport, b: VideoCodecSupport)
    requires
        forall|c: crate::media::VideoCodec| a.has(c) == b.has(c),
    ensures
        a == b,
{
    assert(a.has(crate::media::VideoCodec::H264) == b.has(crate::media::VideoCodec::H264));
    assert(a.has(crate::media::VideoCodec::Hevc) == b.has(crate::media::VideoCodec::Hevc));
    assert(a.has(crate::media::VideoCodec::Av1) == b.has(crate::media::VideoCodec::Av1));
}

/// How a client gets into the stream: it joins the one that runs if it can decode it, and
/// starts it where none runs.
pub fn plan_setup(
    link: Link,
    pipeline: Option<RunningPipeline>,
    display: Option<ClientDisplayInfo>,
) -> (plan: SetupPlan)
    ensures
        plan@ == planned(link, pipeline, display),
{
    let request = start_request(link, display);
    let running: RunningPipeline = match pipeline {
        Some(p) => p,
        None => {
            return SetupPlan::Start { stop_dead: false, request };
        },
    };
    if running.finished {
        return SetupPlan::Start { stop_dead: true, request };
    }
    let stream = running.stream;
    let direct: bool = matches!(link, Link::Direct);
    if !request.supported.supports(stream.codec) {
        let name = codec_name(stream.codec);
        return SetupPlan::Refuse(
            if direct {
                concat3("Active stream codec '", name, "' is not supported by this client")
            } else {
                concat3("Active stream codec '", name, "' not supported by punched client")
            },
        );
    }
    if stream.chroma == ChromaSampling::Yuv444 && !request.supported_yuv444.supports(stream.codec) {
        let name = encoder_chroma_name(stream.chroma);
        let mut text = if direct {
            concat3(
                "Active stream chroma '",
                name,
                "' is not supported by this client for codec '",
            )
        } else {
            concat3("Active stream chroma '", name, "' not supported by punched client for codec '")
        };
        text.append(codec_name(stream.codec));
        text.append("'");
        return SetupPlan::Refuse(text);
    }
    SetupPlan::Join
}

/// A client joins a stream only if it decodes it, and one that decodes it is never refused.
pub proof fn joining_means_decoding(
    link: Link,
    p: RunningPipeline,
    display: Option<ClientDisplayInfo>,
)
    requires
        !p.finished,
    ensures
        planned(link, Some(p), display) is Join <==> {
            &&& decodes(display).has(p.stream.codec)
            &&& p.stream.chroma == ChromaSampling::Yuv444 ==> decodes_yuv444(display).has(
                p.stream.codec,
            )
        },
        planned(link, Some(p), display) !is Start,
{
}

/// What a client is told of the stream that it gets into.
#[derive(Debug)]
pub struct StreamOffer {
    /// The stream as the pipeline started with it.
    pub stream: StreamConfig,
    /// The stream after the last change, where there was one.
    pub updated: Option<StreamConfig>,
    pub debug: SessionDebugInfo,
    pub client_id: u32,
    pub credential: InputCredential,
    pub capabilities: InputCapabilities,
    pub controller: ControllerState,
    pub selected_output: u32,
}

/// The stream as it is now.
pub open spec fn current_stream(offer: StreamOffer) -> StreamConfig {
    match offer.updated {
        Some(config) => config,
        None => offer.stream,
    }
}

/// What a client is told first, in order. The outputs are worth a word only where there is
/// a choice.
pub open spec fn welcome(offer: StreamOffer, outputs: Vec<OutputInfo>) -> Seq<Said> {
    let first = seq![
        Said::Message(ServerMessage::StreamConfig(current_stream(offer))),
        Said::Message(ServerMessage::SessionDebugInfo(offer.debug)),
        Said::Message(
            ServerMessage::InputSession {
                client_id: offer.client_id,
                credential: offer.credential,
            },
        ),
        Said::Message(ServerMessage::InputCapabilities(offer.capabilities)),
        Said::Message(ServerMessage::ControllerState(offer.controller)),
    ];
    if outputs@.len() > 1 {
        first + seq![
            Said::Message(ServerMessage::AvailableOutputs(outputs)),
            Said::Message(ServerMessage::SelectOutput(offer.selected_output)),
        ]
    } else {
        first
    }
}

/// What a client is told first, in order.
pub fn startup_bundle(offer: StreamOffer, outputs: Vec<OutputInfo>) -> (out: Vec<ServerMessage>)
    ensures
        all_said(out@) == welcome(offer, outputs),
{
    let ghost given = offer;
    let ghost given_outputs = outputs;
    let stream = match offer.updated {
        Some(config) => config,
        None => offer.stream,
    };
    let mut out: Vec<ServerMessage> = Vec::new();
    out.push(ServerMessage::StreamConfig(stream));
    out.push(ServerMessage::SessionDebugInfo(offer.debug));
    out.push(
        ServerMessage::InputSession { client_id: offer.client_id, credential: offer.credential },
    );
    out.push(ServerMessage::InputCapabilities(offer.capabilities));
    out.push(ServerMessage::ControllerState(offer.controller));
    if outputs.len() > 1 {
        out.push(ServerMessage::AvailableOutputs(outputs));
        out.push(ServerMessage::SelectOutput(offer.selected_output));
    }
    proof {
        assert(all_said(out@) =~= welcome(given, given_outputs));
    }
    out
}

/// A client that comes after a change of the stream is told of the stream as it is, not as
/// it was.
pub proof fn late_clients_learn_the_current_stream(
    offer: StreamOffer,
    outputs: Vec<OutputInfo>,
    config: StreamConfig,
)
    requires
        offer.updated == Some(config),
    ensures
        welcome(offer, outputs)[0] == Said::Message(ServerMessage::StreamConfig(config)),
{
}

/// Who watches the stream, by the numbers of their subscriptions.
#[derive(Debug)]
pub struct Viewers {
    /// That the pipeline runs.
    pub running: bool,
    pub ids: Vec<u64>,
}

impl Viewers {
    pub open spec fn wf(self) -> bool {
        &&& self.ids@.no_duplicates()
        &&& self.ids@.len() > 0 ==> self.running
    }

    /// Nobody, and no pipeline.
    pub fn new() -> (out: Self)
        ensures
            out.wf(),
            !out.running,
            out.ids@.len() == 0,
    {
        Viewers { running: false, ids: Vec::new() }
    }

    /// Takes in that the pipeline was started for a first viewer.
    pub fn started(&mut self, id: u64)
        requires
            old(self).wf(),
            old(self).ids@.len() == 0,
        ensures
            final(self).wf(),
            final(self).running,
            final(self).ids@ == seq![id],
    {
        self.running = true;
        self.ids.push(id);
        proof {
            assert(self.ids@ =~= seq![id]);
        }
    }

    /// Takes in one more viewer of the pipeline that runs.
    pub fn joined(&mut self, id: u64)
        requires
            old(self).wf(),
            old(self).running,
            !old(self).ids@.contains(id),
        ensures
            final(self).wf(),
            final(self).running,
            final(self).ids@ == old(self).ids@.push(id),
    {
        proof {
            let ghost before = self.ids@;
            assert(before.push(id).no_duplicates()) by {
                assert forall|i: int, j: int|
                    0 <= i < before.len() + 1 && 0 <= j < before.len() + 1 && i
                        != j implies before.push(id)[i] != before.push(id)[j] by {
                    if i < before.len() {
                        assert(before.contains(before[i]));
                    }
                    if j < before.len() {
                        assert(before.contains(before[j]));
                    }
                }
            }
        }
        self.ids.push(id);
    }

    /// Takes out a viewer; `true` says that the pipeline is to be stopped, because nobody
    /// is left.
    pub fn unsubscribe_and_maybe_stop_pipeline(&mut self, id: u64) -> (stop: bool)
        requires
            old(self).wf(),
        ensures
            final(self).wf(),
            stop == (old(self).running && forall|i: int|
                0 <= i < old(self).ids@.len() ==> #[trigger] old(self).ids@[i] == id),
            final(self).running == (old(self).running && !stop),
            forall|v: u64| #[trigger] final(self).ids@.contains(v) <==> old(self).ids@.contains(v) && v != id,
    {
        let ghost before = self.ids@;
        if !self.running {
            proof {
                assert(before.len() == 0);
            }
            return false;
        }
        let mut i: usize = 0;
        while i < self.ids.len() && self.ids[i] != id
            invariant
                i <= self.ids@.len(),
                self.ids@ == before,
                forall|k: int| 0 <= k < i ==> before[k] != id,
            decreases self.ids@.len() - i,
        {
            i = i + 1;
        }
        if i < self.ids.len() {
            let _ = self.ids.remove(i);
            proof {
                let ghost after = self.ids@;
                assert(after == before.remove(i as int));
                assert forall|v: u64| #[trigger] after.contains(v) <==> before.contains(v) && v
                    != id by {
                    if after.contains(v) {
                        let k = choose|k: int| 0 <= k < after.len() && after[k] == v;
                        if k < i {
                            assert(before[k] == v);
                        } else {
                            assert(before[k + 1] == v);
                            assert(before[i as int] == id);
                        }
                    }
                    if before.contains(v) && v != id {
                        let k = choose|k: int| 0 <= k < before.len() && before[k] == v;
                        if k < i {
                            assert(after[k] == v);
                        } else {
                            assert(after[k - 1] == v);
                        }
                    }
                }
            }
        }
        if self.ids.len() == 0 {
            self.running = false;
            proof {
                assert forall|k: int| 0 <= k < before.len() implies #[trigger] before[k] == id by {
                    if before[k] != id {
                        assert(before.contains(before[k]));
                        assert(self.ids@.contains(before[k]));
                    }
                }
            }
            true
        } else {
            proof {
                let ghost v = self.ids@[0];
                assert(self.ids@.contains(v));
                assert(before.contains(v) && v != id);
                let k = choose|k: int| 0 <= k < before.len() && before[k] == v;
                assert(before[k] != id);
            }
            false
        }
    }
}

/// What the server does with a new connection.
#[derive(Debug)]
pub enum AcceptStep {
    Serve,
    /// Send this error and hang up.
    Refuse(&'static str),
}

/// What the server does with a new connection: nothing but an error while it takes none.
pub fn accept_connection(allow_new_connections: bool) -> (step: AcceptStep)
    ensures
        match step {
            AcceptStep::Serve => allow_new_connections,
            AcceptStep::Refuse(text) => !allow_new_connections && text@
                == "Server is currently blocking new connections."@,
        },
{
    if allow_new_connections {
        AcceptStep::Serve
    } else {
        AcceptStep::Refuse("Server is currently blocking new connections.")
    }
}

} // verus!
