//! Which encoder a session gets.
//!
//! A plan lists, in order, the encoders that may be opened for a client and the
//! reasons for which others are left out. A [`Selection`] walks the plan: it says
//! which encoder to open next, takes in how that went, and names the winner or
//! the failure in the end. Opening an encoder is up to the caller.

use vstd::prelude::*;
use crate::encode_win::WindowsEncoderBackend;
use crate::media::{
    codec_name, encoder_chroma_name, supports_yuv444_codec, ChromaSampling, DynamicRange,
    EncoderConfig, Quality, VideoCodec, VideoCodecSupport,
};
use crate::text::{concat2, concat3, join};

verus! {

/// The implementation behind an open encoder.
#[derive(Clone, Copy, Debug, PartialEq, Eq, Structural)]
pub enum EncoderBackend {
    Vaapi,
    Nvenc,
    Amf,
    MediaFoundation,
    Software,
}

/// What to open.
#[derive(Clone, Copy, Debug, PartialEq, Eq, Structural)]
pub enum EncodeTarget {
    /// VAAPI, then NVENC, then software.
    LinuxChain,
    /// A hardware encoder on the adapter that captures.
    Hardware(WindowsEncoderBackend),
    /// A hardware encoder on another adapter, by its place in the list of those.
    CrossAdapter(usize, WindowsEncoderBackend),
    Software,
    /// VideoToolbox, with its bitrate in bits per second.
    VideoToolbox(u32),
}

/// One encoder that may be opened.
pub struct Attempt {
    /// Attempts of one group compete with each other.
    pub group: usize,
    pub config: EncoderConfig,
    pub target: EncodeTarget,
    /// What a failure report says before the error.
    pub failure_prefix: String,
}

/// A line of the plan.
pub enum PlanEntry {
    /// Nothing to open; the text is the reason.
    Skip(String),
    Try(Attempt),
}

/// What a line of the plan says.
pub ghost enum EntryView {
    Skip(Seq<char>),
    Try(nat, EncoderConfig, EncodeTarget, Seq<char>),
}

impl View for PlanEntry {
    type V = EntryView;

    open spec fn view(&self) -> EntryView {
        match self {
            PlanEntry::Skip(reason) => EntryView::Skip(reason@),
            PlanEntry::Try(a) => EntryView::Try(
                a.group as nat,
                a.config,
                a.target,
                a.failure_prefix@,
            ),
        }
    }
}

pub open spec fn entry_views(plan: Seq<PlanEntry>) -> Seq<EntryView> {
    Seq::new(plan.len(), |i: int| plan[i]@)
}

/// How much an encoder is worth: hardware 4:4:4 first, then hardware, then what
/// the client decodes in hardware, then the newer codec.
pub open spec fn selection_score(
    codec: VideoCodec,
    chroma: ChromaSampling,
    backend: EncoderBackend,
    client_hardware_codecs: VideoCodecSupport,
) -> (u8, u8, u8, u8) {
    let hardware = backend == EncoderBackend::Vaapi || backend == EncoderBackend::Nvenc;
    (
        if chroma == ChromaSampling::Yuv444 && hardware {
            1
        } else {
            0
        },
        if hardware {
            1
        } else {
            0
        },
        if client_hardware_codecs.has(codec) {
            1
        } else {
            0
        },
        match codec {
            VideoCodec::H264 => 0,
            VideoCodec::Hevc => 1,
            VideoCodec::Av1 => 2,
        },
    )
}

pub fn codec_selection_score(
    codec: VideoCodec,
    chroma: ChromaSampling,
    backend: EncoderBackend,
    client_hardware_codecs: VideoCodecSupport,
) -> (score: (u8, u8, u8, u8))
    ensures
        score == selection_score(codec, chroma, backend, client_hardware_codecs),
{
    let hardware = match backend {
        EncoderBackend::Vaapi | EncoderBackend::Nvenc => true,
        _ => false,
    };
    let hardware_yuv444_rank: u8 = if chroma == ChromaSampling::Yuv444 && hardware {
        1
    } else {
        0
    };
    let backend_rank: u8 = if hardware {
        1
    } else {
        0
    };
    let client_hw_rank: u8 = if client_hardware_codecs.supports(codec) {
        1
    } else {
        0
    };
    let codec_rank: u8 = match codec {
        VideoCodec::H264 => 0,
        VideoCodec::Hevc => 1,
        VideoCodec::Av1 => 2,
    };
    (hardware_yuv444_rank, backend_rank, client_hw_rank, codec_rank)
}

/// The order of scores: the first component in which they differ decides.
pub open spec fn score_above(x: (u8, u8, u8, u8), y: (u8, u8, u8, u8)) -> bool {
    ||| x.0 > y.0
    ||| x.0 == y.0 && x.1 > y.1
    ||| x.0 == y.0 && x.1 == y.1 && x.2 > y.2
    ||| x.0 == y.0 && x.1 == y.1 && x.2 == y.2 && x.3 > y.3
}

fn score_is_above(x: (u8, u8, u8, u8), y: (u8, u8, u8, u8)) -> (above: bool)
    ensures
        above == score_above(x, y),
{
    if x.0 != y.0 {
        x.0 > y.0
    } else if x.1 != y.1 {
        x.1 > y.1
    } else if x.2 != y.2 {
        x.2 > y.2
    } else {
        x.3 > y.3
    }
}

/// The name of a backend in log lines.
pub open spec fn backend_label(backend: EncoderBackend) -> Seq<char> {
    match backend {
        EncoderBackend::Vaapi => "vaapi"@,
        EncoderBackend::Nvenc => "nvenc"@,
        EncoderBackend::Amf => "amf"@,
        EncoderBackend::MediaFoundation => "mf"@,
        EncoderBackend::Software => "software"@,
    }
}

/// The name of a backend in log lines.
pub fn encoder_backend_name(backend: EncoderBackend) -> (name: &'static str)
    ensures
        name@ == backend_label(backend),
{
    match backend {
        EncoderBackend::Vaapi => "vaapi",
        EncoderBackend::Nvenc => "nvenc",
        EncoderBackend::Amf => "amf",
        EncoderBackend::MediaFoundation => "mf",
        EncoderBackend::Software => "software",
    }
}

/// An encoder that is open.
#[derive(Clone, Copy, Debug, PartialEq, Eq, Structural)]
pub enum EncoderKind {
    Vaapi,
    Nvenc,
    Hardware(WindowsEncoderBackend),
    Software,
}

/// The backend of an open encoder.
pub open spec fn backend_of(encoder: EncoderKind) -> EncoderBackend {
    match encoder {
        EncoderKind::Vaapi => EncoderBackend::Vaapi,
        EncoderKind::Nvenc => EncoderBackend::Nvenc,
        EncoderKind::Hardware(WindowsEncoderBackend::Nvenc) => EncoderBackend::Nvenc,
        EncoderKind::Hardware(WindowsEncoderBackend::Amf) => EncoderBackend::Amf,
        EncoderKind::Hardware(
            WindowsEncoderBackend::MediaFoundation,
        ) => EncoderBackend::MediaFoundation,
        EncoderKind::Software => EncoderBackend::Software,
    }
}

/// The backend of an open encoder.
pub fn encoder_backend(encoder: &EncoderKind) -> (backend: EncoderBackend)
    ensures
        backend == backend_of(*encoder),
{
    match encoder {
        EncoderKind::Vaapi => EncoderBackend::Vaapi,
        EncoderKind::Nvenc => EncoderBackend::Nvenc,
        EncoderKind::Hardware(backend) => match backend {
            WindowsEncoderBackend::Nvenc => EncoderBackend::Nvenc,
            WindowsEncoderBackend::Amf => EncoderBackend::Amf,
            WindowsEncoderBackend::MediaFoundation => EncoderBackend::MediaFoundation,
        },
        EncoderKind::Software => EncoderBackend::Software,
    }
}

/// The name of an open encoder: that of its backend.
pub fn encoder_name(encoder: &EncoderKind) -> (name: &'static str)
    ensures
        name@ == backend_label(backend_of(*encoder)),
{
    match encoder {
        EncoderKind::Vaapi => "vaapi",
        EncoderKind::Nvenc => "nvenc",
        EncoderKind::Hardware(backend) => backend.label(),
        EncoderKind::Software => "software",
    }
}

/// What happens when an encoder of a given backend is to be rebuilt.
pub enum RebuildStep {
    /// Open it; a failure is reported as this text followed by the error.
    Open(EncoderBackend, &'static str),
    /// It cannot be rebuilt; the text says why.
    Refused(&'static str),
}

/// How an encoder is rebuilt with new settings, on Linux (`windows == false`) and
/// on Windows.
///
/// A Windows hardware encoder lives on the capture device and is not rebuilt alone.
pub fn create_encoder_for_backend(backend: EncoderBackend, windows: bool) -> (step: RebuildStep)
    requires
        windows ==> backend != EncoderBackend::Vaapi,
        !windows ==> backend != EncoderBackend::Amf && backend != EncoderBackend::MediaFoundation,
    ensures
        match step {
            RebuildStep::Open(b, prefix) => {
                &&& b == backend
                &&& !windows || backend == EncoderBackend::Software
                &&& prefix@ == (match backend {
                    EncoderBackend::Vaapi => "VAAPI reconfigure failed: "@,
                    EncoderBackend::Nvenc => "NVENC reconfigure failed: "@,
                    _ => "software reconfigure failed: "@,
                })
            },
            RebuildStep::Refused(reason) => {
                &&& windows && backend != EncoderBackend::Software
                &&& reason@
                    == "Windows hardware encoder rebuild requires a live D3D11 capture context"@
            },
        },
{
    if windows {
        if backend == EncoderBackend::Software {
            RebuildStep::Open(backend, "software reconfigure failed: ")
        } else {
            RebuildStep::Refused(
                "Windows hardware encoder rebuild requires a live D3D11 capture context",
            )
        }
    } else {
        match backend {
            EncoderBackend::Vaapi => RebuildStep::Open(backend, "VAAPI reconfigure failed: "),
            EncoderBackend::Nvenc => RebuildStep::Open(backend, "NVENC reconfigure failed: "),
            _ => RebuildStep::Open(backend, "software reconfigure failed: "),
        }
    }
}

/// The next step of the Linux chain.
pub enum ChainStep {
    Open(EncoderBackend),
    Failed(String),
}

/// Which backend the Linux chain opens after the given failures, one text each.
///
/// VAAPI comes first, then NVENC, then software; with all three gone the chain
/// fails and reports each error.
pub fn create_linux_encoder_with_hint(errors: &Vec<String>) -> (step: ChainStep)
    requires
        errors@.len() <= 3,
    ensures
        match step {
            ChainStep::Open(backend) => {
                &&& errors@.len() < 3
                &&& backend == (if errors@.len() == 0 {
                    EncoderBackend::Vaapi
                } else if errors@.len() == 1 {
                    EncoderBackend::Nvenc
                } else {
                    EncoderBackend::Software
                })
            },
            ChainStep::Failed(message) => {
                &&& errors@.len() == 3
                &&& message@ == "All encoders failed.\n  VAAPI: "@ + errors@[0]@ + "\n  NVENC: "@
                    + errors@[1]@ + "\n  Software: "@ + errors@[2]@
            },
        },
{
    if errors.len() == 0 {
        ChainStep::Open(EncoderBackend::Vaapi)
    } else if errors.len() == 1 {
        ChainStep::Open(EncoderBackend::Nvenc)
    } else if errors.len() == 2 {
        ChainStep::Open(EncoderBackend::Software)
    } else {
        let mut message = concat3(
            "All encoders failed.\n  VAAPI: ",
            errors[0].as_str(),
            "\n  NVENC: ",
        );
        message.append(errors[1].as_str());
        message.append("\n  Software: ");
        message.append(errors[2].as_str());
        ChainStep::Failed(message)
    }
}

/// What the Linux plan depends on besides the base settings.
#[derive(Clone, Copy, Debug)]
pub struct LinuxSelectParams {
    pub client_supported_codecs: VideoCodecSupport,
    pub client_supported_yuv444_codecs: VideoCodecSupport,
    pub client_hardware_yuv444_codecs: VideoCodecSupport,
    pub client_hdr_display: bool,
    pub forced_quality: Option<Quality>,
    pub preferred_chroma: Option<ChromaSampling>,
}

/// The chroma formats to try for a codec, best first.
pub open spec fn chroma_candidates(
    codec: VideoCodec,
    hdr: bool,
    params: LinuxSelectParams,
) -> Seq<ChromaSampling> {
    match params.preferred_chroma {
        Some(chroma) => seq![chroma],
        None => if !hdr && yuv444_offered(codec, params) {
            seq![ChromaSampling::Yuv444, ChromaSampling::Yuv420]
        } else {
            seq![ChromaSampling::Yuv420]
        },
    }
}

pub open spec fn yuv444_offered(codec: VideoCodec, params: LinuxSelectParams) -> bool {
    &&& crate::media::yuv444_codec(codec)
    &&& params.client_supported_yuv444_codecs.has(codec)
    &&& params.client_hardware_yuv444_codecs.has(codec)
}

/// The chroma formats to try for the codec of `base_config`, best first.
pub fn linux_chroma_candidates(base_config: &EncoderConfig, params: &LinuxSelectParams) -> (out:
    Vec<ChromaSampling>)
    ensures
        out@ == chroma_candidates(base_config.codec, base_config.hdr(), *params),
{
    let codec = base_config.codec;
    let mut out: Vec<ChromaSampling> = Vec::new();
    match params.preferred_chroma {
        Some(chroma) => {
            out.push(chroma);
        },
        None => {
            if !base_config.is_hdr() && supports_yuv444_codec(codec)
                && params.client_supported_yuv444_codecs.supports(codec)
                && params.client_hardware_yuv444_codecs.supports(codec) {
                out.push(ChromaSampling::Yuv444);
            }
            out.push(ChromaSampling::Yuv420);
        },
    }
    out
}

/// The settings for a codec once a forced quality and the client's display have
/// had their say: HDR needs both the server's wish and the client's display.
pub open spec fn gated_config(base: EncoderConfig, params: LinuxSelectParams) -> EncoderConfig {
    let chosen = match params.forced_quality {
        Some(quality) => EncoderConfig { quality, ..base },
        None => base,
    };
    if chosen.hdr() && !params.client_hdr_display {
        EncoderConfig { dynamic_range: DynamicRange::Sdr, ..chosen }
    } else {
        chosen
    }
}

fn gate_config(base: EncoderConfig, params: &LinuxSelectParams) -> (out: EncoderConfig)
    ensures
        out == gated_config(base, *params),
{
    let mut config = base;
    match params.forced_quality {
        Some(quality) => {
            config.quality = quality;
        },
        None => {},
    }
    if config.is_hdr() && !params.client_hdr_display {
        config.dynamic_range = DynamicRange::Sdr;
    }
    config
}

/// The line of the plan for one codec in one chroma format.
pub open spec fn linux_entry(
    group: nat,
    config: EncoderConfig,
    chroma: ChromaSampling,
    params: LinuxSelectParams,
) -> EntryView {
    let label = crate::media::codec_label(config.codec);
    if chroma == ChromaSampling::Yuv444 && !crate::media::yuv444_codec(config.codec) {
        EntryView::Skip(label + " yuv444 skipped: codec profile is not implemented"@)
    } else if chroma == ChromaSampling::Yuv444 && !params.client_supported_yuv444_codecs.has(
        config.codec,
    ) {
        EntryView::Skip(label + " yuv444 skipped: client does not support it"@)
    } else {
        EntryView::Try(
            group,
            EncoderConfig { chroma, ..config },
            EncodeTarget::LinuxChain,
            label + " "@ + crate::media::chroma_label(chroma) + " failed: "@,
        )
    }
}

/// The lines of the plan for one codec.
pub open spec fn linux_codec_entries(
    group: nat,
    base: EncoderConfig,
    params: LinuxSelectParams,
) -> Seq<EntryView> {
    let label = crate::media::codec_label(base.codec);
    if !params.client_supported_codecs.has(base.codec) {
        seq![EntryView::Skip(label + " skipped: client does not support it"@)]
    } else {
        let config = gated_config(base, params);
        let candidates = chroma_candidates(base.codec, config.hdr(), params);
        Seq::new(candidates.len(), |i: int| linux_entry(group, config, candidates[i], params))
    }
}

/// The whole Linux plan, for base settings in order of preference.
pub open spec fn linux_plan(bases: Seq<EncoderConfig>, params: LinuxSelectParams) -> Seq<
    EntryView,
>
    decreases bases.len(),
{
    if bases.len() == 0 {
        Seq::empty()
    } else {
        linux_plan(bases.drop_last(), params) + linux_codec_entries(
            (bases.len() - 1) as nat,
            bases.last(),
            params,
        )
    }
}

/// Builds the Linux plan from the base settings of each codec, in order of preference.
pub fn select_linux_encoder(bases: &Vec<EncoderConfig>, params: &LinuxSelectParams) -> (plan: Vec<
    PlanEntry,
>)
    ensures
        entry_views(plan@) == linux_plan(bases@, *params),
        groups_in_order(entry_views(plan@)),
{
    let mut plan: Vec<PlanEntry> = Vec::new();
    let mut group: usize = 0;
    proof {
        assert(entry_views(plan@) == linux_plan(bases@.subrange(0, 0), *params));
    }
    while group < bases.len()
        invariant
            group <= bases@.len(),
            entry_views(plan@) == linux_plan(bases@.subrange(0, group as int), *params),
        decreases bases@.len() - group,
    {
        let base = bases[group];
        let codec = base.codec;
        let ghost done = bases@.subrange(0, group as int);
        let ghost before = entry_views(plan@);
        proof {
            assert(bases@.subrange(0, group + 1).drop_last() == done);
        }
        if !params.client_supported_codecs.supports(codec) {
            plan.push(
                PlanEntry::Skip(
                    concat2(codec_name(codec), " skipped: client does not support it"),
                ),
            );
            proof {
                assert(entry_views(plan@) == before + linux_codec_entries(
                    group as nat,
                    base,
                    *params,
                ));
            }
        } else {
            let config = gate_config(base, params);
            let candidates = linux_chroma_candidates(&config, params);
            let mut i: usize = 0;
            while i < candidates.len()
                invariant
                    i <= candidates@.len(),
                    codec == config.codec,
                    entry_views(plan@) == before + Seq::new(
                        i as nat,
                        |k: int| linux_entry(group as nat, config, candidates@[k], *params),
                    ),
                decreases candidates@.len() - i,
            {
                let chroma = candidates[i];
                let ghost so_far = entry_views(plan@);
                let ghost entry = linux_entry(group as nat, config, chroma, *params);
                if chroma == ChromaSampling::Yuv444 && !supports_yuv444_codec(codec) {
                    plan.push(
                        PlanEntry::Skip(
                            concat2(
                                codec_name(codec),
                                " yuv444 skipped: codec profile is not implemented",
                            ),
                        ),
                    );
                } else if chroma == ChromaSampling::Yuv444
                    && !params.client_supported_yuv444_codecs.supports(codec) {
                    plan.push(
                        PlanEntry::Skip(
                            concat2(
                                codec_name(codec),
                                " yuv444 skipped: client does not support it",
                            ),
                        ),
                    );
                } else {
                    let mut failure_prefix = concat3(
                        codec_name(codec),
                        " ",
                        encoder_chroma_name(chroma),
                    );
                    failure_prefix.append(" failed: ");
                    plan.push(
                        PlanEntry::Try(
                            Attempt {
                                group,
                                config: config.with_chroma_sampling(chroma),
                                target: EncodeTarget::LinuxChain,
                                failure_prefix,
                            },
                        ),
                    );
                }
                proof {
                    assert(plan@.last()@ == entry);
                    assert(entry_views(plan@) == so_far.push(entry));
                    assert(entry_views(plan@) == before + Seq::new(
                        (i + 1) as nat,
                        |k: int| linux_entry(group as nat, config, candidates@[k], *params),
                    ));
                }
                i = i + 1;
            }
            proof {
                assert(entry_views(plan@) == before + linux_codec_entries(
                    group as nat,
                    base,
                    *params,
                ));
            }
        }
        group = group + 1;
    }
    proof {
        assert(bases@.subrange(0, group as int) == bases@);
        linux_plan_is_grouped(bases@, *params);
    }
    plan
}

/// A hardware encoder on an adapter that does not capture.
pub struct CrossAdapterBackend {
    pub backend: WindowsEncoderBackend,
    /// Its place among the graphics processors of the machine.
    pub adapter: usize,
    pub adapter_name: String,
}

/// What the Windows plan depends on besides the base settings.
pub struct WindowsSelectParams {
    pub client_supported_codecs: VideoCodecSupport,
    pub client_supported_yuv444_codecs: VideoCodecSupport,
    pub forced_quality: Option<Quality>,
    /// Whether the captured frames are textures on a GPU.
    pub hardware_capture: bool,
    /// The backends of the capturing adapter, in order of preference, or why
    /// they could not be told.
    pub hardware_backends: Result<Vec<WindowsEncoderBackend>, String>,
    pub cross_adapter_backends: Vec<CrossAdapterBackend>,
}

/// The base settings with a forced quality in place.
pub open spec fn with_quality(base: EncoderConfig, forced: Option<Quality>) -> EncoderConfig {
    match forced {
        Some(quality) => EncoderConfig { quality, ..base },
        None => base,
    }
}

fn apply_quality(base: EncoderConfig, forced: Option<Quality>) -> (out: EncoderConfig)
    ensures
        out == with_quality(base, forced),
{
    let mut config = base;
    match forced {
        Some(quality) => {
            config.quality = quality;
        },
        None => {},
    }
    config
}

/// The attempts on the capturing adapter; `at` is the place of the first in the plan.
pub open spec fn hardware_entries(
    at: nat,
    config: EncoderConfig,
    backends: Seq<WindowsEncoderBackend>,
) -> Seq<EntryView> {
    Seq::new(
        backends.len(),
        |i: int|
            EntryView::Try(
                (at + i) as nat,
                config,
                EncodeTarget::Hardware(backends[i]),
                crate::media::codec_label(config.codec) + " "@ + backends[i].label_text()
                    + " encode unavailable: "@,
            ),
    )
}

/// The attempts on other adapters; `at` is the place of the first in the plan.
pub open spec fn cross_entries(
    at: nat,
    config: EncoderConfig,
    others: Seq<CrossAdapterBackend>,
) -> Seq<EntryView> {
    Seq::new(
        others.len(),
        |i: int|
            EntryView::Try(
                (at + i) as nat,
                config,
                EncodeTarget::CrossAdapter(i as usize, others[i].backend),
                crate::media::codec_label(config.codec) + " "@ + others[i].backend.label_text()
                    + " cross-adapter ("@ + others[i].adapter_name@ + ") unavailable: "@,
            ),
    )
}

impl WindowsSelectParams {
    pub open spec fn usable_backends(self) -> Seq<WindowsEncoderBackend> {
        match self.hardware_backends {
            Ok(order) => if self.hardware_capture {
                order@
            } else {
                Seq::empty()
            },
            Err(_) => Seq::empty(),
        }
    }

    pub open spec fn usable_others(self) -> Seq<CrossAdapterBackend> {
        if self.hardware_capture {
            self.cross_adapter_backends@
        } else {
            Seq::empty()
        }
    }
}

/// The lines of the Windows plan for one codec; `at` is the place of the first.
pub open spec fn windows_codec_entries(
    at: nat,
    base: EncoderConfig,
    params: WindowsSelectParams,
) -> Seq<EntryView> {
    let label = crate::media::codec_label(base.codec);
    let config = with_quality(base, params.forced_quality);
    if !params.client_supported_codecs.has(base.codec) {
        seq![EntryView::Skip(label + " skipped: client does not support it"@)]
    } else if config.yuv444() && (!crate::media::yuv444_codec(base.codec)
        || !params.client_supported_yuv444_codecs.has(base.codec)) {
        seq![EntryView::Skip(label + " yuv444 skipped: client does not support it"@)]
    } else {
        let same = hardware_entries(at, config, params.usable_backends());
        let cross = cross_entries(at + same.len(), config, params.usable_others());
        (same + cross).push(
            EntryView::Try(
                at + same.len() + cross.len(),
                config,
                EncodeTarget::Software,
                label + " software encode unavailable: "@,
            ),
        )
    }
}

/// What stands before the first codec: that the backends could not be told.
pub open spec fn windows_preamble(params: WindowsSelectParams) -> Seq<EntryView> {
    match params.hardware_backends {
        Err(err) => if params.hardware_capture {
            seq![EntryView::Skip("hardware backend detection failed: "@ + err@)]
        } else {
            Seq::empty()
        },
        Ok(_) => Seq::empty(),
    }
}

/// The whole Windows plan, for base settings in order of preference.
pub open spec fn windows_plan(bases: Seq<EncoderConfig>, params: WindowsSelectParams) -> Seq<
    EntryView,
>
    decreases bases.len(),
{
    if bases.len() == 0 {
        windows_preamble(params)
    } else {
        let before = windows_plan(bases.drop_last(), params);
        before + windows_codec_entries(before.len(), bases.last(), params)
    }
}

fn push_hardware_entries(
    plan: &mut Vec<PlanEntry>,
    config: &EncoderConfig,
    backends: &Vec<WindowsEncoderBackend>,
)
    ensures
        entry_views(final(plan)@) == entry_views(old(plan)@) + hardware_entries(
            old(plan)@.len(),
            *config,
            backends@,
        ),
{
    let ghost before = entry_views(plan@);
    let ghost at = plan@.len();
    let mut i: usize = 0;
    while i < backends.len()
        invariant
            i <= backends@.len(),
            plan@.len() == at + i,
            entry_views(plan@) == before + hardware_entries(at, *config, backends@).subrange(
                0,
                i as int,
            ),
        decreases backends@.len() - i,
    {
        let backend = backends[i];
        let ghost so_far = entry_views(plan@);
        let ghost all = hardware_entries(at, *config, backends@);
        let mut failure_prefix = concat3(codec_name(config.codec), " ", backend.label());
        failure_prefix.append(" encode unavailable: ");
        let group: usize = plan.len();
        plan.push(
            PlanEntry::Try(
                Attempt {
                    group,
                    config: *config,
                    target: EncodeTarget::Hardware(backend),
                    failure_prefix,
                },
            ),
        );
        proof {
            assert(plan@.last()@ == all[i as int]);
            assert(entry_views(plan@) == so_far.push(all[i as int]));
            assert(all.subrange(0, i + 1) == all.subrange(0, i as int).push(all[i as int]));
        }
        i = i + 1;
    }
    proof {
        let ghost all = hardware_entries(at, *config, backends@);
        assert(all.subrange(0, i as int) == all);
    }
}

fn push_cross_entries(
    plan: &mut Vec<PlanEntry>,
    config: &EncoderConfig,
    others: &Vec<CrossAdapterBackend>,
)
    ensures
        entry_views(final(plan)@) == entry_views(old(plan)@) + cross_entries(
            old(plan)@.len(),
            *config,
            others@,
        ),
{
    let ghost before = entry_views(plan@);
    let ghost at = plan@.len();
    let mut i: usize = 0;
    while i < others.len()
        invariant
            i <= others@.len(),
            plan@.len() == at + i,
            entry_views(plan@) == before + cross_entries(at, *config, others@).subrange(0, i as int),
        decreases others@.len() - i,
    {
        let ghost so_far = entry_views(plan@);
        let ghost all = cross_entries(at, *config, others@);
        let mut failure_prefix = concat3(codec_name(config.codec), " ", others[i].backend.label());
        failure_prefix.append(" cross-adapter (");
        failure_prefix.append(others[i].adapter_name.as_str());
        failure_prefix.append(") unavailable: ");
        let group: usize = plan.len();
        plan.push(
            PlanEntry::Try(
                Attempt {
                    group,
                    config: *config,
                    target: EncodeTarget::CrossAdapter(i, others[i].backend),
                    failure_prefix,
                },
            ),
        );
        proof {
            assert(plan@.last()@ == all[i as int]);
            assert(entry_views(plan@) == so_far.push(all[i as int]));
            assert(all.subrange(0, i + 1) == all.subrange(0, i as int).push(all[i as int]));
        }
        i = i + 1;
    }
    proof {
        let ghost all = cross_entries(at, *config, others@);
        assert(all.subrange(0, i as int) == all);
    }
}

/// Builds the Windows plan: for each codec the capturing adapter's hardware, then
/// that of other adapters, then software.
pub fn select_windows_encoder(bases: &Vec<EncoderConfig>, params: &WindowsSelectParams) -> (plan:
    Vec<PlanEntry>)
    ensures
        entry_views(plan@) == windows_plan(bases@, *params),
        groups_in_order(entry_views(plan@)),
{
    let mut plan: Vec<PlanEntry> = Vec::new();
    match &params.hardware_backends {
        Err(err) => {
            if params.hardware_capture {
                plan.push(
                    PlanEntry::Skip(concat2("hardware backend detection failed: ", err.as_str())),
                );
            }
        },
        Ok(_) => {},
    }
    proof {
        assert(entry_views(plan@) == windows_preamble(*params));
        assert(entry_views(plan@) == windows_plan(bases@.subrange(0, 0), *params));
    }
    let mut done: usize = 0;
    while done < bases.len()
        invariant
            done <= bases@.len(),
            entry_views(plan@) == windows_plan(bases@.subrange(0, done as int), *params),
        decreases bases@.len() - done,
    {
        let base = bases[done];
        let codec = base.codec;
        let ghost before = entry_views(plan@);
        let ghost added = windows_codec_entries(before.len(), base, *params);
        proof {
            assert(bases@.subrange(0, done + 1).drop_last() == bases@.subrange(0, done as int));
        }
        let config = apply_quality(base, params.forced_quality);
        if !params.client_supported_codecs.supports(codec) {
            plan.push(
                PlanEntry::Skip(
                    concat2(codec_name(codec), " skipped: client does not support it"),
                ),
            );
            proof {
                assert(entry_views(plan@) == before + added);
            }
        } else if config.is_yuv444() && (!supports_yuv444_codec(codec)
            || !params.client_supported_yuv444_codecs.supports(codec)) {
            plan.push(
                PlanEntry::Skip(
                    concat2(codec_name(codec), " yuv444 skipped: client does not support it"),
                ),
            );
            proof {
                assert(entry_views(plan@) == before + added);
            }
        } else {
            let ghost same = hardware_entries(before.len(), config, params.usable_backends());
            let ghost cross = cross_entries(
                before.len() + same.len(),
                config,
                params.usable_others(),
            );
            if params.hardware_capture {
                match &params.hardware_backends {
                    Ok(order) => {
                        push_hardware_entries(&mut plan, &config, order);
                    },
                    Err(_) => {},
                }
            }
            proof {
                assert(entry_views(plan@) == before + same);
            }
            if params.hardware_capture {
                push_cross_entries(&mut plan, &config, &params.cross_adapter_backends);
            }
            proof {
                assert(entry_views(plan@) == before + same + cross);
            }
            let ghost so_far = entry_views(plan@);
            let group: usize = plan.len();
            plan.push(
                PlanEntry::Try(
                    Attempt {
                        group,
                        config,
                        target: EncodeTarget::Software,
                        failure_prefix: concat2(
                            codec_name(codec),
                            " software encode unavailable: ",
                        ),
                    },
                ),
            );
            proof {
                assert(plan@.last()@ == added.last());
                assert(entry_views(plan@) == so_far.push(added.last()));
                assert(added == (same + cross).push(added.last()));
                assert(entry_views(plan@) == before + added);
            }
        }
        done = done + 1;
    }
    proof {
        assert(bases@.subrange(0, done as int) == bases@);
        windows_plan_is_grouped(bases@, *params);
    }
    plan
}

/// The bitrate handed to VideoToolbox.
pub open spec fn videotoolbox_bps(config: EncoderConfig) -> u32 {
    if config.bps() <= u32::MAX {
        config.bps() as u32
    } else {
        u32::MAX
    }
}

/// The line of the macOS plan for one codec.
pub open spec fn macos_entry(
    group: nat,
    base: EncoderConfig,
    supported: VideoCodecSupport,
    forced_quality: Option<Quality>,
) -> EntryView {
    let label = crate::media::codec_label(base.codec);
    let config = with_quality(base, forced_quality);
    if !supported.has(base.codec) {
        EntryView::Skip(label + " skipped: client does not support it"@)
    } else if base.codec != VideoCodec::H264 {
        EntryView::Skip(
            label
                + " unavailable: macOS VideoToolbox encode is currently implemented for H.264 only"@,
        )
    } else if config.yuv444() {
        EntryView::Skip(
            label + " yuv444 unavailable: macOS VideoToolbox encode is currently YUV420 only"@,
        )
    } else {
        let sdr = EncoderConfig { dynamic_range: DynamicRange::Sdr, ..config };
        EntryView::Try(
            group,
            sdr,
            EncodeTarget::VideoToolbox(videotoolbox_bps(sdr)),
            label + " videotoolbox encode unavailable: "@,
        )
    }
}

/// Builds the macOS plan: VideoToolbox for H.264, SDR, 4:2:0, and nothing else.
pub fn select_macos_encoder(
    bases: &Vec<EncoderConfig>,
    client_supported_codecs: VideoCodecSupport,
    forced_quality: Option<Quality>,
) -> (plan: Vec<PlanEntry>)
    ensures
        entry_views(plan@) == Seq::new(
            bases@.len(),
            |i: int| macos_entry(i as nat, bases@[i], client_supported_codecs, forced_quality),
        ),
        groups_in_order(entry_views(plan@)),
{
    let mut plan: Vec<PlanEntry> = Vec::new();
    let mut group: usize = 0;
    while group < bases.len()
        invariant
            group <= bases@.len(),
            plan@.len() == group,
            forall|i: int|
                0 <= i < group ==> (#[trigger] plan@[i])@ == macos_entry(
                    i as nat,
                    bases@[i],
                    client_supported_codecs,
                    forced_quality,
                ),
        decreases bases@.len() - group,
    {
        let base = bases[group];
        let codec = base.codec;
        let mut config = apply_quality(base, forced_quality);
        if !client_supported_codecs.supports(codec) {
            plan.push(
                PlanEntry::Skip(
                    concat2(codec_name(codec), " skipped: client does not support it"),
                ),
            );
        } else if codec != VideoCodec::H264 {
            plan.push(
                PlanEntry::Skip(
                    concat2(
                        codec_name(codec),
                        " unavailable: macOS VideoToolbox encode is currently implemented for H.264 only",
                    ),
                ),
            );
        } else if config.is_yuv444() {
            plan.push(
                PlanEntry::Skip(
                    concat2(
                        codec_name(codec),
                        " yuv444 unavailable: macOS VideoToolbox encode is currently YUV420 only",
                    ),
                ),
            );
        } else {
            if config.is_hdr() {
                config.dynamic_range = DynamicRange::Sdr;
            }
            let bps: i64 = config.bitrate_bps();
            let capped: u32 = if bps <= 0xffff_ffff {
                bps as u32
            } else {
                0xffff_ffff
            };
            plan.push(
                PlanEntry::Try(
                    Attempt {
                        group,
                        config,
                        target: EncodeTarget::VideoToolbox(capped),
                        failure_prefix: concat2(
                            codec_name(codec),
                            " videotoolbox encode unavailable: ",
                        ),
                    },
                ),
            );
        }
        group = group + 1;
    }
    plan
}

/// The attempts of a Linux plan come in the order of their codecs, and each group
/// is the place of a codec.
pub proof fn linux_plan_is_grouped(bases: Seq<EncoderConfig>, params: LinuxSelectParams)
    ensures
        groups_in_order(linux_plan(bases, params)),
        forall|i: int|
            0 <= i < linux_plan(bases, params).len() && (#[trigger] linux_plan(
                bases,
                params,
            )[i]) is Try ==> group_of(linux_plan(bases, params), i) < bases.len(),
    decreases bases.len(),
{
    if bases.len() > 0 {
        let before = linux_plan(bases.drop_last(), params);
        linux_plan_is_grouped(bases.drop_last(), params);
        let plan = linux_plan(bases, params);
        let added = linux_codec_entries((bases.len() - 1) as nat, bases.last(), params);
        assert(plan == before + added);
        assert forall|i: int| 0 <= i < plan.len() && (#[trigger] plan[i]) is Try implies group_of(
            plan,
            i,
        ) < bases.len() && (i >= before.len() ==> group_of(plan, i) == bases.len() - 1) && (i
            < before.len() ==> group_of(plan, i) < bases.len() - 1) by {
            if i < before.len() {
                assert(plan[i] == before[i]);
            } else {
                assert(plan[i] == added[i - before.len()]);
            }
        }
        assert forall|i: int, j: int|
            #![trigger plan[i], plan[j]]
            0 <= i <= j < plan.len() && plan[i] is Try && plan[j] is Try implies group_of(plan, i)
            <= group_of(plan, j) by {
            if j < before.len() {
                assert(plan[i] == before[i]);
                assert(plan[j] == before[j]);
            }
        }
    }
}

/// Each attempt of a Windows plan is a group of its own: its place in the plan.
pub proof fn windows_plan_is_grouped(bases: Seq<EncoderConfig>, params: WindowsSelectParams)
    ensures
        groups_in_order(windows_plan(bases, params)),
        forall|i: int|
            0 <= i < windows_plan(bases, params).len() && (#[trigger] windows_plan(
                bases,
                params,
            )[i]) is Try ==> group_of(windows_plan(bases, params), i) == i,
    decreases bases.len(),
{
    if bases.len() > 0 {
        let before = windows_plan(bases.drop_last(), params);
        windows_plan_is_grouped(bases.drop_last(), params);
        let plan = windows_plan(bases, params);
        let added = windows_codec_entries(before.len(), bases.last(), params);
        assert(plan == before + added);
        assert forall|i: int| 0 <= i < plan.len() && (#[trigger] plan[i]) is Try implies group_of(
            plan,
            i,
        ) == i by {
            if i < before.len() {
                assert(plan[i] == before[i]);
            } else {
                assert(plan[i] == added[i - before.len()]);
            }
        }
    }
}

/// How a line of the plan went.
pub enum EntryResult {
    Skipped,
    Opened(EncoderBackend),
    Failed(String),
}

/// What to do next.
pub enum Decision {
    /// Open the attempt at this place of the plan and record how that went.
    Try(usize),
    /// The attempt at this place of the plan has won.
    Selected(usize),
    /// Nothing could be opened; the text lists why.
    Failed(String),
}

/// A walk through a plan.
pub struct Selection {
    pub plan: Vec<PlanEntry>,
    pub results: Vec<EntryResult>,
    /// Stop after the first group in which something opened.
    pub first_group_wins: bool,
    pub client_hardware_codecs: VideoCodecSupport,
}

pub open spec fn group_of(plan: Seq<EntryView>, i: int) -> nat
    recommends
        plan[i] is Try,
{
    plan[i]->Try_0
}

/// That the groups come in order.
pub open spec fn groups_in_order(plan: Seq<EntryView>) -> bool {
    forall|i: int, j: int|
        #![trigger plan[i], plan[j]]
        0 <= i <= j < plan.len() && plan[i] is Try && plan[j] is Try ==> group_of(plan, i)
            <= group_of(plan, j)
}

impl Selection {
    pub open spec fn wf(self) -> bool {
        &&& self.results@.len() <= self.plan@.len()
        &&& groups_in_order(entry_views(self.plan@))
        &&& forall|i: int|
            0 <= i < self.results@.len() ==> ((#[trigger] self.results@[i]) is Skipped
                <==> self.plan@[i] is Skip)
    }

    /// That the attempt at `i` opened an encoder.
    pub open spec fn opened(self, i: int) -> bool {
        0 <= i < self.results@.len() && self.results@[i] is Opened
    }

    pub open spec fn group(self, i: int) -> nat {
        self.plan@[i]->Try_0.group as nat
    }

    pub open spec fn score(self, i: int) -> (u8, u8, u8, u8) {
        let config = self.plan@[i]->Try_0.config;
        selection_score(
            config.codec,
            config.chroma,
            self.results@[i]->Opened_0,
            self.client_hardware_codecs,
        )
    }

    /// That the attempt at `i` may win: where the first group wins, that no
    /// earlier group opened anything.
    pub open spec fn eligible(self, i: int) -> bool {
        self.opened(i) && (self.first_group_wins ==> forall|k: int|
            #[trigger] self.opened(k) ==> self.group(i) <= self.group(k))
    }

    /// That the attempt at `i` is the best of those that may win, the earliest
    /// among equals.
    pub open spec fn wins(self, i: int) -> bool {
        &&& self.eligible(i)
        &&& forall|j: int| #[trigger]
            self.eligible(j) ==> score_above(self.score(i), self.score(j)) || (self.score(i)
                == self.score(j) && i <= j)
    }

    pub open spec fn nothing_opened(self) -> bool {
        forall|k: int| !(#[trigger] self.opened(k))
    }

    /// The line that the failure report has for the plan's line `i`.
    pub open spec fn failure_line(self, i: int) -> Seq<char> {
        match self.plan@[i] {
            PlanEntry::Skip(reason) => reason@,
            PlanEntry::Try(a) => a.failure_prefix@ + self.results@[i]->Failed_0@,
        }
    }

    pub open spec fn failure_lines(self) -> Seq<Seq<char>> {
        Seq::new(self.results@.len(), |i: int| self.failure_line(i))
    }

    /// Starts at the head of a plan.
    pub fn new(
        plan: Vec<PlanEntry>,
        first_group_wins: bool,
        client_hardware_codecs: VideoCodecSupport,
    ) -> (out: Self)
        requires
            groups_in_order(entry_views(plan@)),
        ensures
            out.wf(),
            out.plan == plan,
            out.results@.len() == 0,
            out.first_group_wins == first_group_wins,
            out.client_hardware_codecs == client_hardware_codecs,
    {
        Selection { plan, results: Vec::new(), first_group_wins, client_hardware_codecs }
    }

    fn best_so_far(&self) -> (best: Option<usize>)
        requires
            self.wf(),
        ensures
            match best {
                Some(i) => self.wins(i as int),
                None => self.nothing_opened(),
            },
    {
        let mut best: Option<usize> = None;
        let mut i: usize = 0;
        while i < self.results.len()
            invariant
                self.wf(),
                i <= self.results@.len(),
                match best {
                    Some(b) => {
                        &&& b < i
                        &&& self.opened(b as int)
                        &&& forall|k: int|
                            k < i && #[trigger] self.opened(k) ==> {
                                &&& self.first_group_wins ==> self.group(b as int) <= self.group(k)
                                &&& self.first_group_wins && self.group(k) != self.group(b as int)
                                    || score_above(self.score(b as int), self.score(k)) || (
                                self.score(b as int) == self.score(k) && b <= k)
                            }
                    },
                    None => forall|k: int| k < i ==> !(#[trigger] self.opened(k)),
                },
            decreases self.results@.len() - i,
        {
            match &self.results[i] {
                EntryResult::Opened(backend) => {
                    assert(self.opened(i as int));
                    assert(self.plan@[i as int] is Try);
                    match best {
                        None => {
                            best = Some(i);
                        },
                        Some(b) => {
                            assert(entry_views(self.plan@)[b as int] is Try);
                            assert(entry_views(self.plan@)[i as int] is Try);
                            if let PlanEntry::Try(challenger) = &self.plan[i] {
                                if let PlanEntry::Try(leader) = &self.plan[b] {
                                    if let EntryResult::Opened(leader_backend) = &self.results[b] {
                                        let challenger_score = codec_selection_score(
                                            challenger.config.codec,
                                            challenger.config.chroma,
                                            *backend,
                                            self.client_hardware_codecs,
                                        );
                                        let leader_score = codec_selection_score(
                                            leader.config.codec,
                                            leader.config.chroma,
                                            *leader_backend,
                                            self.client_hardware_codecs,
                                        );
                                        let same_contest = !self.first_group_wins
                                            || challenger.group == leader.group;
                                        if same_contest && score_is_above(
                                            challenger_score,
                                            leader_score,
                                        ) {
                                            best = Some(i);
                                        }
                                    }
                                }
                            }
                        },
                    }
                },
                _ => {},
            }
            i = i + 1;
        }
        best
    }

    /// Says what to do next, after passing over the lines that open nothing.
    pub fn next(&mut self) -> (decision: Decision)
        requires
            old(self).wf(),
        ensures
            final(self).wf(),
            final(self).plan == old(self).plan,
            final(self).first_group_wins == old(self).first_group_wins,
            final(self).client_hardware_codecs == old(self).client_hardware_codecs,
            old(self).results@.is_prefix_of(final(self).results@),
            forall|i: int|
                old(self).results@.len() <= i < final(self).results@.len() ==> (
                #[trigger] final(self).results@[i]) is Skipped,
            match decision {
                Decision::Try(i) => {
                    &&& i == final(self).results@.len()
                    &&& i < final(self).plan@.len()
                    &&& final(self).plan@[i as int] is Try
                    &&& final(self).first_group_wins ==> forall|k: int| #[trigger]
                        final(self).opened(k) ==> final(self).group(k) == final(self).group(
                            i as int,
                        )
                },
                Decision::Selected(i) => {
                    &&& final(self).wins(i as int)
                    &&& final(self).results@.len() == final(self).plan@.len() || (
                    final(self).first_group_wins
                        && final(self).plan@[final(self).results@.len() as int] is Try
                        && final(self).group(final(self).results@.len() as int)
                        > final(self).group(i as int))
                },
                Decision::Failed(message) => {
                    &&& final(self).results@.len() == final(self).plan@.len()
                    &&& final(self).nothing_opened()
                    &&& message@ == "No mutually supported video codec could start.\n  "@
                        + crate::text::joined(final(self).failure_lines(), "\n  "@)
                },
            },
    {
        let ghost plan0 = self.plan;
        let ghost results0 = self.results@;
        let ghost first0 = self.first_group_wins;
        let ghost hw0 = self.client_hardware_codecs;
        let mut skipping = true;
        while skipping && self.results.len() < self.plan.len()
            invariant
                self.wf(),
                self.plan == plan0,
                self.first_group_wins == first0,
                self.client_hardware_codecs == hw0,
                results0.is_prefix_of(self.results@),
                forall|i: int|
                    results0.len() <= i < self.results@.len() ==> (
                    #[trigger] self.results@[i]) is Skipped,
                !skipping ==> self.results@.len() < self.plan@.len()
                    && self.plan@[self.results@.len() as int] is Try,
            decreases self.plan@.len() - self.results@.len(), (if skipping { 1int } else { 0int }),
        {
            let at: usize = self.results.len();
            match &self.plan[at] {
                PlanEntry::Skip(_) => {
                    self.results.push(EntryResult::Skipped);
                },
                PlanEntry::Try(_) => {
                    skipping = false;
                },
            }
        }
        let at: usize = self.results.len();
        match self.best_so_far() {
            Some(b) => {
                if at == self.plan.len() {
                    return Decision::Selected(b);
                }
                if !self.first_group_wins {
                    return Decision::Try(at);
                }
                assert(entry_views(self.plan@)[b as int] is Try);
                assert(entry_views(self.plan@)[at as int] is Try);
                let mut another_group = false;
                if let PlanEntry::Try(upcoming) = &self.plan[at] {
                    if let PlanEntry::Try(leader) = &self.plan[b] {
                        another_group = upcoming.group != leader.group;
                    }
                }
                if another_group {
                    Decision::Selected(b)
                } else {
                    proof {
                        assert forall|k: int| #[trigger] self.opened(k) implies self.group(k)
                            == self.group(at as int) by {
                            assert(entry_views(self.plan@)[k] is Try);
                        }
                    }
                    Decision::Try(at)
                }
            },
            None => {
                if at < self.plan.len() {
                    Decision::Try(at)
                } else {
                    let lines = self.failure_report();
                    Decision::Failed(
                        concat2(
                            "No mutually supported video codec could start.\n  ",
                            join(&lines, "\n  ").as_str(),
                        ),
                    )
                }
            },
        }
    }

    fn failure_report(&self) -> (lines: Vec<String>)
        requires
            self.wf(),
            self.nothing_opened(),
        ensures
            crate::text::texts(lines@) == self.failure_lines(),
    {
        let mut lines: Vec<String> = Vec::new();
        let mut i: usize = 0;
        while i < self.results.len()
            invariant
                self.wf(),
                self.nothing_opened(),
                i <= self.results@.len(),
                lines@.len() == i,
                forall|k: int| 0 <= k < i ==> (#[trigger] lines@[k])@ == self.failure_line(k),
            decreases self.results@.len() - i,
        {
            assert(!self.opened(i as int));
            match &self.plan[i] {
                PlanEntry::Skip(reason) => {
                    lines.push(reason.clone());
                },
                PlanEntry::Try(attempt) => {
                    if let EntryResult::Failed(err) = &self.results[i] {
                        lines.push(concat2(attempt.failure_prefix.as_str(), err.as_str()));
                    } else {
                        assert(false);
                    }
                },
            }
            i = i + 1;
        }
        lines
    }

    /// Takes in how the attempt that [`Selection::next`] named went.
    pub fn record(&mut self, outcome: Result<EncoderBackend, String>)
        requires
            old(self).wf(),
            old(self).results@.len() < old(self).plan@.len(),
            old(self).plan@[old(self).results@.len() as int] is Try,
        ensures
            final(self).wf(),
            final(self).plan == old(self).plan,
            final(self).first_group_wins == old(self).first_group_wins,
            final(self).client_hardware_codecs == old(self).client_hardware_codecs,
            final(self).results@ == old(self).results@.push(
                match outcome {
                    Ok(backend) => EntryResult::Opened(backend),
                    Err(err) => EntryResult::Failed(err),
                },
            ),
    {
        match outcome {
            Ok(backend) => self.results.push(EntryResult::Opened(backend)),
            Err(err) => self.results.push(EntryResult::Failed(err)),
        }
    }
}

} // verus!
