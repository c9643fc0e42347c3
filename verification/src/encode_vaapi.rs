//! The VAAPI hardware encoders.

use vstd::prelude::*;
use crate::encode_plan::{
    add_int, add_text, base_context, option_views, start_context, CodecContext, CodecOption,
    FrameCounter, FrameMark, OptionView, PixelFormat, Profile, RateUpdate,
};
use crate::media::{EncoderConfig, VideoCodec};
use crate::text::{
    concat2, concat3, contains, decimal, decimal_string, lowercase, occurs_in, to_lowercase,
};
use crate::transport::text_of;

verus! {

/// The number of the first render node that is looked at.
pub const FIRST_RENDER_NODE: u32 = 128;

/// How many render nodes are looked at.
pub const RENDER_NODES: usize = 8;

/// Who made the graphics processor.
#[derive(Clone, Copy, Debug, PartialEq, Eq, Structural)]
pub enum GpuVendor {
    Intel,
    Amd,
    Other,
}

/// The path of a render node.
pub fn render_node_path(index: u32) -> (out: String)
    requires
        index <= 1000,
    ensures
        out@ == "/dev/dri/renderD"@ + decimal((FIRST_RENDER_NODE + index) as nat),
{
    concat2("/dev/dri/renderD", decimal_string((FIRST_RENDER_NODE + index) as u64).as_str())
}

/// The first node that is there, from `from` on.
pub open spec fn first_present(present: Seq<bool>, from: int) -> Option<int>
    decreases present.len() - from,
{
    if from < 0 || from >= present.len() {
        None
    } else if present[from] {
        Some(from)
    } else {
        first_present(present, from + 1)
    }
}

/// The path of the first render node that is there.
pub fn find_render_node(present: &[bool; 8]) -> (out: Result<String, &'static str>)
    ensures
        match (out, first_present(present@, 0)) {
            (Ok(path), Some(i)) => path@ == "/dev/dri/renderD"@ + decimal(
                (FIRST_RENDER_NODE + i) as nat,
            ),
            (Err(e), None) => e@ == "No DRM render node found (/dev/dri/renderD128..135)"@,
            _ => false,
        },
{
    let mut i: u32 = 0;
    while i < 8
        invariant
            i <= 8,
            first_present(present@, 0) == first_present(present@, i as int),
        decreases 8 - i,
    {
        if present[i as usize] {
            return Ok(render_node_path(i));
        }
        i = i + 1;
    }
    Err("No DRM render node found (/dev/dri/renderD128..135)")
}

/// Whether a driver is that of NVIDIA, whose VAAPI does not encode. `driver` is its name,
/// where it could be read.
pub fn is_nvidia_driver(driver: Option<&str>) -> (yes: bool)
    ensures
        yes == (driver matches Some(name) && occurs_in(name@, "nvidia"@)),
{
    match driver {
        Some(name) => contains(name, "nvidia"),
        None => false,
    }
}

/// The maker that the name of a driver in lower case points to.
pub open spec fn vendor_of(name: Seq<char>) -> GpuVendor {
    if occurs_in(name, "i915"@) || occurs_in(name, "xe"@) {
        GpuVendor::Intel
    } else if occurs_in(name, "amdgpu"@) || occurs_in(name, "radeon"@) {
        GpuVendor::Amd
    } else {
        GpuVendor::Other
    }
}

/// The maker that the name of a driver in lower case points to.
pub fn vendor_by_name(name: &str) -> (out: GpuVendor)
    ensures
        out == vendor_of(name@),
{
    if contains(name, "i915") || contains(name, "xe") {
        GpuVendor::Intel
    } else if contains(name, "amdgpu") || contains(name, "radeon") {
        GpuVendor::Amd
    } else {
        GpuVendor::Other
    }
}

/// The maker that the name of a driver points to, where it could be read.
pub fn detect_gpu_vendor(driver: Option<&str>) -> (out: GpuVendor)
    ensures
        out == (match text_of(driver) {
            Some(name) => vendor_of(lowercase(name)),
            None => GpuVendor::Other,
        }),
{
    match driver {
        Some(name) => vendor_by_name(to_lowercase(name).as_str()),
        None => GpuVendor::Other,
    }
}

/// The maker of the processor to encode on, or why it does not encode.
pub fn encoding_vendor(driver: Option<&str>) -> (out: Result<GpuVendor, &'static str>)
    ensures
        match out {
            Ok(vendor) => {
                &&& !(driver matches Some(name) && occurs_in(name@, "nvidia"@))
                &&& vendor == (match text_of(driver) {
                    Some(name) => vendor_of(lowercase(name)),
                    None => GpuVendor::Other,
                })
            },
            Err(e) => {
                &&& driver matches Some(name) && occurs_in(name@, "nvidia"@)
                &&& e@ == "NVIDIA GPU detected — VAAPI encode not supported (use NVENC)"@
            },
        },
{
    if is_nvidia_driver(driver) {
        return Err("NVIDIA GPU detected — VAAPI encode not supported (use NVENC)");
    }
    Ok(detect_gpu_vendor(driver))
}

/// One try to open the encoder.
#[derive(Clone, Copy, Debug, PartialEq, Eq)]
pub struct VaapiAttempt {
    /// Whether the low-power entry point is used.
    pub low_power: bool,
    pub profile_name: &'static str,
    pub profile: i32,
}

/// The same as a value of mathematics.
pub ghost struct AttemptView {
    pub low_power: bool,
    pub profile_name: Seq<char>,
    pub profile: int,
}

impl View for VaapiAttempt {
    type V = AttemptView;

    open spec fn view(&self) -> AttemptView {
        AttemptView {
            low_power: self.low_power,
            profile_name: self.profile_name@,
            profile: self.profile as int,
        }
    }
}

/// The views of a list of tries.
pub open spec fn attempt_views(attempts: Seq<VaapiAttempt>) -> Seq<AttemptView> {
    attempts.map_values(|a: VaapiAttempt| a@)
}

/// The profiles of a codec, the best first.
pub open spec fn vaapi_profiles(config: EncoderConfig, low_power: bool) -> Seq<AttemptView> {
    match config.codec {
        VideoCodec::H264 => seq![
            AttemptView { low_power, profile_name: "high"@, profile: 100 },
            AttemptView { low_power, profile_name: "main"@, profile: 77 },
            AttemptView { low_power, profile_name: "constrained_baseline"@, profile: 578 },
        ],
        VideoCodec::Hevc => if config.hdr() {
            seq![AttemptView { low_power, profile_name: "main10"@, profile: 2 }]
        } else {
            seq![
                AttemptView { low_power, profile_name: "main"@, profile: 1 },
                AttemptView { low_power, profile_name: "main10"@, profile: 2 },
            ]
        },
        VideoCodec::Av1 => seq![AttemptView { low_power, profile_name: "main"@, profile: 0 }],
    }
}

/// The tries to open the encoder, in order: on Intel the low-power entry point first.
pub open spec fn vaapi_tries(config: EncoderConfig, vendor: GpuVendor) -> Seq<AttemptView> {
    if vendor == GpuVendor::Intel {
        vaapi_profiles(config, true) + vaapi_profiles(config, false)
    } else {
        vaapi_profiles(config, false)
    }
}

fn push_profiles(out: &mut Vec<VaapiAttempt>, config: &EncoderConfig, low_power: bool)
    ensures
        attempt_views(final(out)@) == attempt_views(old(out)@) + vaapi_profiles(*config, low_power),
{
    let ghost before = attempt_views(out@);
    match config.codec {
        VideoCodec::H264 => {
            out.push(VaapiAttempt { low_power, profile_name: "high", profile: 100 });
            out.push(VaapiAttempt { low_power, profile_name: "main", profile: 77 });
            out.push(VaapiAttempt { low_power, profile_name: "constrained_baseline", profile: 578 });
        },
        VideoCodec::Hevc => {
            if config.is_hdr() {
                out.push(VaapiAttempt { low_power, profile_name: "main10", profile: 2 });
            } else {
                out.push(VaapiAttempt { low_power, profile_name: "main", profile: 1 });
                out.push(VaapiAttempt { low_power, profile_name: "main10", profile: 2 });
            }
        },
        VideoCodec::Av1 => {
            out.push(VaapiAttempt { low_power, profile_name: "main", profile: 0 });
        },
    }
    proof {
        assert(attempt_views(out@) =~= before + vaapi_profiles(*config, low_power));
    }
}

/// The context of a VAAPI encoder. On Intel only the highest rate is capped; elsewhere the
/// rate is held at the target.
pub open spec fn vaapi_context(
    config: EncoderConfig,
    vendor: GpuVendor,
    profile: i32,
    vbv_buffer_size: i32,
) -> CodecContext {
    CodecContext {
        rc_max_rate: Some(config.bps() as i64),
        rc_min_rate: if vendor == GpuVendor::Intel {
            None
        } else {
            Some(config.bps() as i64)
        },
        ..base_context(config, PixelFormat::Vaapi, Profile::Number(profile), vbv_buffer_size)
    }
}

/// The options of a VAAPI encoder.
pub open spec fn vaapi_options(config: EncoderConfig, low_power: bool) -> Seq<OptionView> {
    let depth = seq![OptionView::Text("async_depth"@, "1"@)];
    let delimited = if config.codec != VideoCodec::Av1 {
        depth.push(OptionView::Text("aud"@, "1"@))
    } else {
        depth
    };
    if low_power {
        delimited.push(OptionView::Text("low_power"@, "1"@))
    } else {
        delimited
    }
}

/// A VAAPI encoder: its maker, its size and its frames.
#[derive(Clone, Copy, Debug, PartialEq, Eq, Structural)]
pub struct VaapiEncoder {
    pub gpu_vendor: GpuVendor,
    pub width: u32,
    pub height: u32,
    pub frames: FrameCounter,
}

/// Where the pixels of a captured frame are.
#[derive(Clone, Copy, Debug, PartialEq, Eq, Structural)]
pub enum VaapiSource {
    /// In a buffer that is shared with the graphics processor.
    DmaBuf,
    /// In memory, blue first.
    Ram,
}

/// How a frame gets to the graphics processor. Either way it is numbered once it is there: by
/// [`VaapiEncoder::encode_dmabuf`] or by [`VaapiEncoder::encode_ram`].
#[derive(Clone, Copy, Debug, PartialEq, Eq, Structural)]
pub enum VaapiPath {
    /// The buffer is imported.
    Import,
    /// The pixels are converted and uploaded.
    Upload,
}

impl VaapiEncoder {
    /// How a frame from either place goes to the codec: as a keyframe where one was asked for.
    pub open spec fn mark_of(self, source: VaapiSource) -> FrameMark {
        match source {
            VaapiSource::DmaBuf | VaapiSource::Ram => FrameMark {
                pts: self.frames.frame_index,
                keyframe: self.frames.force_keyframe_next,
            },
        }
    }

    /// The encoder after a frame from either place, which uses a request up.
    pub open spec fn after_frame(self, source: VaapiSource) -> VaapiEncoder {
        match source {
            VaapiSource::DmaBuf | VaapiSource::Ram => VaapiEncoder {
                frames: self.frames.after(),
                ..self
            },
        }
    }

    /// The encoder that was asked for a keyframe.
    pub open spec fn asked(self) -> VaapiEncoder {
        VaapiEncoder {
            frames: FrameCounter { force_keyframe_next: true, ..self.frames },
            ..self
        }
    }

    /// The tries to open an encoder for `config`, in order.
    pub fn attempts(config: &EncoderConfig, vendor: GpuVendor) -> (out: Vec<VaapiAttempt>)
        ensures
            attempt_views(out@) == vaapi_tries(*config, vendor),
    {
        let mut out: Vec<VaapiAttempt> = Vec::new();
        proof {
            assert(attempt_views(out@) =~= Seq::<AttemptView>::empty());
        }
        if vendor == GpuVendor::Intel {
            push_profiles(&mut out, config, true);
        }
        push_profiles(&mut out, config, false);
        proof {
            assert(attempt_views(out@) =~= vaapi_tries(*config, vendor));
        }
        out
    }

    /// What the encoder is opened with at a try.
    pub fn with_config(
        config: &EncoderConfig,
        vendor: GpuVendor,
        attempt: VaapiAttempt,
        vbv_buffer_size: i32,
    ) -> (out: (CodecContext, Vec<CodecOption>))
        ensures
            out.0 == vaapi_context(*config, vendor, attempt.profile, vbv_buffer_size),
            option_views(out.1@) == vaapi_options(*config, attempt.low_power),
    {
        let mut context = start_context(
            config,
            PixelFormat::Vaapi,
            Profile::Number(attempt.profile),
            vbv_buffer_size,
        );
        context.rc_max_rate = Some(config.bitrate_bps());
        if vendor != GpuVendor::Intel {
            context.rc_min_rate = Some(config.bitrate_bps());
        }
        let mut options: Vec<CodecOption> = Vec::new();
        proof {
            assert(option_views(options@) =~= Seq::<OptionView>::empty());
        }
        add_text(&mut options, "async_depth", "1");
        if config.codec != VideoCodec::Av1 {
            add_text(&mut options, "aud", "1");
        }
        if attempt.low_power {
            add_text(&mut options, "low_power", "1");
        }
        proof {
            assert(option_views(options@) =~= vaapi_options(*config, attempt.low_power));
        }
        (context, options)
    }

    /// An encoder that was opened.
    pub fn opened(config: &EncoderConfig, vendor: GpuVendor) -> (out: Self)
        ensures
            out == (VaapiEncoder {
                gpu_vendor: vendor,
                width: config.width,
                height: config.height,
                frames: FrameCounter { frame_index: 0, force_keyframe_next: false },
            }),
    {
        VaapiEncoder {
            gpu_vendor: vendor,
            width: config.width,
            height: config.height,
            frames: FrameCounter::new(),
        }
    }

    /// Numbers a frame that is shared with the graphics processor.
    pub fn encode_dmabuf(&mut self) -> (mark: FrameMark)
        requires
            old(self).frames.frame_index < i64::MAX,
        ensures
            mark == old(self).mark_of(VaapiSource::DmaBuf),
            *final(self) == old(self).after_frame(VaapiSource::DmaBuf),
    {
        self.frames.mark()
    }

    /// Numbers a frame that is uploaded from memory.
    pub fn encode_ram(&mut self) -> (mark: FrameMark)
        requires
            old(self).frames.frame_index < i64::MAX,
        ensures
            mark == old(self).mark_of(VaapiSource::Ram),
            *final(self) == old(self).after_frame(VaapiSource::Ram),
    {
        self.frames.mark()
    }

    /// The way that a frame goes to the graphics processor.
    pub fn encode(&self, source: VaapiSource) -> (path: VaapiPath)
        ensures
            path == (match source {
                VaapiSource::DmaBuf => VaapiPath::Import,
                VaapiSource::Ram => VaapiPath::Upload,
            }),
    {
        match source {
            VaapiSource::DmaBuf => VaapiPath::Import,
            VaapiSource::Ram => VaapiPath::Upload,
        }
    }

    /// Makes the next frame a keyframe.
    pub fn reset_for_keyframe(&mut self)
        ensures
            *final(self) == old(self).asked(),
    {
        self.frames.reset_for_keyframe();
    }

    /// The update that brings the encoder to another bitrate in place. It has to keep its
    /// size.
    pub fn update_bitrate(&self, config: &EncoderConfig, vbv_buffer_size: i32) -> (out: Result<
        RateUpdate,
        &'static str,
    >)
        ensures
            match out {
                Ok(update) => {
                    &&& config.width == self.width && config.height == self.height
                    &&& update.bit_rate == config.bps()
                    &&& update.rc_buffer_size == vbv_buffer_size
                    &&& update.rc_max_rate == config.bps()
                    &&& update.rc_min_rate == if self.gpu_vendor == GpuVendor::Intel {
                        0
                    } else {
                        config.bps()
                    }
                    &&& option_views(update.options@) == vaapi_rate_options(
                        config.bps(),
                        vbv_buffer_size as int,
                        self.gpu_vendor,
                    )
                },
                Err(e) => (config.width != self.width || config.height != self.height) && e@
                    == "VAAPI bitrate update requires unchanged resolution"@,
            },
    {
        if config.width != self.width || config.height != self.height {
            return Err("VAAPI bitrate update requires unchanged resolution");
        }
        let bps: i64 = config.bitrate_bps();
        let mut options: Vec<CodecOption> = Vec::new();
        proof {
            assert(option_views(options@) =~= Seq::<OptionView>::empty());
        }
        add_int(&mut options, "b", bps);
        add_int(&mut options, "maxrate", bps);
        add_int(&mut options, "bufsize", vbv_buffer_size as i64);
        let mut rc_min_rate: i64 = 0;
        if self.gpu_vendor != GpuVendor::Intel {
            rc_min_rate = bps;
            add_int(&mut options, "minrate", bps);
        }
        proof {
            assert(option_views(options@) =~= vaapi_rate_options(
                config.bps(),
                vbv_buffer_size as int,
                self.gpu_vendor,
            ));
        }
        Ok(
            RateUpdate {
                bit_rate: bps,
                rc_min_rate,
                rc_max_rate: bps,
                rc_buffer_size: vbv_buffer_size,
                options,
            },
        )
    }
}

/// The options that change the rate of a VAAPI encoder.
pub open spec fn vaapi_rate_options(bps: int, buffer: int, vendor: GpuVendor) -> Seq<OptionView> {
    let common = seq![
        OptionView::Int("b"@, bps),
        OptionView::Int("maxrate"@, bps),
        OptionView::Int("bufsize"@, buffer),
    ];
    if vendor == GpuVendor::Intel {
        common
    } else {
        common.push(OptionView::Int("minrate"@, bps))
    }
}

/// What is remembered of a try that failed.
pub fn attempt_failure(attempt: VaapiAttempt, reason: &str) -> (out: String)
    ensures
        out@ == attempt.profile_name@ + ": "@ + reason@,
{
    concat3(attempt.profile_name, ": ", reason)
}

/// What is said where no try worked, with what is remembered of the last one.
pub fn no_usable_profile(codec_name: &str, last_error: &str) -> (out: String)
    ensures
        out@ == codec_name@ + ": no usable profile (last error: "@ + last_error@ + ")"@,
{
    let head = concat2(codec_name, ": no usable profile (last error: ");
    concat3(head.as_str(), last_error, ")")
}

/// What to do next to open an encoder.
#[derive(Debug)]
pub enum VaapiStep {
    Open(VaapiAttempt),
    /// No try worked, and this is said of it.
    GiveUp(String),
}

/// Walks through the tries: each is made once those before it have failed, with what is
/// remembered of them. The first that works is taken.
pub fn next_attempt(attempts: &Vec<VaapiAttempt>, failures: &Vec<String>, codec_name: &str) -> (step:
    VaapiStep)
    ensures
        match step {
            VaapiStep::Open(attempt) => {
                &&& failures@.len() < attempts@.len()
                &&& attempt == attempts@[failures@.len() as int]
            },
            VaapiStep::GiveUp(text) => {
                &&& failures@.len() >= attempts@.len()
                &&& text@ == codec_name@ + ": no usable profile (last error: "@ + (
                if failures@.len() == 0 {
                    Seq::empty()
                } else {
                    failures@.last()@
                }) + ")"@
            },
        },
{
    let made: usize = failures.len();
    if made < attempts.len() {
        VaapiStep::Open(attempts[made])
    } else if made == 0 {
        let text = no_usable_profile(codec_name, "");
        proof {
            reveal_strlit("");
            assert(""@ =~= Seq::<char>::empty());
        }
        VaapiStep::GiveUp(text)
    } else {
        VaapiStep::GiveUp(no_usable_profile(codec_name, failures[made - 1].as_str()))
    }
}

/// A request makes one keyframe, whichever place the frames come from: of two frames that reach
/// the codec after it, the first is one and the second is not.
pub proof fn either_frame_answers_a_request(
    encoder: VaapiEncoder,
    first: VaapiSource,
    second: VaapiSource,
)
    ensures
        encoder.asked().mark_of(first).keyframe,
        !encoder.asked().after_frame(first).mark_of(second).keyframe,
{
}

/// What is said where the encoder is not part of the codec library.
pub fn vaapi_encoder_not_found(codec_name: &str) -> (out: String)
    ensures
        out@ == codec_name@
            + " encoder not found (is FFmpeg built with VAAPI support for this codec?)"@,
{
    concat2(
        codec_name,
        " encoder not found (is FFmpeg built with VAAPI support for this codec?)",
    )
}

/// Low-power entry points are tried on Intel alone, and there every profile is tried again
/// without.
pub proof fn low_power_is_for_intel(config: EncoderConfig, vendor: GpuVendor, i: int)
    requires
        0 <= i < vaapi_tries(config, vendor).len(),
        vaapi_tries(config, vendor)[i].low_power,
    ensures
        vendor == GpuVendor::Intel,
        exists|j: int|
            i < j < vaapi_tries(config, vendor).len() && (#[trigger] vaapi_tries(
                config,
                vendor,
            )[j]) == (AttemptView { low_power: false, ..vaapi_tries(config, vendor)[i] }),
{
    let tries = vaapi_tries(config, vendor);
    let n = vaapi_profiles(config, true).len();
    if vendor == GpuVendor::Intel {
        if i < n {
            assert(tries[i] == vaapi_profiles(config, true)[i]);
            assert(tries[n + i] == vaapi_profiles(config, false)[i]);
        } else {
            assert(tries[i] == vaapi_profiles(config, false)[i - n]);
        }
    }
}

} // verus!
