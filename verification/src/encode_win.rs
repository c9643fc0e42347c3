//! The Windows hardware encoders.

use vstd::prelude::*;
use crate::encode_plan::{
    add_int, add_text, base_context, constant_rate, is_constant_rate, option_views, start_context,
    CodecContext, CodecOption, FrameCounter, FrameMark, OptionView, PixelFormat, Profile,
    RateUpdate,
};
use crate::encoder_select::CrossAdapterBackend;
use crate::media::{EncoderConfig, VideoCodec};
use crate::text::concat2;

verus! {

/// A family of Windows hardware encoders.
#[derive(Clone, Copy, Debug, PartialEq, Eq, Structural)]
pub enum WindowsEncoderBackend {
    Nvenc,
    Amf,
    MediaFoundation,
}

impl WindowsEncoderBackend {
    pub open spec fn label_text(self) -> Seq<char> {
        match self {
            WindowsEncoderBackend::Nvenc => "nvenc"@,
            WindowsEncoderBackend::Amf => "amf"@,
            WindowsEncoderBackend::MediaFoundation => "mf"@,
        }
    }

    /// The name of the backend in log lines.
    pub fn label(self) -> (name: &'static str)
        ensures
            name@ == self.label_text(),
    {
        match self {
            WindowsEncoderBackend::Nvenc => "nvenc",
            WindowsEncoderBackend::Amf => "amf",
            WindowsEncoderBackend::MediaFoundation => "mf",
        }
    }
}

/// Why the hardware encoders do not take settings.
pub open spec fn hardware_refusal(config: EncoderConfig, backend: WindowsEncoderBackend) -> Option<
    Seq<char>,
> {
    if config.yuv444() {
        Some("Windows hardware encoding currently supports YUV420 only"@)
    } else if config.hdr() && backend == WindowsEncoderBackend::MediaFoundation {
        Some("Media Foundation hardware encode is currently SDR-only"@)
    } else {
        None
    }
}

/// The profile of a hardware encoder.
pub open spec fn hardware_profile(config: EncoderConfig) -> Profile {
    match config.codec {
        VideoCodec::H264 => Profile::Number(100),
        VideoCodec::Hevc => Profile::Number(if config.hdr() {
            2
        } else {
            1
        }),
        VideoCodec::Av1 => Profile::Number(0),
    }
}

/// The context of a hardware encoder, whose rate is held at the target.
pub open spec fn hardware_context(config: EncoderConfig, vbv_buffer_size: i32) -> CodecContext {
    CodecContext {
        rc_min_rate: Some(config.bps() as i64),
        rc_max_rate: Some(config.bps() as i64),
        ..base_context(config, PixelFormat::D3d11, hardware_profile(config), vbv_buffer_size)
    }
}

/// The options of a hardware encoder.
pub open spec fn backend_options(config: EncoderConfig, backend: WindowsEncoderBackend) -> Seq<
    OptionView,
> {
    match backend {
        WindowsEncoderBackend::Nvenc => {
            let common = seq![
                OptionView::Text("preset"@, config.quality.nvenc_preset@),
                OptionView::Text("tune"@, config.quality.nvenc_tune@),
                OptionView::Text("rc"@, "cbr"@),
                OptionView::Int("delay"@, 0),
                OptionView::Int("forced-idr"@, 1),
                OptionView::Int("zerolatency"@, 1),
                OptionView::Int("surfaces"@, 1),
                OptionView::Int("cbr_padding"@, 0),
                OptionView::Int("rc-lookahead"@, 0),
            ];
            if config.codec != VideoCodec::Av1 {
                common.push(OptionView::Int("aud"@, 1))
            } else {
                common
            }
        },
        WindowsEncoderBackend::Amf => {
            let common = seq![
                OptionView::Int("filler_data"@, 0),
                OptionView::Int("forced_idr"@, 1),
                OptionView::Int("async_depth"@, 1),
                OptionView::Text("rc"@, "cbr"@),
                OptionView::Int("skip_frame"@, 0),
                OptionView::Int("frame_skipping"@, 0),
            ];
            if config.codec == VideoCodec::Hevc {
                common.push(OptionView::Text("header_insertion_mode"@, "idr"@))
            } else {
                common
            }
        },
        WindowsEncoderBackend::MediaFoundation => seq![
            OptionView::Int("hw_encoding"@, 1),
            OptionView::Text("rate_control"@, "cbr"@),
            OptionView::Text("scenario"@, "display_remoting"@),
        ],
    }
}

/// The options of a hardware encoder, in the order in which they are set.
pub fn apply_backend_options(backend: WindowsEncoderBackend, config: &EncoderConfig) -> (out: Vec<
    CodecOption,
>)
    ensures
        option_views(out@) == backend_options(*config, backend),
{
    let mut out: Vec<CodecOption> = Vec::new();
    proof {
        assert(option_views(out@) =~= Seq::<OptionView>::empty());
    }
    match backend {
        WindowsEncoderBackend::Nvenc => {
            add_text(&mut out, "preset", config.quality.nvenc_preset);
            add_text(&mut out, "tune", config.quality.nvenc_tune);
            add_text(&mut out, "rc", "cbr");
            add_int(&mut out, "delay", 0);
            add_int(&mut out, "forced-idr", 1);
            add_int(&mut out, "zerolatency", 1);
            add_int(&mut out, "surfaces", 1);
            add_int(&mut out, "cbr_padding", 0);
            add_int(&mut out, "rc-lookahead", 0);
            if config.codec != VideoCodec::Av1 {
                add_int(&mut out, "aud", 1);
            }
        },
        WindowsEncoderBackend::Amf => {
            add_int(&mut out, "filler_data", 0);
            add_int(&mut out, "forced_idr", 1);
            add_int(&mut out, "async_depth", 1);
            add_text(&mut out, "rc", "cbr");
            add_int(&mut out, "skip_frame", 0);
            add_int(&mut out, "frame_skipping", 0);
            if config.codec == VideoCodec::Hevc {
                add_text(&mut out, "header_insertion_mode", "idr");
            }
        },
        WindowsEncoderBackend::MediaFoundation => {
            add_int(&mut out, "hw_encoding", 1);
            add_text(&mut out, "rate_control", "cbr");
            add_text(&mut out, "scenario", "display_remoting");
        },
    }
    proof {
        assert(option_views(out@) =~= backend_options(*config, backend));
    }
    out
}

/// What a hardware encoder is opened with.
#[derive(Debug)]
pub struct HardwarePlan {
    pub context: CodecContext,
    pub options: Vec<CodecOption>,
    /// The frame rate of the colour conversion before it, at least one.
    pub processor_frame_rate: u32,
}

/// A Windows hardware encoder: its family, its size, its frames, and whether frames reach
/// it from another graphics processor.
#[derive(Clone, Copy, Debug, PartialEq, Eq, Structural)]
pub struct WindowsHwEncoder {
    pub backend: WindowsEncoderBackend,
    pub width: u32,
    pub height: u32,
    pub frames: FrameCounter,
    pub cross_adapter: bool,
}

/// A frame as the capture hands it over.
#[derive(Clone, Copy, Debug, PartialEq, Eq, Structural)]
pub enum FrameSource {
    Texture { array_index: u32 },
    Ram,
}

/// How a frame gets to the encoder.
#[derive(Clone, Copy, Debug, PartialEq, Eq, Structural)]
pub enum FramePath {
    /// It is copied through memory, and the copy is encoded.
    Staged { array_index: u32 },
    Direct { array_index: u32 },
}

impl WindowsHwEncoder {
    /// Works out what an encoder on the graphics processor of the capture is opened with.
    pub fn with_config_and_backend(
        config: &EncoderConfig,
        backend: WindowsEncoderBackend,
        vbv_buffer_size: i32,
    ) -> (out: Result<(WindowsHwEncoder, HardwarePlan), &'static str>)
        ensures
            WindowsHwEncoder::opens_as(out, *config, backend, vbv_buffer_size, false),
    {
        WindowsHwEncoder::plan(config, backend, vbv_buffer_size, false)
    }

    /// Works out what an encoder on another graphics processor is opened with.
    pub fn with_config_cross_adapter(
        config: &EncoderConfig,
        backend: WindowsEncoderBackend,
        vbv_buffer_size: i32,
    ) -> (out: Result<(WindowsHwEncoder, HardwarePlan), &'static str>)
        ensures
            WindowsHwEncoder::opens_as(out, *config, backend, vbv_buffer_size, true),
    {
        WindowsHwEncoder::plan(config, backend, vbv_buffer_size, true)
    }

    /// What either of them comes to.
    pub open spec fn opens_as(
        out: Result<(WindowsHwEncoder, HardwarePlan), &'static str>,
        config: EncoderConfig,
        backend: WindowsEncoderBackend,
        vbv_buffer_size: i32,
        cross_adapter: bool,
    ) -> bool {
        match out {
            Ok((encoder, plan)) => {
                &&& hardware_refusal(config, backend) is None
                &&& encoder == (WindowsHwEncoder {
                    backend,
                    width: config.width,
                    height: config.height,
                    frames: FrameCounter { frame_index: 0, force_keyframe_next: false },
                    cross_adapter,
                })
                &&& plan.context == hardware_context(config, vbv_buffer_size)
                &&& option_views(plan.options@) == backend_options(config, backend)
                &&& plan.processor_frame_rate == if config.framerate == 0 {
                    1
                } else {
                    config.framerate
                }
            },
            Err(e) => hardware_refusal(config, backend) == Some(e@),
        }
    }

    fn plan(
        config: &EncoderConfig,
        backend: WindowsEncoderBackend,
        vbv_buffer_size: i32,
        cross_adapter: bool,
    ) -> (out: Result<(WindowsHwEncoder, HardwarePlan), &'static str>)
        ensures
            WindowsHwEncoder::opens_as(out, *config, backend, vbv_buffer_size, cross_adapter),
    {
        if config.is_yuv444() {
            return Err("Windows hardware encoding currently supports YUV420 only");
        }
        if config.is_hdr() && backend == WindowsEncoderBackend::MediaFoundation {
            return Err("Media Foundation hardware encode is currently SDR-only");
        }
        let profile = match config.codec {
            VideoCodec::H264 => Profile::Number(100),
            VideoCodec::Hevc => Profile::Number(
                if config.is_hdr() {
                    2
                } else {
                    1
                },
            ),
            VideoCodec::Av1 => Profile::Number(0),
        };
        let mut context = start_context(config, PixelFormat::D3d11, profile, vbv_buffer_size);
        context.rc_min_rate = Some(config.bitrate_bps());
        context.rc_max_rate = Some(config.bitrate_bps());
        let processor_frame_rate: u32 = if config.framerate == 0 {
            1
        } else {
            config.framerate
        };
        let encoder = WindowsHwEncoder {
            backend,
            width: config.width,
            height: config.height,
            frames: FrameCounter::new(),
            cross_adapter,
        };
        Ok(
            (
                encoder,
                HardwarePlan {
                    context,
                    options: apply_backend_options(backend, config),
                    processor_frame_rate,
                },
            ),
        )
    }

    pub fn backend(&self) -> (out: WindowsEncoderBackend)
        ensures
            out == self.backend,
    {
        self.backend
    }

    pub fn backend_name(&self) -> (out: &'static str)
        ensures
            out@ == self.backend.label_text(),
    {
        self.backend.label()
    }

    /// How a frame gets to the encoder; one in memory does not.
    pub fn encode(&self, frame: FrameSource) -> (out: Result<FramePath, &'static str>)
        ensures
            match (out, frame) {
                (Ok(path), FrameSource::Texture { array_index }) => path == if self.cross_adapter {
                    FramePath::Staged { array_index }
                } else {
                    FramePath::Direct { array_index }
                },
                (Err(e), FrameSource::Ram) => e@
                    == "Windows hardware encoder requires D3D11 capture frames"@,
                _ => false,
            },
    {
        match frame {
            FrameSource::Texture { array_index } => if self.cross_adapter {
                Ok(FramePath::Staged { array_index })
            } else {
                Ok(FramePath::Direct { array_index })
            },
            FrameSource::Ram => Err("Windows hardware encoder requires D3D11 capture frames"),
        }
    }

    /// Numbers the next frame.
    pub fn encode_texture(&mut self) -> (mark: FrameMark)
        requires
            old(self).frames.frame_index < i64::MAX,
        ensures
            mark == (FrameMark {
                pts: old(self).frames.frame_index,
                keyframe: old(self).frames.force_keyframe_next,
            }),
            *final(self) == (WindowsHwEncoder { frames: old(self).frames.after(), ..*old(self) }),
    {
        self.frames.mark()
    }

    /// Makes the next frame a keyframe.
    pub fn reset_for_keyframe(&mut self)
        ensures
            *final(self) == (WindowsHwEncoder {
                frames: FrameCounter { force_keyframe_next: true, ..old(self).frames },
                ..*old(self)
            }),
    {
        self.frames.reset_for_keyframe();
    }

    /// The update that brings the encoder to another bitrate in place. It has to keep its
    /// size.
    pub fn update_bitrate(&self, config: &EncoderConfig, vbv_buffer_size: i32) -> (out: Result<
        RateUpdate,
        &'static str,
    >)
        ensures
            match out {
                Ok(update) => config.width == self.width && config.height == self.height
                    && is_constant_rate(update, *config, vbv_buffer_size),
                Err(e) => (config.width != self.width || config.height != self.height) && e@
                    == "hardware bitrate update requires unchanged resolution"@,
            },
    {
        if config.width != self.width || config.height != self.height {
            return Err("hardware bitrate update requires unchanged resolution");
        }
        Ok(constant_rate(config, vbv_buffer_size))
    }
}

/// What is said where the encoder on another graphics processor is not part of the codec
/// library.
pub fn cross_adapter_encoder_not_found(codec_name: &str) -> (out: String)
    ensures
        out@ == codec_name@ + " encoder not found"@,
{
    concat2(codec_name, " encoder not found")
}

/// Whether the view of an output texture is one of an array.
pub fn output_view_is_array(array_size: u32, array_index: u32) -> (yes: bool)
    ensures
        yes == (array_size > 1 || array_index > 0),
{
    array_size > 1 || array_index > 0
}

/// The name of the maker of a graphics processor.
pub open spec fn vendor_name(vendor_id: u32) -> Seq<char> {
    if vendor_id == 0x10de {
        "NVIDIA"@
    } else if vendor_id == 0x1002 || vendor_id == 0x1022 {
        "AMD"@
    } else if vendor_id == 0x8086 {
        "Intel"@
    } else if vendor_id == 0x5143 || vendor_id == 0x4d4f_4351 {
        "Qualcomm"@
    } else {
        "Unknown"@
    }
}

/// The name of the maker of a graphics processor.
pub fn vendor_label(vendor_id: u32) -> (out: &'static str)
    ensures
        out@ == vendor_name(vendor_id),
{
    match vendor_id {
        0x10de => "NVIDIA",
        0x1002 => "AMD",
        0x1022 => "AMD",
        0x8086 => "Intel",
        0x5143 => "Qualcomm",
        0x4d4f_4351 => "Qualcomm",
        _ => "Unknown",
    }
}

/// The families of encoders to try on a graphics processor, that of its maker first.
pub open spec fn backend_order(vendor_id: u32) -> Seq<WindowsEncoderBackend> {
    if vendor_id == 0x1002 || vendor_id == 0x1022 {
        seq![
            WindowsEncoderBackend::Amf,
            WindowsEncoderBackend::Nvenc,
            WindowsEncoderBackend::MediaFoundation,
        ]
    } else if vendor_id == 0x8086 || vendor_id == 0x5143 || vendor_id == 0x4d4f_4351 {
        seq![
            WindowsEncoderBackend::MediaFoundation,
            WindowsEncoderBackend::Nvenc,
            WindowsEncoderBackend::Amf,
        ]
    } else {
        seq![
            WindowsEncoderBackend::Nvenc,
            WindowsEncoderBackend::Amf,
            WindowsEncoderBackend::MediaFoundation,
        ]
    }
}

/// The families of encoders to try on the graphics processor of the capture. That of its
/// maker comes first, and all of them are tried.
pub fn preferred_backend_order(vendor_id: u32) -> (out: Vec<WindowsEncoderBackend>)
    ensures
        out@ == backend_order(vendor_id),
{
    let mut out: Vec<WindowsEncoderBackend> = Vec::new();
    if vendor_id == 0x1002 || vendor_id == 0x1022 {
        out.push(WindowsEncoderBackend::Amf);
        out.push(WindowsEncoderBackend::Nvenc);
        out.push(WindowsEncoderBackend::MediaFoundation);
    } else if vendor_id == 0x8086 || vendor_id == 0x5143 || vendor_id == 0x4d4f_4351 {
        out.push(WindowsEncoderBackend::MediaFoundation);
        out.push(WindowsEncoderBackend::Nvenc);
        out.push(WindowsEncoderBackend::Amf);
    } else {
        out.push(WindowsEncoderBackend::Nvenc);
        out.push(WindowsEncoderBackend::Amf);
        out.push(WindowsEncoderBackend::MediaFoundation);
    }
    proof {
        assert(out@ =~= backend_order(vendor_id));
    }
    out
}

/// Every family of encoders is tried on every graphics processor.
pub proof fn every_backend_is_tried(vendor_id: u32, backend: WindowsEncoderBackend)
    ensures
        backend_order(vendor_id).contains(backend),
{
    let order = backend_order(vendor_id);
    assert(order[0] == backend || order[1] == backend || order[2] == backend);
}

/// A graphics processor of the machine.
#[derive(Debug)]
pub struct AdapterInfo {
    pub luid_low: u32,
    pub luid_high: i32,
    pub vendor_id: u32,
    pub name: String,
}

/// The family of encoders that another graphics processor is tried with, by its maker.
pub open spec fn foreign_backend(vendor_id: u32) -> Option<WindowsEncoderBackend> {
    if vendor_id == 0x10de {
        Some(WindowsEncoderBackend::Nvenc)
    } else if vendor_id == 0x1002 || vendor_id == 0x1022 {
        Some(WindowsEncoderBackend::Amf)
    } else if vendor_id == 0x8086 {
        Some(WindowsEncoderBackend::MediaFoundation)
    } else {
        None
    }
}

/// An encoder on another graphics processor.
pub ghost struct ForeignEncoder {
    pub backend: WindowsEncoderBackend,
    pub adapter: int,
    pub name: Seq<char>,
}

/// The encoders on the first `n` graphics processors but that of the capture.
pub open spec fn foreign_encoders(
    luid_low: u32,
    luid_high: i32,
    adapters: Seq<AdapterInfo>,
    n: int,
) -> Seq<ForeignEncoder>
    decreases n,
{
    if n <= 0 {
        Seq::empty()
    } else {
        let rest = foreign_encoders(luid_low, luid_high, adapters, n - 1);
        let a = adapters[n - 1];
        match foreign_backend(a.vendor_id) {
            Some(backend) if !(a.luid_low == luid_low && a.luid_high == luid_high) => rest.push(
                ForeignEncoder { backend, adapter: n - 1, name: a.name@ },
            ),
            _ => rest,
        }
    }
}

/// What a list of encoders says.
pub open spec fn foreign_views(list: Seq<CrossAdapterBackend>) -> Seq<ForeignEncoder> {
    list.map_values(
        |c: CrossAdapterBackend|
            ForeignEncoder {
                backend: c.backend,
                adapter: c.adapter as int,
                name: c.adapter_name@,
            },
    )
}

/// Lists the encoders on graphics processors other than that of the capture, which is told
/// by its identity. Software adapters have none.
pub fn cross_adapter_backends(luid_low: u32, luid_high: i32, adapters: &Vec<AdapterInfo>) -> (out:
    Vec<CrossAdapterBackend>)
    ensures
        foreign_views(out@) == foreign_encoders(
            luid_low,
            luid_high,
            adapters@,
            adapters@.len() as int,
        ),
{
    let mut out: Vec<CrossAdapterBackend> = Vec::new();
    let mut i: usize = 0;
    proof {
        assert(foreign_views(out@) =~= foreign_encoders(luid_low, luid_high, adapters@, 0));
    }
    while i < adapters.len()
        invariant
            i <= adapters@.len(),
            foreign_views(out@) == foreign_encoders(luid_low, luid_high, adapters@, i as int),
        decreases adapters@.len() - i,
    {
        let adapter = &adapters[i];
        let own: bool = adapter.luid_low == luid_low && adapter.luid_high == luid_high;
        let backend: Option<WindowsEncoderBackend> = match adapter.vendor_id {
            0x10de => Some(WindowsEncoderBackend::Nvenc),
            0x1002 => Some(WindowsEncoderBackend::Amf),
            0x1022 => Some(WindowsEncoderBackend::Amf),
            0x8086 => Some(WindowsEncoderBackend::MediaFoundation),
            _ => None,
        };
        if !own {
            if let Some(backend) = backend {
                let ghost before = foreign_views(out@);
                let entry = CrossAdapterBackend {
                    backend,
                    adapter: i,
                    adapter_name: adapter.name.clone(),
                };
                let ghost view = ForeignEncoder { backend, adapter: i as int, name: adapter.name@ };
                out.push(entry);
                proof {
                    assert(foreign_views(out@) =~= before.push(view));
                }
            }
        }
        i = i + 1;
    }
    out
}

/// How long a name is that a zero ends, or the end of its field.
pub open spec fn name_end(field: Seq<u16>, from: int) -> int
    decreases field.len() - from,
{
    if from < 0 || from >= field.len() || field[from] == 0 {
        from
    } else {
        name_end(field, from + 1)
    }
}

/// How long the name in a field of fixed length is.
pub fn name_length(field: &[u16]) -> (len: usize)
    ensures
        len == name_end(field@, 0),
        len <= field@.len(),
{
    let mut i: usize = 0;
    while i < field.len()
        invariant
            i <= field@.len(),
            name_end(field@, 0) == name_end(field@, i as int),
        decreases field@.len() - i,
    {
        if field[i] == 0 {
            return i;
        }
        i = i + 1;
    }
    i
}

} // verus!
