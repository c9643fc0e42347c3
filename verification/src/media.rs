//! Codecs, chroma formats and the settings that an encoder is opened with.

use vstd::prelude::*;

verus! {

/// A video codec.
#[derive(Clone, Copy, Debug, PartialEq, Eq, Structural)]
pub enum VideoCodec {
    H264,
    Hevc,
    Av1,
}

/// How much of the colour information a stream keeps.
#[derive(Clone, Copy, Debug, PartialEq, Eq, Structural)]
pub enum ChromaSampling {
    Yuv420,
    Yuv444,
}

/// The dynamic range of the encoded picture.
#[derive(Clone, Copy, Debug, PartialEq, Eq, Structural)]
pub enum DynamicRange {
    Sdr,
    Hdr,
}

/// A set of codecs.
#[derive(Clone, Copy, Debug, PartialEq, Eq, Structural)]
pub struct VideoCodecSupport {
    pub h264: bool,
    pub hevc: bool,
    pub av1: bool,
}

impl VideoCodecSupport {
    pub open spec fn has(self, codec: VideoCodec) -> bool {
        match codec {
            VideoCodec::H264 => self.h264,
            VideoCodec::Hevc => self.hevc,
            VideoCodec::Av1 => self.av1,
        }
    }

    pub fn supports(self, codec: VideoCodec) -> (yes: bool)
        ensures
            yes == self.has(codec),
    {
        match codec {
            VideoCodec::H264 => self.h264,
            VideoCodec::Hevc => self.hevc,
            VideoCodec::Av1 => self.av1,
        }
    }

    /// No codec at all.
    pub fn empty() -> (out: Self)
        ensures
            forall|c: VideoCodec| !out.has(c),
    {
        VideoCodecSupport { h264: false, hevc: false, av1: false }
    }

    /// Only H.264.
    pub fn h264_only() -> (out: Self)
        ensures
            forall|c: VideoCodec| out.has(c) == (c == VideoCodec::H264),
    {
        VideoCodecSupport { h264: true, hevc: false, av1: false }
    }
}

/// What a client says about its display and its decoders.
#[derive(Clone, Copy, Debug, PartialEq, Eq, Structural)]
pub struct ClientDisplayInfo {
    pub max_refresh_millihz: u32,
    pub udp_port: u16,
    pub hdr_display: bool,
    pub supported_video_codecs: VideoCodecSupport,
    pub hardware_video_codecs: VideoCodecSupport,
    pub supported_yuv444_video_codecs: VideoCodecSupport,
    pub hardware_yuv444_video_codecs: VideoCodecSupport,
}

/// The encoder presets that a quality level stands for.
#[derive(Clone, Copy, Debug)]
pub struct Quality {
    pub x26x_preset: &'static str,
    pub svtav1_preset: &'static str,
    pub nvenc_preset: &'static str,
    pub nvenc_tune: &'static str,
}

/// The settings that an encoder is opened with.
#[derive(Clone, Copy, Debug)]
pub struct EncoderConfig {
    pub width: u32,
    pub height: u32,
    pub framerate: u32,
    pub bitrate_kbps: u32,
    pub min_bitrate_kbps: u32,
    pub max_bitrate_kbps: u32,
    pub codec: VideoCodec,
    pub chroma: ChromaSampling,
    pub dynamic_range: DynamicRange,
    pub quality: Quality,
    pub gop_size: u32,
    pub max_b_frames: u32,
    pub low_delay: bool,
    pub min_qp: Option<u32>,
    pub slices_per_frame: u32,
    pub h264_coder: Option<&'static str>,
    pub intra_refresh: bool,
}

/// The keyframe interval that stands for "on demand only".
pub const INFINITE_GOP: u32 = 0x7fff_ffff;

impl EncoderConfig {
    pub open spec fn yuv444(self) -> bool {
        self.chroma == ChromaSampling::Yuv444
    }

    pub open spec fn hdr(self) -> bool {
        self.dynamic_range == DynamicRange::Hdr
    }

    pub fn is_yuv444(&self) -> (yes: bool)
        ensures
            yes == self.yuv444(),
    {
        self.chroma == ChromaSampling::Yuv444
    }

    pub fn is_hdr(&self) -> (yes: bool)
        ensures
            yes == self.hdr(),
    {
        self.dynamic_range == DynamicRange::Hdr
    }

    pub open spec fn bps(self) -> int {
        self.bitrate_kbps * 1000
    }

    /// The target bitrate in bits per second.
    pub fn bitrate_bps(&self) -> (bps: i64)
        ensures
            bps == self.bps(),
    {
        self.bitrate_kbps as i64 * 1000
    }

    /// The same settings with another chroma format.
    pub fn with_chroma_sampling(self, chroma: ChromaSampling) -> (out: Self)
        ensures
            out == (EncoderConfig { chroma, ..self }),
    {
        EncoderConfig { chroma, ..self }
    }
}

/// The short name of a codec.
pub open spec fn codec_label(codec: VideoCodec) -> Seq<char> {
    match codec {
        VideoCodec::H264 => "h264"@,
        VideoCodec::Hevc => "hevc"@,
        VideoCodec::Av1 => "av1"@,
    }
}

/// The short name of a codec.
pub fn codec_name(codec: VideoCodec) -> (name: &'static str)
    ensures
        name@ == codec_label(codec),
{
    match codec {
        VideoCodec::H264 => "h264",
        VideoCodec::Hevc => "hevc",
        VideoCodec::Av1 => "av1",
    }
}

/// The names of the codecs in the set, in a fixed order.
pub open spec fn support_labels(support: VideoCodecSupport) -> Seq<Seq<char>> {
    let first = if support.h264 {
        seq!["h264"@]
    } else {
        Seq::<Seq<char>>::empty()
    };
    let second = if support.hevc {
        first.push("hevc"@)
    } else {
        first
    };
    if support.av1 {
        second.push("av1"@)
    } else {
        second
    }
}

/// The names of the codecs in the set, for a log line; a dash for the empty set.
pub fn codec_support_summary(support: VideoCodecSupport) -> (out: String)
    ensures
        out@ == (if support_labels(support).len() == 0 {
            "-"@
        } else {
            crate::text::joined(support_labels(support), " / "@)
        }),
{
    let mut entries: Vec<String> = Vec::new();
    if support.h264 {
        entries.push("h264".to_owned());
    }
    assert(crate::text::texts(entries@) == (if support.h264 {
        seq!["h264"@]
    } else {
        Seq::<Seq<char>>::empty()
    }));
    if support.hevc {
        let ghost before = crate::text::texts(entries@);
        entries.push("hevc".to_owned());
        assert(crate::text::texts(entries@) == before.push("hevc"@));
    }
    if support.av1 {
        let ghost before = crate::text::texts(entries@);
        entries.push("av1".to_owned());
        assert(crate::text::texts(entries@) == before.push("av1"@));
    }
    assert(crate::text::texts(entries@) == support_labels(support));
    if entries.len() == 0 {
        "-".to_owned()
    } else {
        crate::text::join(&entries, " / ")
    }
}

/// The codecs that the client decodes; H.264 where it has not said.
pub fn client_supported_video_codecs(display: Option<ClientDisplayInfo>) -> (out: VideoCodecSupport)
    ensures
        match display {
            Some(info) => out == info.supported_video_codecs,
            None => forall|c: VideoCodec| out.has(c) == (c == VideoCodec::H264),
        },
{
    match display {
        Some(info) => info.supported_video_codecs,
        None => VideoCodecSupport::h264_only(),
    }
}

/// The codecs that the client decodes in hardware; none where it has not said.
pub fn client_hardware_video_codecs(display: Option<ClientDisplayInfo>) -> (out: VideoCodecSupport)
    ensures
        match display {
            Some(info) => out == info.hardware_video_codecs,
            None => forall|c: VideoCodec| !out.has(c),
        },
{
    match display {
        Some(info) => info.hardware_video_codecs,
        None => VideoCodecSupport::empty(),
    }
}

/// The codecs that the client decodes in 4:4:4; none where it has not said.
pub fn client_supported_yuv444_video_codecs(display: Option<ClientDisplayInfo>) -> (out:
    VideoCodecSupport)
    ensures
        match display {
            Some(info) => out == info.supported_yuv444_video_codecs,
            None => forall|c: VideoCodec| !out.has(c),
        },
{
    match display {
        Some(info) => info.supported_yuv444_video_codecs,
        None => VideoCodecSupport::empty(),
    }
}

/// The codecs that the client decodes in 4:4:4 in hardware; none where it has not said.
pub fn client_hardware_yuv444_video_codecs(display: Option<ClientDisplayInfo>) -> (out:
    VideoCodecSupport)
    ensures
        match display {
            Some(info) => out == info.hardware_yuv444_video_codecs,
            None => forall|c: VideoCodec| !out.has(c),
        },
{
    match display {
        Some(info) => info.hardware_yuv444_video_codecs,
        None => VideoCodecSupport::empty(),
    }
}

/// Whether the client's display presents HDR; a client that has not said gets SDR.
pub fn client_hdr_display(display: Option<ClientDisplayInfo>) -> (yes: bool)
    ensures
        yes == (display matches Some(info) && info.hdr_display),
{
    match display {
        Some(info) => info.hdr_display,
        None => false,
    }
}

/// The short name of a chroma format.
pub open spec fn chroma_label(chroma: ChromaSampling) -> Seq<char> {
    match chroma {
        ChromaSampling::Yuv420 => "yuv420"@,
        ChromaSampling::Yuv444 => "yuv444"@,
    }
}

/// The short name of a chroma format.
pub fn encoder_chroma_name(chroma: ChromaSampling) -> (name: &'static str)
    ensures
        name@ == chroma_label(chroma),
{
    match chroma {
        ChromaSampling::Yuv420 => "yuv420",
        ChromaSampling::Yuv444 => "yuv444",
    }
}

pub open spec fn yuv444_codec(codec: VideoCodec) -> bool {
    codec != VideoCodec::Av1
}

/// Whether 4:4:4 encoding is implemented for the codec.
pub fn supports_yuv444_codec(codec: VideoCodec) -> (yes: bool)
    ensures
        yes == yuv444_codec(codec),
{
    match codec {
        VideoCodec::H264 => true,
        VideoCodec::Hevc => true,
        VideoCodec::Av1 => false,
    }
}

} // verus!
