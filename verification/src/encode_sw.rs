//! The software encoders.

use vstd::prelude::*;
use crate::encode_plan::{
    add_text, as_signed, base_context, constant_rate, is_constant_rate, option_views, start_context,
    CodecContext, CodecOption, FrameCounter, FrameMark, OptionView, PixelFormat, Profile,
    RateUpdate,
};
use crate::media::{EncoderConfig, VideoCodec, INFINITE_GOP};

verus! {

/// Why the software encoders do not take settings.
pub open spec fn software_refusal(config: EncoderConfig) -> Option<Seq<char>> {
    if config.yuv444() && config.hdr() {
        Some("Software YUV444 HDR encoding is not implemented"@)
    } else if config.yuv444() && config.codec == VideoCodec::Av1 {
        Some("Software AV1 YUV444 encoding is not implemented"@)
    } else {
        None
    }
}

/// The pixel format that the software encoders work in.
pub open spec fn software_format(config: EncoderConfig) -> PixelFormat {
    if config.yuv444() {
        PixelFormat::Yuv444p
    } else if config.hdr() {
        PixelFormat::Yuv420p10le
    } else {
        PixelFormat::Yuv420p
    }
}

/// The profile of the software encoders.
pub open spec fn software_profile(config: EncoderConfig) -> Profile {
    match config.codec {
        VideoCodec::H264 => if config.yuv444() {
            Profile::H264High444Predictive
        } else {
            Profile::Number(100)
        },
        VideoCodec::Hevc => if config.yuv444() {
            Profile::HevcRangeExtensions
        } else if config.hdr() {
            Profile::Number(2)
        } else {
            Profile::Number(1)
        },
        VideoCodec::Av1 => Profile::Number(0),
    }
}

/// The context of a software encoder. A keyframe interval of zero would mean keyframes
/// only, so it is read as one without end.
pub open spec fn software_context(config: EncoderConfig, vbv_buffer_size: i32) -> CodecContext {
    CodecContext {
        gop_size: if config.gop_size == 0 {
            INFINITE_GOP as i32
        } else {
            config.gop_size as i32
        },
        qmin: match config.min_qp {
            Some(q) => Some(q as i32),
            None => None,
        },
        slices: Some(config.slices_per_frame as i32),
        ..base_context(config, software_format(config), software_profile(config), vbv_buffer_size)
    }
}

/// The options of a software encoder.
pub open spec fn software_options(config: EncoderConfig) -> Seq<OptionView> {
    let x26x = seq![
        OptionView::Text("preset"@, config.quality.x26x_preset@),
        OptionView::Text("tune"@, "zerolatency"@),
        OptionView::Text("forced-idr"@, "1"@),
    ];
    match config.codec {
        VideoCodec::H264 => {
            let with_params = x26x.push(
                OptionView::Text(
                    "x264-params"@,
                    if config.intra_refresh {
                        "repeat-headers=1:aud=1:intra-refresh=1"@
                    } else {
                        "repeat-headers=1:aud=1"@
                    },
                ),
            );
            match config.h264_coder {
                Some(coder) => with_params.push(OptionView::Text("coder"@, coder@)),
                None => with_params,
            }
        },
        VideoCodec::Hevc => x26x.push(
            OptionView::Text("x265-params"@, "repeat-headers=1:aud=1"@),
        ),
        VideoCodec::Av1 => seq![OptionView::Text("preset"@, config.quality.svtav1_preset@)],
    }
}

/// What a software encoder is opened with.
#[derive(Debug)]
pub struct SoftwarePlan {
    pub context: CodecContext,
    pub options: Vec<CodecOption>,
}

/// A software encoder: its size and its frames.
#[derive(Clone, Copy, Debug, PartialEq, Eq, Structural)]
pub struct SoftwareEncoder {
    pub width: u32,
    pub height: u32,
    pub frames: FrameCounter,
}

impl SoftwareEncoder {
    /// Works out what an encoder for `config` is opened with. `vbv_buffer_size` is the size
    /// of its rate buffer in bits.
    pub fn with_config(config: &EncoderConfig, vbv_buffer_size: i32) -> (out: Result<
        (SoftwareEncoder, SoftwarePlan),
        &'static str,
    >)
        ensures
            match out {
                Ok((encoder, plan)) => {
                    &&& software_refusal(*config) is None
                    &&& encoder == (SoftwareEncoder {
                        width: config.width,
                        height: config.height,
                        frames: FrameCounter { frame_index: 0, force_keyframe_next: false },
                    })
                    &&& plan.context == software_context(*config, vbv_buffer_size)
                    &&& option_views(plan.options@) == software_options(*config)
                },
                Err(e) => software_refusal(*config) == Some(e@),
            },
    {
        if config.is_yuv444() && config.is_hdr() {
            return Err("Software YUV444 HDR encoding is not implemented");
        }
        if config.is_yuv444() && config.codec == VideoCodec::Av1 {
            return Err("Software AV1 YUV444 encoding is not implemented");
        }
        let format = if config.is_yuv444() {
            PixelFormat::Yuv444p
        } else if config.is_hdr() {
            PixelFormat::Yuv420p10le
        } else {
            PixelFormat::Yuv420p
        };
        let profile = match config.codec {
            VideoCodec::H264 => if config.is_yuv444() {
                Profile::H264High444Predictive
            } else {
                Profile::Number(100)
            },
            VideoCodec::Hevc => if config.is_yuv444() {
                Profile::HevcRangeExtensions
            } else if config.is_hdr() {
                Profile::Number(2)
            } else {
                Profile::Number(1)
            },
            VideoCodec::Av1 => Profile::Number(0),
        };
        let mut context = start_context(config, format, profile, vbv_buffer_size);
        if config.gop_size == 0 {
            context.gop_size = as_signed(INFINITE_GOP);
        }
        context.qmin = match config.min_qp {
            Some(q) => Some(as_signed(q)),
            None => None,
        };
        context.slices = Some(as_signed(config.slices_per_frame));
        let encoder = SoftwareEncoder {
            width: config.width,
            height: config.height,
            frames: FrameCounter::new(),
        };
        Ok((encoder, SoftwarePlan { context, options: software_option_list(config) }))
    }

    /// Numbers the next frame.
    pub fn encode(&mut self) -> (mark: FrameMark)
        requires
            old(self).frames.frame_index < i64::MAX,
        ensures
            mark == (FrameMark {
                pts: old(self).frames.frame_index,
                keyframe: old(self).frames.force_keyframe_next,
            }),
            *final(self) == (SoftwareEncoder { frames: old(self).frames.after(), ..*old(self) }),
    {
        self.frames.mark()
    }

    /// Makes the next frame a keyframe.
    pub fn reset_for_keyframe(&mut self)
        ensures
            *final(self) == (SoftwareEncoder {
                frames: FrameCounter { force_keyframe_next: true, ..old(self).frames },
                ..*old(self)
            }),
    {
        self.frames.reset_for_keyframe();
    }

    /// The update that brings the encoder to another bitrate in place. It has to keep its
    /// size.
    pub fn update_bitrate(&self, config: &EncoderConfig, vbv_buffer_size: i32) -> (out: Result<
        RateUpdate,
        &'static str,
    >)
        ensures
            match out {
                Ok(update) => config.width == self.width && config.height == self.height
                    && is_constant_rate(update, *config, vbv_buffer_size),
                Err(e) => (config.width != self.width || config.height != self.height) && e@
                    == "software bitrate update requires unchanged resolution"@,
            },
    {
        if config.width != self.width || config.height != self.height {
            return Err("software bitrate update requires unchanged resolution");
        }
        Ok(constant_rate(config, vbv_buffer_size))
    }
}

fn software_option_list(config: &EncoderConfig) -> (out: Vec<CodecOption>)
    ensures
        option_views(out@) == software_options(*config),
{
    let mut options: Vec<CodecOption> = Vec::new();
    match config.codec {
        VideoCodec::H264 => {
            add_text(&mut options, "preset", config.quality.x26x_preset);
            add_text(&mut options, "tune", "zerolatency");
            add_text(&mut options, "forced-idr", "1");
            add_text(
                &mut options,
                "x264-params",
                if config.intra_refresh {
                    "repeat-headers=1:aud=1:intra-refresh=1"
                } else {
                    "repeat-headers=1:aud=1"
                },
            );
            if let Some(coder) = config.h264_coder {
                add_text(&mut options, "coder", coder);
            }
        },
        VideoCodec::Hevc => {
            add_text(&mut options, "preset", config.quality.x26x_preset);
            add_text(&mut options, "tune", "zerolatency");
            add_text(&mut options, "forced-idr", "1");
            add_text(&mut options, "x265-params", "repeat-headers=1:aud=1");
        },
        VideoCodec::Av1 => {
            add_text(&mut options, "preset", config.quality.svtav1_preset);
        },
    }
    proof {
        assert(option_views(options@) =~= software_options(*config));
    }
    options
}

/// Every stream that a software H.264 or HEVC encoder makes repeats its headers.
pub proof fn x26x_streams_repeat_headers(config: EncoderConfig)
    requires
        config.codec != VideoCodec::Av1,
    ensures
        software_options(config)[3] matches OptionView::Text(_, value) && value.len() >= 22
            && value.subrange(0, 22) == "repeat-headers=1:aud=1"@,
{
    reveal_strlit("repeat-headers=1:aud=1");
    reveal_strlit("repeat-headers=1:aud=1:intra-refresh=1");
    assert("repeat-headers=1:aud=1"@.subrange(0, 22) =~= "repeat-headers=1:aud=1"@);
    assert("repeat-headers=1:aud=1:intra-refresh=1"@.subrange(0, 22)
        =~= "repeat-headers=1:aud=1"@);
}

/// The mapping and the copies that read a picture out of a shared buffer.
#[derive(Debug)]
pub struct BufferRead {
    /// How many bytes are mapped.
    pub map_len: usize,
    /// The copies, counted from the start of the plane.
    pub copies: Vec<crate::encode_plan::RowCopy>,
}

/// The copies of the first `n` rows out of a plane.
pub open spec fn plane_copies(row: int, pitch: int, stride: int, n: int) -> Seq<
    crate::encode_plan::RowCopy,
> {
    Seq::new(
        n as nat,
        |i: int|
            crate::encode_plan::RowCopy {
                from: (i * pitch) as usize,
                to: (i * stride) as usize,
                len: row as usize,
            },
    )
}

/// Works out how a picture is read out of the plane of a shared buffer.
pub fn fill_bgra_from_dmabuf(
    plane_count: usize,
    offset: u32,
    pitch: u32,
    width: u32,
    height: u32,
    stride: usize,
) -> (out: Result<BufferRead, &'static str>)
    requires
        offset + pitch * height <= usize::MAX,
        stride * height <= usize::MAX,
        width * 4 <= usize::MAX,
    ensures
        match out {
            Ok(read) => {
                &&& plane_count > 0
                &&& read.map_len == offset + pitch * height
                &&& read.copies@ == if pitch == stride {
                    seq![
                        crate::encode_plan::RowCopy {
                            from: 0,
                            to: 0,
                            len: (stride * height) as usize,
                        },
                    ]
                } else {
                    plane_copies(width * 4, pitch as int, stride as int, height as int)
                }
            },
            Err(e) => plane_count == 0 && e@ == "DMA-BUF has no planes"@,
        },
{
    if plane_count == 0 {
        return Err("DMA-BUF has no planes");
    }
    proof {
        assert(0 <= pitch * height && 0 <= stride * height) by (nonlinear_arith);
    }
    let map_len: usize = offset as usize + pitch as usize * height as usize;
    let mut copies: Vec<crate::encode_plan::RowCopy> = Vec::new();
    if pitch as usize == stride {
        copies.push(
            crate::encode_plan::RowCopy { from: 0, to: 0, len: stride * height as usize },
        );
    } else {
        let mut row: u32 = 0;
        while row < height
            invariant
                row <= height,
                pitch * height <= usize::MAX,
                stride * height <= usize::MAX,
                width * 4 <= usize::MAX,
                copies@ == plane_copies(width * 4, pitch as int, stride as int, row as int),
            decreases height - row,
        {
            proof {
                assert(0 <= row * pitch <= pitch * height && 0 <= row * stride <= stride * height)
                    by (nonlinear_arith)
                    requires
                        row < height,
                ;
            }
            copies.push(
                crate::encode_plan::RowCopy {
                    from: row as usize * pitch as usize,
                    to: row as usize * stride,
                    len: width as usize * 4,
                },
            );
            row = row + 1;
            proof {
                assert(copies@ =~= plane_copies(
                    width * 4,
                    pitch as int,
                    stride as int,
                    row as int,
                ));
            }
        }
    }
    Ok(BufferRead { map_len, copies })
}

/// The size and format of a texture.
#[derive(Clone, Copy, Debug, PartialEq, Eq, Structural)]
pub struct TextureInfo {
    pub width: u32,
    pub height: u32,
    pub format: u32,
    pub mip_levels: u32,
    pub array_size: u32,
}

/// Whether the texture through which frames are read has to be made anew: there is none,
/// or it has another size or format.
pub fn staging_is_stale(staging: Option<TextureInfo>, source: TextureInfo) -> (yes: bool)
    ensures
        yes == !(staging matches Some(s) && s.width == source.width && s.height == source.height
            && s.format == source.format),
{
    match staging {
        Some(s) => s.width != source.width || s.height != source.height || s.format
            != source.format,
        None => true,
    }
}

/// The part of a texture that is copied: `None` for all of it, else the number of the
/// subresource.
pub fn source_subresource(array_index: u32, source: TextureInfo) -> (out: Option<u32>)
    ensures
        out == if array_index == 0 && source.array_size <= 1 {
            None
        } else if array_index * source.mip_levels <= u32::MAX {
            Some((array_index * source.mip_levels) as u32)
        } else {
            Some(u32::MAX)
        },
{
    if array_index == 0 && source.array_size <= 1 {
        None
    } else {
        proof {
            assert(0 <= array_index * source.mip_levels <= 0xffff_ffff * 0xffff_ffff)
                by (nonlinear_arith)
                requires
                    array_index <= 0xffff_ffff,
                    source.mip_levels <= 0xffff_ffff,
            ;
        }
        let product: u64 = array_index as u64 * source.mip_levels as u64;
        if product <= 0xffff_ffff {
            Some(product as u32)
        } else {
            Some(0xffff_ffff)
        }
    }
}

} // verus!
