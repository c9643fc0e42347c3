//! The settings that encoders are opened and adjusted with.

use vstd::prelude::*;
use crate::media::EncoderConfig;
use crate::text::{concat2, concat3};

verus! {

/// A pixel format of an encoder.
#[derive(Clone, Copy, Debug, PartialEq, Eq, Structural)]
pub enum PixelFormat {
    Yuv420p,
    Yuv420p10le,
    Yuv444p,
    Nv12,
    P010le,
    Vaapi,
    D3d11,
}

/// A codec profile.
#[derive(Clone, Copy, Debug, PartialEq, Eq, Structural)]
pub enum Profile {
    Number(i32),
    H264High444Predictive,
    HevcRangeExtensions,
}

/// What an encoder's context is filled with. A rate or a quantizer that is not given keeps
/// its default.
#[derive(Clone, Copy, Debug, PartialEq, Eq, Structural)]
pub struct CodecContext {
    pub width: i32,
    pub height: i32,
    pub pixel_format: PixelFormat,
    /// Frames per second: the frame rate, and the denominator of the time base.
    pub framerate: i32,
    pub gop_size: i32,
    pub max_b_frames: i32,
    pub bit_rate: i64,
    pub rc_min_rate: Option<i64>,
    pub rc_max_rate: Option<i64>,
    pub rc_buffer_size: i32,
    pub low_delay: bool,
    pub closed_gop: bool,
    pub profile: Profile,
    pub qmin: Option<i32>,
    pub slices: Option<i32>,
}

/// The context fields that every encoder takes from its settings alike.
pub open spec fn base_context(
    config: EncoderConfig,
    pixel_format: PixelFormat,
    profile: Profile,
    vbv_buffer_size: i32,
) -> CodecContext {
    CodecContext {
        width: config.width as i32,
        height: config.height as i32,
        pixel_format,
        framerate: config.framerate as i32,
        gop_size: config.gop_size as i32,
        max_b_frames: config.max_b_frames as i32,
        bit_rate: config.bps() as i64,
        rc_min_rate: None,
        rc_max_rate: None,
        rc_buffer_size: vbv_buffer_size,
        low_delay: config.low_delay,
        closed_gop: true,
        profile,
        qmin: None,
        slices: None,
    }
}

/// Fills in the context fields that every encoder takes from its settings alike.
pub fn start_context(
    config: &EncoderConfig,
    pixel_format: PixelFormat,
    profile: Profile,
    vbv_buffer_size: i32,
) -> (out: CodecContext)
    ensures
        out == base_context(*config, pixel_format, profile, vbv_buffer_size),
{
    CodecContext {
        width: as_signed(config.width),
        height: as_signed(config.height),
        pixel_format,
        framerate: as_signed(config.framerate),
        gop_size: as_signed(config.gop_size),
        max_b_frames: as_signed(config.max_b_frames),
        bit_rate: config.bitrate_bps(),
        rc_min_rate: None,
        rc_max_rate: None,
        rc_buffer_size: vbv_buffer_size,
        low_delay: config.low_delay,
        closed_gop: true,
        profile,
        qmin: None,
        slices: None,
    }
}

/// The same bits as a signed number.
pub fn as_signed(n: u32) -> (out: i32)
    ensures
        out == n as i32,
{
    #[verifier::truncate]
    (n as i32)
}

/// The value of an encoder option.
#[derive(Clone, Copy, Debug, PartialEq, Eq)]
pub enum OptionValue {
    Text(&'static str),
    Int(i64),
}

/// An option of an encoder.
#[derive(Clone, Copy, Debug, PartialEq, Eq)]
pub struct CodecOption {
    pub name: &'static str,
    pub value: OptionValue,
}

/// The same as a value of mathematics.
pub ghost enum OptionView {
    Text(Seq<char>, Seq<char>),
    Int(Seq<char>, int),
}

impl View for CodecOption {
    type V = OptionView;

    open spec fn view(&self) -> OptionView {
        match self.value {
            OptionValue::Text(t) => OptionView::Text(self.name@, t@),
            OptionValue::Int(n) => OptionView::Int(self.name@, n as int),
        }
    }
}

/// The views of a list of options.
pub open spec fn option_views(options: Seq<CodecOption>) -> Seq<OptionView> {
    options.map_values(|o: CodecOption| o@)
}

/// Adds an option with a text.
pub fn add_text(options: &mut Vec<CodecOption>, name: &'static str, value: &'static str)
    ensures
        option_views(final(options)@) == option_views(old(options)@).push(
            OptionView::Text(name@, value@),
        ),
{
    let ghost before = option_views(options@);
    options.push(CodecOption { name, value: OptionValue::Text(value) });
    proof {
        assert(option_views(options@) =~= before.push(OptionView::Text(name@, value@)));
    }
}

/// Adds an option with a number.
pub fn add_int(options: &mut Vec<CodecOption>, name: &'static str, value: i64)
    ensures
        option_views(final(options)@) == option_views(old(options)@).push(
            OptionView::Int(name@, value as int),
        ),
{
    let ghost before = option_views(options@);
    options.push(CodecOption { name, value: OptionValue::Int(value) });
    proof {
        assert(option_views(options@) =~= before.push(OptionView::Int(name@, value as int)));
    }
}

/// Whether setting an option went through: an encoder that does not know the option does
/// without it. `not_found` is the code for that.
pub fn option_accepted(code: i32, not_found: i32) -> (ok: bool)
    ensures
        ok == (code >= 0 || code == not_found),
{
    code >= 0 || code == not_found
}

/// What an encoder that was asked for a packet answers.
#[derive(Clone, Copy, Debug, PartialEq, Eq, Structural)]
pub enum Received {
    Packet,
    /// There is none for now.
    Drained,
    Failed,
}

/// Reads the answer of an encoder that was asked for a packet. `again` and `end` are the
/// codes for "none yet" and "none any more".
pub fn receive_step(code: i32, again: i32, end: i32) -> (out: Received)
    ensures
        out == if code == again || code == end {
            Received::Drained
        } else if code < 0 {
            Received::Failed
        } else {
            Received::Packet
        },
{
    if code == again || code == end {
        Received::Drained
    } else if code < 0 {
        Received::Failed
    } else {
        Received::Packet
    }
}

/// The frames that an encoder has had.
#[derive(Clone, Copy, Debug, PartialEq, Eq, Structural)]
pub struct FrameCounter {
    pub frame_index: i64,
    pub force_keyframe_next: bool,
}

/// How a frame goes to the encoder.
#[derive(Clone, Copy, Debug, PartialEq, Eq, Structural)]
pub struct FrameMark {
    pub pts: i64,
    pub keyframe: bool,
}

impl FrameCounter {
    /// The counter after a frame that answers a keyframe request.
    pub open spec fn after(self) -> FrameCounter {
        FrameCounter { frame_index: (self.frame_index + 1) as i64, force_keyframe_next: false }
    }

    pub fn new() -> (out: Self)
        ensures
            out == (FrameCounter { frame_index: 0, force_keyframe_next: false }),
    {
        FrameCounter { frame_index: 0, force_keyframe_next: false }
    }

    /// Asks for a keyframe.
    pub fn reset_for_keyframe(&mut self)
        ensures
            *final(self) == (FrameCounter { force_keyframe_next: true, ..*old(self) }),
    {
        self.force_keyframe_next = true;
    }

    /// Numbers a frame, and makes it a keyframe where one was asked for.
    pub fn mark(&mut self) -> (mark: FrameMark)
        requires
            old(self).frame_index < i64::MAX,
        ensures
            mark == (FrameMark {
                pts: old(self).frame_index,
                keyframe: old(self).force_keyframe_next,
            }),
            *final(self) == old(self).after(),
    {
        let mark = FrameMark { pts: self.frame_index, keyframe: self.force_keyframe_next };
        self.frame_index = self.frame_index + 1;
        self.force_keyframe_next = false;
        mark
    }
}

/// A request makes one keyframe: of two frames that follow it, the first is one and the
/// second is not.
pub proof fn one_request_makes_one_keyframe(c: FrameCounter)
    ensures
        ({
            let asked = FrameCounter { force_keyframe_next: true, ..c };
            asked.force_keyframe_next && !asked.after().force_keyframe_next
        }),
{
}

/// New rates for a running encoder. The options are set in order.
#[derive(Debug)]
pub struct RateUpdate {
    pub bit_rate: i64,
    pub rc_min_rate: i64,
    pub rc_max_rate: i64,
    pub rc_buffer_size: i32,
    pub options: Vec<CodecOption>,
}

/// The options of a constant rate.
pub open spec fn constant_rate_options(bps: int, buffer: int) -> Seq<OptionView> {
    seq![
        OptionView::Int("b"@, bps),
        OptionView::Int("minrate"@, bps),
        OptionView::Int("maxrate"@, bps),
        OptionView::Int("bufsize"@, buffer),
    ]
}

/// That an update holds the rate at the target of the settings.
pub open spec fn is_constant_rate(update: RateUpdate, config: EncoderConfig, vbv: i32) -> bool {
    &&& update.bit_rate == config.bps()
    &&& update.rc_min_rate == config.bps()
    &&& update.rc_max_rate == config.bps()
    &&& update.rc_buffer_size == vbv
    &&& option_views(update.options@) == constant_rate_options(config.bps(), vbv as int)
}

/// The update that holds the rate at the target of the settings.
pub fn constant_rate(config: &EncoderConfig, vbv_buffer_size: i32) -> (out: RateUpdate)
    ensures
        is_constant_rate(out, *config, vbv_buffer_size),
{
    let bps: i64 = config.bitrate_bps();
    let mut options: Vec<CodecOption> = Vec::new();
    add_int(&mut options, "b", bps);
    add_int(&mut options, "minrate", bps);
    add_int(&mut options, "maxrate", bps);
    add_int(&mut options, "bufsize", vbv_buffer_size as i64);
    proof {
        assert(option_views(options@) =~= constant_rate_options(
            config.bps(),
            vbv_buffer_size as int,
        ));
    }
    RateUpdate {
        bit_rate: bps,
        rc_min_rate: bps,
        rc_max_rate: bps,
        rc_buffer_size: vbv_buffer_size,
        options,
    }
}

/// What is said where an encoder is not part of the codec library.
pub fn encoder_not_found(codec_name: &str) -> (out: String)
    ensures
        out@ == codec_name@ + " encoder not found (is FFmpeg built with "@ + codec_name@ + "?)"@,
{
    let head = concat2(codec_name, " encoder not found (is FFmpeg built with ");
    let out = concat3(head.as_str(), codec_name, "?)");
    proof {
        assert(out@ =~= codec_name@ + " encoder not found (is FFmpeg built with "@ + codec_name@
            + "?)"@);
    }
    out
}

/// What is said where an encoder does not open.
pub fn open_failed(codec_name: &str, reason: &str) -> (out: String)
    ensures
        out@ == "Failed to open "@ + codec_name@ + " encoder: "@ + reason@,
{
    let head = concat3("Failed to open ", codec_name, " encoder: ");
    let out = concat2(head.as_str(), reason);
    proof {
        assert(out@ =~= "Failed to open "@ + codec_name@ + " encoder: "@ + reason@);
    }
    out
}

/// A run of bytes to copy.
#[derive(Clone, Copy, Debug, PartialEq, Eq, Structural)]
pub struct RowCopy {
    pub from: usize,
    pub to: usize,
    pub len: usize,
}

/// The copies of the first `n` rows of a picture. A row that the source does not hold
/// whole is left out.
pub open spec fn row_copies(data_len: int, row: int, stride: int, n: int) -> Seq<RowCopy>
    decreases n,
{
    if n <= 0 {
        Seq::empty()
    } else {
        let rest = row_copies(data_len, row, stride, n - 1);
        if n * row <= data_len {
            rest.push(
                RowCopy {
                    from: ((n - 1) * row) as usize,
                    to: ((n - 1) * stride) as usize,
                    len: row as usize,
                },
            )
        } else {
            rest
        }
    }
}

/// The copies that bring a picture of four-byte pixels into a frame with rows of `stride`
/// bytes: one where the rows are as long as those of the picture, one for each row else.
pub open spec fn picture_copies(data_len: int, width: int, height: int, stride: int) -> Seq<RowCopy> {
    if stride == width * 4 {
        let total = stride * height;
        seq![
            RowCopy {
                from: 0,
                to: 0,
                len: if data_len < total {
                    data_len as usize
                } else {
                    total as usize
                },
            },
        ]
    } else {
        row_copies(data_len, width * 4, stride, height)
    }
}

/// The copies that bring a picture from memory into a frame.
pub fn fill_bgra_from_slice(data_len: usize, width: u32, height: u32, stride: usize) -> (out: Vec<
    RowCopy,
>)
    requires
        width * 4 * height <= usize::MAX,
        stride * height <= usize::MAX,
    ensures
        out@ == picture_copies(data_len as int, width as int, height as int, stride as int),
{
    proof {
        assert(0 <= stride * height) by (nonlinear_arith);
    }
    let mut out: Vec<RowCopy> = Vec::new();
    if stride as u64 == width as u64 * 4 {
        let total: usize = stride * height as usize;
        let len: usize = if data_len < total {
            data_len
        } else {
            total
        };
        out.push(RowCopy { from: 0, to: 0, len });
        return out;
    }
    let mut row: u32 = 0;
    while row < height
        invariant
            row <= height,
            width * 4 * height <= usize::MAX,
            stride * height <= usize::MAX,
            out@ == row_copies(data_len as int, width * 4, stride as int, row as int),
        decreases height - row,
    {
        proof {
            assert(0 <= row * (width * 4) && (row + 1) * (width * 4) <= width * 4 * height && (row
                + 1) * (width * 4) == row * (width * 4) + width * 4) by (nonlinear_arith)
                requires
                    row < height,
            ;
            assert(0 <= row * stride <= stride * height) by (nonlinear_arith)
                requires
                    row < height,
            ;
            assert(width * 4 <= width * 4 * height) by (nonlinear_arith)
                requires
                    0 < height,
            ;
        }
        let bytes: usize = width as usize * 4;
        let from: usize = row as usize * bytes;
        let to: usize = row as usize * stride;
        if from + bytes <= data_len {
            out.push(RowCopy { from, to, len: bytes });
        }
        row = row + 1;
    }
    out
}

} // verus!
