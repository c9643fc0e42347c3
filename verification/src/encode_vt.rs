//! The VideoToolbox encoder: its settings, and the streams that it puts out.

use vstd::prelude::*;
use crate::text::{concat2, decimal, decimal_string};

verus! {

/// How many encoded frames wait for the transport at most.
pub const NAL_QUEUE: usize = 64;

/// A point in time of the media framework.
#[derive(Clone, Copy, Debug, PartialEq, Eq, Structural)]
pub struct MediaTime {
    pub value: i64,
    pub timescale: i32,
    pub flags: u32,
    pub epoch: i64,
}

/// A valid point in time.
pub fn cm_time(value: i64, timescale: i32) -> (out: MediaTime)
    ensures
        out == (MediaTime { value, timescale, flags: 1, epoch: 0 }),
{
    MediaTime { value, timescale, flags: 1, epoch: 0 }
}

/// The numbers that a compression session is set up with.
#[derive(Clone, Copy, Debug, PartialEq, Eq, Structural)]
pub struct VtSettings {
    pub width: i32,
    pub height: i32,
    pub average_bit_rate: i32,
    pub max_keyframe_interval: i32,
    pub expected_frame_rate: i32,
}

/// `n`, as far as a signed number holds it.
pub open spec fn capped(n: u32) -> i32 {
    if n > i32::MAX {
        i32::MAX
    } else {
        n as i32
    }
}

fn cap(n: u32) -> (out: i32)
    ensures
        out == capped(n),
{
    if n > 0x7fff_ffff {
        0x7fff_ffff
    } else {
        n as i32
    }
}

/// The VideoToolbox encoder: the frames that it has had.
#[derive(Clone, Copy, Debug, PartialEq, Eq, Structural)]
pub struct VTEncoder {
    pub frame_count: i64,
}

impl VTEncoder {
    /// An encoder, and what its session is set up with: a keyframe every second.
    pub fn new(width: u32, height: u32, bitrate_bps: u32, framerate: u32) -> (out: (
        VTEncoder,
        VtSettings,
    ))
        ensures
            out.0 == (VTEncoder { frame_count: 0 }),
            out.1 == (VtSettings {
                width: width as i32,
                height: height as i32,
                average_bit_rate: capped(bitrate_bps),
                max_keyframe_interval: if framerate == 0 {
                    1
                } else {
                    capped(framerate)
                },
                expected_frame_rate: capped(framerate),
            }),
    {
        let interval: u32 = if framerate == 0 {
            1
        } else {
            framerate
        };
        (
            VTEncoder { frame_count: 0 },
            VtSettings {
                width: crate::encode_plan::as_signed(width),
                height: crate::encode_plan::as_signed(height),
                average_bit_rate: cap(bitrate_bps),
                max_keyframe_interval: cap(interval),
                expected_frame_rate: cap(framerate),
            },
        )
    }

    /// The time of the next frame, at sixty frames a second.
    pub fn encode_pixel_buffer(&mut self) -> (time: MediaTime)
        requires
            old(self).frame_count < i64::MAX,
        ensures
            time == (MediaTime {
                value: old(self).frame_count,
                timescale: 60,
                flags: 1,
                epoch: 0,
            }),
            final(self).frame_count == old(self).frame_count + 1,
    {
        let time = cm_time(self.frame_count, 60);
        self.frame_count = self.frame_count + 1;
        time
    }
}

/// What a sample's attachments say about whether it depends on others.
#[derive(Clone, Copy, Debug, PartialEq, Eq, Structural)]
pub enum SyncAttachment {
    /// There are no attachments, or they do not mention it.
    Absent,
    NotSync(bool),
}

/// Whether a sample is a keyframe: it is, unless it says that it is not.
pub fn is_keyframe(attachment: SyncAttachment) -> (yes: bool)
    ensures
        yes == (attachment != SyncAttachment::NotSync(true)),
{
    match attachment {
        SyncAttachment::Absent => true,
        SyncAttachment::NotSync(not_sync) => !not_sync,
    }
}

/// The four bytes that start a unit of a stream.
pub open spec fn start_code() -> Seq<u8> {
    seq![0u8, 0u8, 0u8, 1u8]
}

/// The number that four bytes hold, the highest first.
pub open spec fn big_endian(b0: u8, b1: u8, b2: u8, b3: u8) -> int {
    b0 * 0x100_0000 + b1 * 0x1_0000 + b2 * 0x100 + b3
}

/// The four bytes of a number, the highest first.
pub open spec fn length_bytes(n: int) -> Seq<u8> {
    seq![
        (n / 0x100_0000) as u8,
        (n / 0x1_0000 % 0x100) as u8,
        (n / 0x100 % 0x100) as u8,
        (n % 0x100) as u8,
    ]
}

/// The units from `offset` on of data in which each has its length before it, each behind a
/// start code instead. A unit that is cut short ends the list.
pub open spec fn with_start_codes(data: Seq<u8>, offset: int) -> Seq<u8>
    decreases data.len() - offset,
{
    if offset < 0 || offset + 4 > data.len() {
        Seq::empty()
    } else {
        let n = big_endian(data[offset], data[offset + 1], data[offset + 2], data[offset + 3]);
        if offset + 4 + n > data.len() {
            Seq::empty()
        } else {
            start_code() + data.subrange(offset + 4, offset + 4 + n) + with_start_codes(
                data,
                offset + 4 + n,
            )
        }
    }
}

fn push_all(out: &mut Vec<u8>, data: &[u8], from: usize, to: usize)
    requires
        from <= to <= data@.len(),
    ensures
        final(out)@ == old(out)@ + data@.subrange(from as int, to as int),
{
    let ghost before = out@;
    let mut i: usize = from;
    proof {
        assert(out@ =~= before + data@.subrange(from as int, from as int));
    }
    while i < to
        invariant
            from <= i <= to <= data@.len(),
            out@ == before + data@.subrange(from as int, i as int),
        decreases to - i,
    {
        out.push(data[i]);
        i = i + 1;
        proof {
            assert(out@ =~= before + data@.subrange(from as int, i as int));
        }
    }
}

fn push_start_code(out: &mut Vec<u8>)
    ensures
        final(out)@ == old(out)@ + start_code(),
{
    let ghost before = out@;
    out.push(0);
    out.push(0);
    out.push(0);
    out.push(1);
    proof {
        assert(out@ =~= before + start_code());
    }
}

/// Turns units with their lengths before them into units behind start codes.
pub fn convert_units(out: &mut Vec<u8>, data: &[u8])
    ensures
        final(out)@ == old(out)@ + with_start_codes(data@, 0),
{
    let ghost before = out@;
    let len: usize = data.len();
    let mut offset: usize = 0;
    proof {
        assert(out@ + with_start_codes(data@, 0) =~= before + with_start_codes(data@, 0));
    }
    while len - offset >= 4
        invariant_except_break
            len == data@.len(),
            offset <= len,
            out@ + with_start_codes(data@, offset as int) == before + with_start_codes(data@, 0),
        ensures
            out@ == before + with_start_codes(data@, 0),
        decreases len - offset,
    {
        let n: u64 = data[offset] as u64 * 0x100_0000 + data[offset + 1] as u64 * 0x1_0000
            + data[offset + 2] as u64 * 0x100 + data[offset + 3] as u64;
        if n > (len - offset - 4) as u64 {
            proof {
                assert(out@ + Seq::<u8>::empty() =~= out@);
            }
            break;
        }
        let ghost start = out@;
        let ghost at = offset as int;
        let from: usize = offset + 4;
        let to: usize = from + n as usize;
        push_start_code(out);
        push_all(out, data, from, to);
        offset = to;
        proof {
            assert(with_start_codes(data@, at) == start_code() + data@.subrange(
                at + 4,
                at + 4 + n,
            ) + with_start_codes(data@, at + 4 + n));
            assert(out@ + with_start_codes(data@, offset as int) =~= start + with_start_codes(
                data@,
                at,
            ));
        }
    }
    proof {
        if len - offset < 4 {
            assert(out@ + Seq::<u8>::empty() =~= out@);
        }
    }
}

/// Parameter sets behind start codes; empty ones are left out.
pub open spec fn parameter_units(sets: Seq<Vec<u8>>, n: int) -> Seq<u8>
    decreases n,
{
    if n <= 0 {
        Seq::empty()
    } else {
        let rest = parameter_units(sets, n - 1);
        if sets[n - 1]@.len() > 0 {
            rest + (start_code() + sets[n - 1]@)
        } else {
            rest
        }
    }
}

/// Puts parameter sets behind start codes.
pub fn extract_parameter_sets(sets: &Vec<Vec<u8>>) -> (out: Vec<u8>)
    ensures
        out@ == parameter_units(sets@, sets@.len() as int),
{
    let mut out: Vec<u8> = Vec::new();
    let mut i: usize = 0;
    while i < sets.len()
        invariant
            i <= sets@.len(),
            out@ == parameter_units(sets@, i as int),
        decreases sets@.len() - i,
    {
        if sets[i].len() > 0 {
            let ghost before = out@;
            push_start_code(&mut out);
            push_all(&mut out, sets[i].as_slice(), 0, sets[i].len());
            proof {
                assert(sets@[i as int]@.subrange(0, sets@[i as int]@.len() as int)
                    =~= sets@[i as int]@);
                assert(out@ =~= before + (start_code() + sets@[i as int]@));
            }
        }
        i = i + 1;
    }
    out
}

/// What is sent for a sample: a keyframe has its parameter sets before it.
pub open spec fn sample_stream(keyframe: bool, sets: Seq<Vec<u8>>, data: Seq<u8>) -> Seq<u8> {
    (if keyframe {
        parameter_units(sets, sets.len() as int)
    } else {
        Seq::empty()
    }) + with_start_codes(data, 0)
}

/// Makes a stream out of a sample; `None` where nothing is left to send. `sets` are the
/// parameter sets of its format, as far as they could be read.
pub fn vt_output(keyframe: bool, sets: &Vec<Vec<u8>>, data: &[u8]) -> (out: Option<Vec<u8>>)
    ensures
        match out {
            Some(stream) => data@.len() > 0 && stream@.len() > 0 && stream@ == sample_stream(
                keyframe,
                sets@,
                data@,
            ),
            None => data@.len() == 0 || sample_stream(keyframe, sets@, data@).len() == 0,
        },
{
    if data.len() == 0 {
        return None;
    }
    let mut out: Vec<u8> = if keyframe {
        extract_parameter_sets(sets)
    } else {
        Vec::new()
    };
    convert_units(&mut out, data);
    if out.len() == 0 {
        None
    } else {
        Some(out)
    }
}

/// Units with their lengths before them.
pub open spec fn length_prefixed(units: Seq<Seq<u8>>) -> Seq<u8>
    decreases units.len(),
{
    if units.len() == 0 {
        Seq::empty()
    } else {
        length_bytes(units[0].len() as int) + units[0] + length_prefixed(
            units.subrange(1, units.len() as int),
        )
    }
}

/// Units behind start codes.
pub open spec fn start_prefixed(units: Seq<Seq<u8>>) -> Seq<u8>
    decreases units.len(),
{
    if units.len() == 0 {
        Seq::empty()
    } else {
        start_code() + units[0] + start_prefixed(units.subrange(1, units.len() as int))
    }
}

proof fn lemma_length_bytes(n: int)
    requires
        0 <= n <= 0xffff_ffff,
    ensures
        big_endian(length_bytes(n)[0], length_bytes(n)[1], length_bytes(n)[2], length_bytes(n)[3])
            == n,
{
    let a = n / 0x100_0000;
    let b = n / 0x1_0000 % 0x100;
    let c = n / 0x100 % 0x100;
    let d = n % 0x100;
    assert(0 <= a < 0x100 && 0 <= b < 0x100 && 0 <= c < 0x100 && 0 <= d < 0x100);
    assert(n == a * 0x100_0000 + b * 0x1_0000 + c * 0x100 + d);
}

proof fn lemma_conversion(prefix: Seq<u8>, units: Seq<Seq<u8>>)
    requires
        forall|i: int| 0 <= i < units.len() ==> (#[trigger] units[i]).len() <= 0xffff_ffff,
    ensures
        with_start_codes(prefix + length_prefixed(units), prefix.len() as int) == start_prefixed(
            units,
        ),
    decreases units.len(),
{
    let data = prefix + length_prefixed(units);
    let at = prefix.len() as int;
    if units.len() > 0 {
        let rest = units.subrange(1, units.len() as int);
        let n = units[0].len() as int;
        let head = length_bytes(n);
        lemma_length_bytes(n);
        assert(head.len() == 4);
        assert(data =~= prefix + head + units[0] + length_prefixed(rest));
        assert(data[at] == head[0]);
        assert(data[at + 1] == head[1]);
        assert(data[at + 2] == head[2]);
        assert(data[at + 3] == head[3]);
        assert(data.subrange(at + 4, at + 4 + n) =~= units[0]);
        let longer = prefix + head + units[0];
        assert(longer + length_prefixed(rest) =~= data);
        assert forall|i: int| 0 <= i < rest.len() implies (#[trigger] rest[i]).len() <= 0xffff_ffff by {
            assert(rest[i] == units[i + 1]);
        }
        lemma_conversion(longer, rest);
        assert(longer.len() == at + 4 + n);
    }
}

/// The conversion keeps every unit: what was written with lengths comes out with start
/// codes, unit for unit.
pub proof fn conversion_keeps_every_unit(units: Seq<Seq<u8>>)
    requires
        forall|i: int| 0 <= i < units.len() ==> (#[trigger] units[i]).len() <= 0xffff_ffff,
    ensures
        with_start_codes(length_prefixed(units), 0) == start_prefixed(units),
{
    lemma_conversion(Seq::empty(), units);
    assert(Seq::<u8>::empty() + length_prefixed(units) =~= length_prefixed(units));
}

/// The decimal notation of a status code.
pub open spec fn status_text(status: i32) -> Seq<char> {
    if status < 0 {
        "-"@ + decimal((-status) as nat)
    } else {
        decimal(status as nat)
    }
}

fn write_status(status: i32) -> (out: String)
    ensures
        out@ == status_text(status),
{
    if status < 0 {
        concat2("-", decimal_string((-(status as i64)) as u64).as_str())
    } else {
        decimal_string(status as u64)
    }
}

/// Whether the session was made.
pub fn session_created(status: i32) -> (out: Result<(), String>)
    ensures
        match out {
            Ok(_) => status == 0,
            Err(e) => status != 0 && e@ == "VTCompressionSessionCreate failed: "@ + status_text(
                status,
            ),
        },
{
    if status != 0 {
        Err(concat2("VTCompressionSessionCreate failed: ", write_status(status).as_str()))
    } else {
        Ok(())
    }
}

/// Whether a frame was taken.
pub fn frame_encoded(status: i32) -> (out: Result<(), String>)
    ensures
        match out {
            Ok(_) => status == 0,
            Err(e) => status != 0 && e@ == "VTCompressionSessionEncodeFrame failed: "@
                + status_text(status),
        },
{
    if status != 0 {
        Err(concat2("VTCompressionSessionEncodeFrame failed: ", write_status(status).as_str()))
    } else {
        Ok(())
    }
}

} // verus!
