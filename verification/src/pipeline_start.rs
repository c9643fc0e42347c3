//! How the shared pipeline comes up, and what each of its turns does.

use vstd::prelude::*;
use crate::media::{chroma_label, encoder_chroma_name, EncoderConfig};
use crate::text::{concat2, concat3};

verus! {

/// What the start of the pipeline has come to.
#[derive(Debug)]
pub enum StartEvent {
    CaptureStarted,
    CaptureFailed(String),
    /// The first captured frame, by its size.
    FirstFrame { width: u32, height: u32 },
    /// The capture ended before the first frame.
    CaptureClosed,
    EncoderSelected,
    EncoderFailed(String),
}

/// What the start does next.
#[derive(Debug)]
pub enum StartStep {
    AwaitFrame,
    SelectEncoder { width: u32, height: u32 },
    /// Report that the pipeline runs, and encode the first frame.
    Run,
    /// Report why it does not, with the capture stopped first where it runs.
    Fail { message: String, stop_capture: bool },
}

/// The same as a value of mathematics.
pub ghost enum StartStepView {
    AwaitFrame,
    SelectEncoder { width: u32, height: u32 },
    Run,
    Fail { message: Seq<char>, stop_capture: bool },
}

impl View for StartStep {
    type V = StartStepView;

    open spec fn view(&self) -> StartStepView {
        match self {
            StartStep::AwaitFrame => StartStepView::AwaitFrame,
            StartStep::SelectEncoder { width, height } => StartStepView::SelectEncoder {
                width: *width,
                height: *height,
            },
            StartStep::Run => StartStepView::Run,
            StartStep::Fail { message, stop_capture } => StartStepView::Fail {
                message: message@,
                stop_capture: *stop_capture,
            },
        }
    }
}

/// What follows on an event. VideoToolbox puts its own words before those of the encoder.
pub open spec fn start_next(event: StartEvent, videotoolbox: bool) -> StartStepView {
    match event {
        StartEvent::CaptureStarted => StartStepView::AwaitFrame,
        StartEvent::CaptureFailed(e) => StartStepView::Fail {
            message: "Failed to start capture: "@ + e@,
            stop_capture: false,
        },
        StartEvent::FirstFrame { width, height } => StartStepView::SelectEncoder { width, height },
        StartEvent::CaptureClosed => StartStepView::Fail {
            message: "Capture channel closed before first frame"@,
            stop_capture: true,
        },
        StartEvent::EncoderSelected => StartStepView::Run,
        StartEvent::EncoderFailed(e) => StartStepView::Fail {
            message: if videotoolbox {
                "Failed to create encoder: "@ + e@
            } else {
                e@
            },
            stop_capture: true,
        },
    }
}

/// What the start of the pipeline does after an event.
pub fn start_step(event: StartEvent, videotoolbox: bool) -> (step: StartStep)
    ensures
        step@ == start_next(event, videotoolbox),
{
    match event {
        StartEvent::CaptureStarted => StartStep::AwaitFrame,
        StartEvent::CaptureFailed(e) => StartStep::Fail {
            message: concat2("Failed to start capture: ", e.as_str()),
            stop_capture: false,
        },
        StartEvent::FirstFrame { width, height } => StartStep::SelectEncoder { width, height },
        StartEvent::CaptureClosed => StartStep::Fail {
            message: "Capture channel closed before first frame".to_owned(),
            stop_capture: true,
        },
        StartEvent::EncoderSelected => StartStep::Run,
        StartEvent::EncoderFailed(e) => {
            let message = if videotoolbox {
                concat2("Failed to create encoder: ", e.as_str())
            } else {
                e
            };
            StartStep::Fail { message, stop_capture: true }
        },
    }
}

/// A start that fails once the capture runs stops it again.
pub proof fn failed_start_stops_the_capture(event: StartEvent, videotoolbox: bool)
    requires
        start_next(event, videotoolbox) is Fail,
    ensures
        start_next(event, videotoolbox)->stop_capture == (event !is CaptureFailed),
{
}

/// What the pipeline's thread reported within the time that it has.
#[derive(Debug)]
pub enum StartReport {
    Started,
    Failed(String),
    /// Nothing came.
    Silent,
}

/// What a client that asked for the pipeline gets.
pub fn started(report: StartReport) -> (out: Result<(), String>)
    ensures
        match report {
            StartReport::Started => out is Ok,
            StartReport::Failed(e) => out == Err::<(), String>(e),
            StartReport::Silent => out matches Err(e) && e@ == "Pipeline thread crashed"@,
        },
{
    match report {
        StartReport::Started => Ok(()),
        StartReport::Failed(e) => Err(e),
        StartReport::Silent => Err("Pipeline thread crashed".to_owned()),
    }
}

/// What a client may show of how the stream is made.
#[derive(Debug)]
pub struct SessionDebugInfo {
    pub encoder_name: String,
    pub capture_backend: String,
    pub input_backend: String,
    pub target_bitrate_kbps: u32,
    pub quality_preset: String,
}

/// What a client may show of a stream: the encoder with its chroma format, the backends,
/// the bitrate and the quality.
pub fn session_debug_info(
    encoder: &str,
    config: &EncoderConfig,
    quality: &str,
    capture_backend: String,
    input_backend: String,
) -> (out: SessionDebugInfo)
    ensures
        out.encoder_name@ == encoder@ + "-"@ + chroma_label(config.chroma),
        out.capture_backend == capture_backend,
        out.input_backend == input_backend,
        out.target_bitrate_kbps == config.bitrate_kbps,
        out.quality_preset@ == quality@,
{
    SessionDebugInfo {
        encoder_name: concat3(encoder, "-", encoder_chroma_name(config.chroma)),
        capture_backend,
        input_backend,
        target_bitrate_kbps: config.bitrate_kbps,
        quality_preset: quality.to_owned(),
    }
}

/// What waiting for a captured frame came to.
#[derive(Clone, Copy, Debug, PartialEq, Eq, Structural)]
pub enum FrameWait {
    Frame,
    Nothing,
    CaptureEnded,
}

/// What a turn of the pipeline does.
#[derive(Clone, Copy, Debug, PartialEq, Eq, Structural)]
pub enum Turn {
    Stop,
    Again,
    Encode,
    /// Let the frame go: nobody watches.
    Release,
}

/// What a turn does. Nothing is encoded that nobody watches.
pub fn pipeline_turn(shutdown: bool, wait: FrameWait, subscribers: usize) -> (turn: Turn)
    ensures
        turn == (if shutdown {
            Turn::Stop
        } else {
            match wait {
                FrameWait::Nothing => Turn::Again,
                FrameWait::CaptureEnded => Turn::Stop,
                FrameWait::Frame => if subscribers > 0 {
                    Turn::Encode
                } else {
                    Turn::Release
                },
            }
        }),
{
    if shutdown {
        return Turn::Stop;
    }
    match wait {
        FrameWait::Nothing => Turn::Again,
        FrameWait::CaptureEnded => Turn::Stop,
        FrameWait::Frame => {
            if subscribers > 0 {
                Turn::Encode
            } else {
                Turn::Release
            }
        },
    }
}

} // verus!
