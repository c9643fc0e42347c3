//! The control messages that the server and a client exchange, as values. How they stand
//! on the wire is the protocol's business.

use vstd::prelude::*;
use crate::file_transfer::{FtInbound, FtOutbound};
use crate::input::{ControllerState, CursorMessage, InputCapabilities, InputCredential};
use crate::media::ClientDisplayInfo;
use crate::pipeline::{OutputInfo, StreamConfig};
use crate::pipeline_start::SessionDebugInfo;

verus! {

/// What a client reports about the media that reached it.
#[derive(Clone, Copy, Debug, PartialEq, Eq, Structural)]
pub struct TransportFeedback {
    pub lost_packets: u32,
    pub dropped_frames: u32,
    pub completed_frames: u32,
}

/// A message from a client.
pub enum ClientMessage {
    Authenticate(String),
    DisplayInfo(ClientDisplayInfo),
    ReadyForMedia,
    SetAudio(bool),
    Feedback(TransportFeedback),
    /// The most kilobits in a second that the client wants.
    BitratePreference(u32),
    ClockSyncPing { client_send_micros: u64 },
    AcquireControl,
    ReleaseControl,
    RequestKeyframe,
    SelectOutput(u32),
    ClipboardText(String),
    TextInput(String),
    /// A message about a file transfer.
    File(FtOutbound),
    /// A message that the server has no use for.
    Other,
}

/// A message to a client.
pub enum ServerMessage {
    AuthResult(bool),
    Error(String),
    StreamConfig(StreamConfig),
    SessionDebugInfo(SessionDebugInfo),
    InputSession { client_id: u32, credential: InputCredential },
    InputCapabilities(InputCapabilities),
    ControllerState(ControllerState),
    AvailableOutputs(Vec<OutputInfo>),
    /// The output that is captured now.
    SelectOutput(u32),
    StreamStarted,
    ClockSyncPong {
        client_send_micros: u64,
        server_recv_micros: u64,
        server_send_micros: u64,
        bitrate_kbps: u32,
    },
    Cursor(CursorMessage),
}

/// A message to a client as a value of mathematics: an error by its text, any other as it
/// is.
pub ghost enum Said {
    Error(Seq<char>),
    Message(ServerMessage),
}

impl View for ServerMessage {
    type V = Said;

    open spec fn view(&self) -> Said {
        match self {
            ServerMessage::Error(text) => Said::Error(text@),
            _ => Said::Message(*self),
        }
    }
}

/// The views of a list of messages.
pub open spec fn all_said(messages: Seq<ServerMessage>) -> Seq<Said> {
    messages.map_values(|m: ServerMessage| m@)
}

/// What a file message from the other side is to the file transfer.
pub open spec fn as_inbound(message: FtOutbound) -> FtInbound {
    match message {
        FtOutbound::FileOffer { transfer_id, file_size, file_name } => FtInbound::OfferReceived {
            transfer_id,
            file_size,
            file_name,
        },
        FtOutbound::FileAccept { transfer_id, accepted } => FtInbound::AcceptReceived {
            transfer_id,
            accepted,
        },
        FtOutbound::FileChunk { transfer_id, chunk_index, data } => FtInbound::ChunkReceived {
            transfer_id,
            chunk_index,
            data,
        },
        FtOutbound::FileComplete { transfer_id, total_chunks, sha256 } =>
            FtInbound::CompleteReceived { transfer_id, total_chunks, sha256 },
        FtOutbound::FileCancel { transfer_id } => FtInbound::CancelReceived { transfer_id },
        FtOutbound::FileProgress { transfer_id, chunks_received } => FtInbound::ProgressReceived {
            transfer_id,
            chunks_received,
        },
    }
}

/// Hands a file message from the other side to the file transfer.
pub fn inbound_file_message(message: FtOutbound) -> (out: FtInbound)
    ensures
        out == as_inbound(message),
{
    match message {
        FtOutbound::FileOffer { transfer_id, file_size, file_name } => FtInbound::OfferReceived {
            transfer_id,
            file_size,
            file_name,
        },
        FtOutbound::FileAccept { transfer_id, accepted } => FtInbound::AcceptReceived {
            transfer_id,
            accepted,
        },
        FtOutbound::FileChunk { transfer_id, chunk_index, data } => FtInbound::ChunkReceived {
            transfer_id,
            chunk_index,
            data,
        },
        FtOutbound::FileComplete { transfer_id, total_chunks, sha256 } =>
            FtInbound::CompleteReceived { transfer_id, total_chunks, sha256 },
        FtOutbound::FileCancel { transfer_id } => FtInbound::CancelReceived { transfer_id },
        FtOutbound::FileProgress { transfer_id, chunks_received } => FtInbound::ProgressReceived {
            transfer_id,
            chunks_received,
        },
    }
}

} // verus!
