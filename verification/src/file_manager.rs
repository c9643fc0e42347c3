//! One turn of the file transfers: what is done with each event, and what comes when the
//! events are handled. Files are looked up, written and renamed outside.

use vstd::prelude::*;
use crate::file_transfer::{
    chunk_count, chunk_of, chunks_make_up_the_file, joined_chunks, offer_views,
    offers_left, picked_offers, still_shown, CompleteStep, FileTransferManager,
    FtAction, FtInbound, OfferToAccept, RecvState, SendState, TransferEntry,
};

verus! {

/// The pause of a turn that had no events.
pub const IDLE_PAUSE_NANOS: u64 = 10_000_000;

/// What is left to do about an event.
pub enum InboundStep {
    /// Look the file up, and hand what is known of it to `handle_send_file`.
    LookUp(String),
    /// Make the name safe, and hand the offer to `handle_offer_received`.
    Offered { transfer_id: u32, file_size: u64, file_name: String },
    /// Write the chunk, and report to `handle_chunk_received`.
    Write { transfer_id: u32, chunk_index: u32, data: Vec<u8> },
    /// The end of a file.
    Completed(CompleteStep),
    /// Nothing but these.
    Done(Vec<FtAction>),
}

/// What comes at the end of a turn.
pub struct TurnEnd {
    pub actions: Vec<FtAction>,
    /// The offers that the user has taken up.
    pub offers: Vec<OfferToAccept>,
    pub pause: Option<u64>,
}

impl FileTransferManager {
    /// What an event changes and leads to.
    pub open spec fn dispatched(
        before: Self,
        after: Self,
        event: FtInbound,
        now: u64,
        step: InboundStep,
    ) -> bool {
        match event {
            FtInbound::SendFile { path } => after == before && step == InboundStep::LookUp(path),
            FtInbound::OfferReceived { transfer_id, file_size, file_name } => {
                &&& after == before
                &&& step == InboundStep::Offered { transfer_id, file_size, file_name }
            },
            FtInbound::AcceptReceived { transfer_id, accepted } => {
                &&& Self::answered(before, after, transfer_id, accepted, now)
                &&& step matches InboundStep::Done(actions) && actions@.len() == 0
            },
            FtInbound::ChunkReceived { transfer_id, chunk_index, data } => {
                &&& after == before
                &&& if before.awaits(transfer_id, chunk_index) {
                    step == InboundStep::Write { transfer_id, chunk_index, data }
                } else {
                    step matches InboundStep::Done(actions) && actions@.len() == 0
                }
            },
            FtInbound::CompleteReceived { transfer_id, total_chunks, sha256 } => {
                step matches InboundStep::Completed(c) && Self::completed(
                    before,
                    after,
                    transfer_id,
                    sha256,
                    now,
                    c,
                )
            },
            FtInbound::CancelReceived { transfer_id } => {
                step matches InboundStep::Done(actions) && Self::cancelled(
                    before,
                    after,
                    transfer_id,
                    actions@,
                )
            },
            FtInbound::ProgressReceived { transfer_id, chunks_received } => {
                &&& Self::progressed(before, after, transfer_id, chunks_received, now)
                &&& step matches InboundStep::Done(actions) && actions@.len() == 0
            },
        }
    }

    /// Takes in an event.
    pub fn dispatch(&mut self, event: FtInbound, now: u64) -> (step: InboundStep)
        requires
            old(self).wf(),
        ensures
            final(self).wf(),
            Self::dispatched(*old(self), *final(self), event, now, step),
    {
        match event {
            FtInbound::SendFile { path } => InboundStep::LookUp(path),
            FtInbound::OfferReceived { transfer_id, file_size, file_name } => InboundStep::Offered {
                transfer_id,
                file_size,
                file_name,
            },
            FtInbound::AcceptReceived { transfer_id, accepted } => {
                self.handle_accept_received(transfer_id, accepted, now);
                InboundStep::Done(Vec::new())
            },
            FtInbound::ChunkReceived { transfer_id, chunk_index, data } => {
                if self.wants_chunk(transfer_id, chunk_index) {
                    InboundStep::Write { transfer_id, chunk_index, data }
                } else {
                    InboundStep::Done(Vec::new())
                }
            },
            FtInbound::CompleteReceived { transfer_id, total_chunks: _, sha256 } => {
                InboundStep::Completed(self.handle_complete_received(transfer_id, &sha256, now))
            },
            FtInbound::CancelReceived { transfer_id } => {
                InboundStep::Done(self.handle_cancel_received(transfer_id))
            },
            FtInbound::ProgressReceived { transfer_id, chunks_received } => {
                self.handle_progress_received(transfer_id, chunks_received, now);
                InboundStep::Done(Vec::new())
            },
        }
    }

    /// That silent transfers are given up, and that of the entries then those are left that
    /// are still shown.
    pub open spec fn turn_ended(
        before: Self,
        now: u64,
        sending: Map<u32, SendState>,
        receiving: Map<u32, RecvState>,
        left: Seq<TransferEntry>,
        actions: Seq<FtAction>,
    ) -> bool {
        exists|entries: Seq<TransferEntry>|
            left == still_shown(entries, now) && #[trigger] Self::timed_out(
                before,
                now,
                sending,
                receiving,
                entries,
                actions,
            )
    }

    /// Ends a turn once its events are handled and the chunks of active files are on their
    /// way: silent transfers fail, the offers that the user took up come out, and entries
    /// that have ended long enough ago go. A turn without events is followed by a pause.
    pub fn end_turn(&mut self, had_events: bool, now: u64) -> (end: TurnEnd)
        requires
            old(self).wf(),
        ensures
            final(self).wf(),
            final(self).same_setup(*old(self)),
            final(self).next_transfer_id == old(self).next_transfer_id,
            Self::turn_ended(
                *old(self),
                now,
                final(self).sending@,
                final(self).receiving@,
                final(self).shared.entries@,
                end.actions@,
            ),
            offer_views(end.offers@) == picked_offers(
                old(self).shared.accept_queue@,
                old(self).shared.pending_offers@,
            ),
            final(self).shared.pending_offers@ == offers_left(
                old(self).shared.accept_queue@,
                old(self).shared.pending_offers@,
            ),
            final(self).shared.accept_queue@.len() == 0,
            end.pause == (if had_events {
                None
            } else {
                Some(IDLE_PAUSE_NANOS)
            }),
    {
        let actions = self.check_timeouts(now);
        let ghost entries = self.shared.entries@;
        let offers = self.shared.drain_accept_queue();
        self.shared.prune(now);
        proof {
            assert(Self::timed_out(
                *old(self),
                now,
                self.sending@,
                self.receiving@,
                entries,
                actions@,
            ));
            assert(Self::turn_ended(
                *old(self),
                now,
                self.sending@,
                self.receiving@,
                self.shared.entries@,
                actions@,
            ));
        }
        let pause: Option<u64> = if had_events {
            None
        } else {
            Some(IDLE_PAUSE_NANOS)
        };
        TurnEnd { actions, offers, pause }
    }
}

/// A file is finished only if the digest of what was received is the announced one: on any
/// other end the transfer fails, and its partial file goes.
pub proof fn only_whole_files_are_finished(
    before: FileTransferManager,
    after: FileTransferManager,
    transfer_id: u32,
    total_chunks: u32,
    announced: [u8; 32],
    now: u64,
    step: InboundStep,
)
    ensures
        FileTransferManager::dispatched(
            before,
            after,
            FtInbound::CompleteReceived { transfer_id, total_chunks, sha256: announced },
            now,
            step,
        ) && before.receiving@.contains_key(transfer_id) ==> {
            let whole = crate::digest::sha256(before.receiving@[transfer_id].received())
                == announced@;
            &&& !after.receiving@.contains_key(transfer_id)
            &&& whole == (step matches InboundStep::Completed(c) && c is Rename)
            &&& !whole ==> (step matches InboundStep::Completed(CompleteStep::Mismatch(actions))
                && actions@ == seq![FtAction::RemovePart(transfer_id)])
        },
{
}

/// A chunk of a file, taken in when it is awaited, extends what was received by that chunk,
/// and a file of which every chunk was taken in is finished where its own digest is announced.
pub proof fn sent_files_arrive(
    before: FileTransferManager,
    after: FileTransferManager,
    transfer_id: u32,
    file: Seq<u8>,
    chunk_size: u32,
    announced: [u8; 32],
    now: u64,
    step: CompleteStep,
)
    requires
        before.receiving@.contains_key(transfer_id),
        chunk_size > 0,
        file.len() <= u64::MAX,
        (file.len() + chunk_size - 1) / (chunk_size as int) <= u32::MAX,
    ensures
        forall|k: nat|
            before.receiving@[transfer_id].received() == joined_chunks(file, chunk_size as nat, k)
                && after.receiving@[transfer_id].received()
                == before.receiving@[transfer_id].received() + #[trigger] chunk_of(
                file,
                chunk_size as nat,
                k,
            ) ==> after.receiving@[transfer_id].received() == joined_chunks(
                file,
                chunk_size as nat,
                k + 1,
            ),
        before.receiving@[transfer_id].received() == joined_chunks(
            file,
            chunk_size as nat,
            chunk_count(file.len() as u64, chunk_size) as nat,
        ) && announced@ == crate::digest::sha256(file) && FileTransferManager::completed(
            before,
            after,
            transfer_id,
            announced,
            now,
            step,
        ) ==> step is Rename,
{
    chunks_make_up_the_file(file, chunk_size);
}

} // verus!
