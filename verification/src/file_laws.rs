//! What becomes of files, told of the operations from the outside: what is offered, what of it
//! is sent and when, and when a received file is kept.

use vstd::prelude::*;
use crate::file_clipboard::{
    drop_files, receive_dir, set_clipboard_file, ClipboardCommand, ReceiveDir,
};
use crate::file_manager::{InboundStep, TurnEnd};
use crate::file_names::{part_path, unique_dest_path, DestStep};
use crate::file_transfer::{
    new_shared_state, Arrived, ChunkRequest, CompleteStep, FileMeta, FileTransferManager,
    FileTransferShared, FtAction, FtInbound, FtOutbound, OfferStep, OfferToAccept, PendingOffer,
    TransferDirection, TransferEntry, TransferInfo, TransferLimits, TransferStatus,
};

verus! {

/// That the entry at `i` is the first of a name and direction.
pub open spec fn first_entry(
    entries: Seq<TransferEntry>,
    name: Seq<char>,
    direction: TransferDirection,
    i: int,
) -> bool {
    &&& 0 <= i < entries.len()
    &&& entries[i].file_name@ == name
    &&& entries[i].direction == direction
    &&& forall|k: int|
        0 <= k < i ==> !((#[trigger] entries[k]).file_name@ == name && entries[k].direction
            == direction)
}

proof fn lemma_first_entry(
    entries: Seq<TransferEntry>,
    name: Seq<char>,
    direction: TransferDirection,
    i: int,
)
    requires
        first_entry(entries, name, direction, i),
    ensures
        crate::file_transfer::entry_index(entries, name, direction) == i,
    decreases i,
{
    if i > 0 {
        assert(!(entries[0].file_name@ == name && entries[0].direction == direction));
        let rest = entries.subrange(1, entries.len() as int);
        assert forall|k: int| 0 <= k < i - 1 implies !((#[trigger] rest[k]).file_name@ == name
            && rest[k].direction == direction) by {
            assert(rest[k] == entries[k + 1]);
        }
        assert(rest[i - 1] == entries[i]);
        lemma_first_entry(rest, name, direction, i - 1);
    }
}

/// That a file is being sent.
pub open spec fn is_going_out(m: FileTransferManager, id: u32) -> bool {
    m.sending@.contains_key(id) && m.sending@[id].info.status == TransferStatus::Active
}

/// A file that the other side declines is not sent: the transfer is gone, no piece of it is ever
/// asked for, and its entry says that it was cancelled.
pub proof fn declined_files_are_not_sent(
    m: &mut FileTransferManager,
    id: u32,
    now: u64,
    i: int,
    tick: u32,
    request: Option<ChunkRequest>,
    active: Vec<u32>,
)
    requires
        call_ensures(FileTransferManager::handle_accept_received, (m, id, false, now), ()),
        call_ensures(FileTransferManager::next_chunk, (final(m), id, tick), request),
        call_ensures(FileTransferManager::active_sends, (final(m),), active),
        old(m).sending@.contains_key(id),
        first_entry(
            old(m).shared.entries@,
            old(m).sending@[id].info.file_name@,
            old(m).sending@[id].info.direction,
            i,
        ),
    ensures
        !final(m).sending@.contains_key(id),
        request is None,
        !active@.contains(id),
        final(m).shared.entries@[i].status == TransferStatus::Cancelled,
        final(m).shared.entries@.len() == old(m).shared.entries@.len(),
        forall|k: int|
            0 <= k < old(m).shared.entries@.len() && k != i
                ==> #[trigger] final(m).shared.entries@[k] == old(m).shared.entries@[k],
        forall|other: u32|
            other != id ==> (#[trigger] final(m).sending@.contains_key(other)
                <==> old(m).sending@.contains_key(other)) && final(m).sending@[other]
                == old(m).sending@[other],
{
    lemma_first_entry(
        old(m).shared.entries@,
        old(m).sending@[id].info.file_name@,
        old(m).sending@[id].info.direction,
        i,
    );
    assert(active@.contains(id) <==> active@.to_set().contains(id));
}

/// A file that the other side accepts goes out from its first piece, with what was offered.
pub proof fn accepted_files_are_sent(
    m: &mut FileTransferManager,
    id: u32,
    now: u64,
    active: Vec<u32>,
)
    requires
        call_ensures(FileTransferManager::handle_accept_received, (m, id, true, now), ()),
        call_ensures(FileTransferManager::active_sends, (final(m),), active),
        old(m).sending@.contains_key(id),
    ensures
        is_going_out(*final(m), id),
        active@.contains(id),
        final(m).sending@[id].last_activity == now,
        final(m).sending@[id].info.file_size == old(m).sending@[id].info.file_size,
        final(m).sending@[id].info.chunks_done == old(m).sending@[id].info.chunks_done,
        final(m).sending@[id].info.chunks_total == old(m).sending@[id].info.chunks_total,
        forall|other: u32|
            other != id ==> (#[trigger] final(m).sending@.contains_key(other)
                <==> old(m).sending@.contains_key(other)) && final(m).sending@[other]
                == old(m).sending@[other],
{
    assert(active@.to_set().contains(id));
}

/// A send goes out only because the other side accepted it: of all that can come in, nothing else
/// makes one active.
pub proof fn only_acceptance_starts_a_send(
    m: &mut FileTransferManager,
    event: FtInbound,
    now: u64,
    step: InboundStep,
    id: u32,
)
    requires
        call_ensures(FileTransferManager::dispatch, (m, event, now), step),
        is_going_out(*final(m), id),
        !is_going_out(*old(m), id),
    ensures
        event == (FtInbound::AcceptReceived { transfer_id: id, accepted: true }),
{
}

/// Nor does anything that the server does by itself: an offer waits, and a failed or a finished
/// send is over.
pub proof fn offers_wait_for_an_answer(
    m: &mut FileTransferManager,
    meta: Option<FileMeta>,
    now: u64,
    actions: Vec<FtAction>,
    id: u32,
)
    requires
        call_ensures(FileTransferManager::handle_send_file, (m, meta, now), actions),
        is_going_out(*final(m), id),
        old(m).next_transfer_id < u32::MAX,
        old(m).wf(),
    ensures
        is_going_out(*old(m), id),
{
}

/// A file is offered with its own size and safe name under a new number, exactly if it is a
/// regular file that is not too large.
pub proof fn files_are_offered_as_they_are(
    m: &mut FileTransferManager,
    meta: FileMeta,
    now: u64,
    actions: Vec<FtAction>,
)
    requires
        call_ensures(FileTransferManager::handle_send_file, (m, Some(meta), now), actions),
        old(m).next_transfer_id < u32::MAX,
    ensures
        actions@.len() > 0 <==> meta.is_file && meta.size <= old(m).limits.max_file_size,
        actions@.len() > 0 ==> actions@.len() == 1 && (actions@[0] matches FtAction::Send(
            FtOutbound::FileOffer { transfer_id, file_size, file_name },
        ) && {
            &&& transfer_id == old(m).next_transfer_id
            &&& file_size == meta.size
            &&& meta.safe_name matches Some(n) ==> file_name@ == n@
            &&& final(m).sending@.contains_key(transfer_id)
            &&& final(m).sending@[transfer_id].info.file_size == meta.size
            &&& final(m).sending@[transfer_id].info.file_name@ == file_name@
            &&& final(m).sending@[transfer_id].info.status == TransferStatus::Waiting
            &&& final(m).sending@[transfer_id].info.chunks_done == 0
            &&& final(m).sending@[transfer_id].info.direction == TransferDirection::Send
            &&& final(m).next_transfer_id == transfer_id + 1
            &&& final(m).shared.entries@.last().file_name@ == file_name@
            &&& final(m).shared.entries@.last().total_bytes == meta.size
            &&& final(m).shared.entries@.last().transferred_bytes == 0
            &&& final(m).shared.entries@.last().status == TransferStatus::Waiting
        }),
        actions@.len() == 0 ==> *final(m) == *old(m),
{
}

/// A piece that is asked for is the next one of an active send, of its own place in the file and
/// no longer than a chunk; it is asked for only within the turn's share and the window.
pub proof fn pieces_come_in_turn(
    m: FileTransferManager,
    id: u32,
    tick: u32,
    request: Option<ChunkRequest>,
)
    requires
        call_ensures(FileTransferManager::next_chunk, (&m, id, tick), request),
        m.wf(),
    ensures
        request matches Some(r) ==> {
            let info = m.sending@[id].info;
            &&& is_going_out(m, id)
            &&& tick < m.limits.chunks_per_tick
            &&& r.chunk_index == info.chunks_done < info.chunks_total
            &&& info.chunks_done < m.sending@[id].last_acked_chunk + m.limits.flow_control_window
            &&& r.offset == r.chunk_index * info.chunk_size
            &&& 0 < r.len <= info.chunk_size
            &&& r.offset + r.len <= info.file_size
            &&& r.len < info.chunk_size ==> r.offset + r.len == info.file_size
        },
        request is None && is_going_out(m, id) && m.sending@[id].info.chunks_done
            < m.sending@[id].info.chunks_total ==> tick >= m.limits.chunks_per_tick
            || m.sending@[id].info.chunks_done >= m.sending@[id].last_acked_chunk
            + m.limits.flow_control_window,
{
}

/// A piece that went out counts once; a piece that could not be read ends the send.
pub proof fn sent_pieces_count_once(m: &mut FileTransferManager, id: u32, now: u64)
    requires
        call_ensures(FileTransferManager::chunk_sent, (m, id, now), ()),
        old(m).sending@.contains_key(id),
        old(m).sending@[id].info.chunks_done < old(m).sending@[id].info.chunks_total,
    ensures
        final(m).sending@.contains_key(id),
        final(m).sending@[id].info.chunks_done == old(m).sending@[id].info.chunks_done + 1,
        final(m).sending@[id].info.status == old(m).sending@[id].info.status,
        final(m).sending@[id].last_acked_chunk == old(m).sending@[id].last_acked_chunk,
        final(m).sending@[id].last_activity == now,
        final(m).receiving == old(m).receiving,
{
}

/// An unreadable piece fails its send, and the other side is told.
pub proof fn unreadable_files_are_cancelled(
    m: &mut FileTransferManager,
    id: u32,
    now: u64,
    actions: Vec<FtAction>,
)
    requires
        call_ensures(FileTransferManager::chunk_unreadable, (m, id, now), actions),
    ensures
        final(m).sending@[id].info.status == TransferStatus::Failed,
        !is_going_out(*final(m), id),
        actions@ == seq![FtAction::Send(FtOutbound::FileCancel { transfer_id: id })],
{
}

/// The end of a send is announced with its digest and the number of its pieces, where there is a
/// digest; either way it is over.
pub proof fn ends_are_announced_with_the_digest(
    m: &mut FileTransferManager,
    id: u32,
    digest: Option<[u8; 32]>,
    now: u64,
    actions: Vec<FtAction>,
)
    requires
        call_ensures(FileTransferManager::complete_send, (m, id, digest, now), actions),
    ensures
        !is_going_out(*final(m), id),
        final(m).sending@[id].info.status == if digest is Some {
            TransferStatus::Completed
        } else {
            TransferStatus::Failed
        },
        digest matches Some(d) ==> actions@.len() == 1 && (actions@[0] matches FtAction::Send(
            FtOutbound::FileComplete { transfer_id, total_chunks, sha256 },
        ) && transfer_id == id && total_chunks == old(m).sending@[id].info.chunks_total && sha256
            == d),
        digest is None ==> actions@.len() == 0,
{
}

/// All of a file is out exactly when every piece is.
pub proof fn all_is_sent_with_the_last_piece(m: &mut FileTransferManager, id: u32, all: bool)
    requires
        call_ensures(FileTransferManager::end_pump, (m, id), all),
    ensures
        all <==> old(m).sending@[id].info.chunks_done == old(m).sending@[id].info.chunks_total
            && old(m).sending@[id].info.status == TransferStatus::Active,
        final(m).sending == old(m).sending,
        final(m).receiving == old(m).receiving,
{
}

/// What the other side has confirmed is what it says.
pub proof fn progress_is_taken_as_told(
    m: &mut FileTransferManager,
    id: u32,
    chunks: u32,
    now: u64,
    other: u32,
)
    requires
        call_ensures(FileTransferManager::handle_progress_received, (m, id, chunks, now), ()),
        other != id,
    ensures
        final(m).sending@.contains_key(id) <==> old(m).sending@.contains_key(id),
        old(m).sending@.contains_key(id) ==> final(m).sending@[id].last_acked_chunk == chunks
            && final(m).sending@[id].last_activity == now && final(m).sending@[id].info
            == old(m).sending@[id].info,
        final(m).sending@.contains_key(other) == old(m).sending@.contains_key(other),
        final(m).sending@[other] == old(m).sending@[other],
        final(m).receiving == old(m).receiving,
        final(m).shared == old(m).shared,
{
}

/// An offer that comes in is prepared for where nobody has to be asked. Where the user is asked
/// it waits as it came, unless the file is too large, which is answered with a refusal.
pub proof fn offers_wait_for_the_user(
    m: &mut FileTransferManager,
    id: u32,
    size: u64,
    name: Option<String>,
    now: u64,
    step: OfferStep,
)
    requires
        call_ensures(FileTransferManager::handle_offer_received, (m, id, size, name, now), step),
    ensures
        step is Prepare <==> old(m).auto_accept,
        step matches OfferStep::Actions(actions) ==> {
            &&& size > old(m).limits.max_file_size ==> actions@ == seq![
                FtAction::Send(FtOutbound::FileAccept { transfer_id: id, accepted: false }),
            ] && final(m).shared.pending_offers@ == old(m).shared.pending_offers@
            &&& size <= old(m).limits.max_file_size ==> {
                let offer = final(m).shared.pending_offers@.last();
                &&& actions@.len() == 0
                &&& final(m).shared.pending_offers@.len() == old(m).shared.pending_offers@.len() + 1
                &&& offer.transfer_id == id && offer.file_size == size && offer.received_at == now
                &&& name matches Some(n) ==> offer.file_name@ == n@
            }
        },
        final(m).receiving == old(m).receiving,
        final(m).sending == old(m).sending,
{
}

/// An offer is answered with whether there is a file to receive into; from then on nothing of it
/// has been received.
pub proof fn offers_are_answered(
    m: &mut FileTransferManager,
    id: u32,
    size: u64,
    name: Option<String>,
    prepared: bool,
    now: u64,
    actions: Vec<FtAction>,
)
    requires
        call_ensures(
            FileTransferManager::accept_offer,
            (m, id, size, name, prepared, now),
            actions,
        ),
    ensures
        actions@ == seq![
            FtAction::Send(FtOutbound::FileAccept { transfer_id: id, accepted: prepared }),
        ],
        !prepared ==> *final(m) == *old(m),
        prepared ==> {
            let state = final(m).receiving@[id];
            &&& final(m).receiving@.contains_key(id)
            &&& state.received().len() == 0
            &&& state.next_expected_chunk == 0
            &&& state.info.file_size == size
            &&& state.info.transfer_id == id
            &&& state.info.status == TransferStatus::Active
            &&& state.info.direction == TransferDirection::Receive
            &&& name matches Some(n) ==> state.info.file_name@ == n@
            &&& final(m).shared.entries@.last().total_bytes == size
            &&& final(m).shared.entries@.last().status == TransferStatus::Active
        },
        final(m).sending == old(m).sending,
{
}

/// Only the piece that is due is taken, and it is put behind what was received; any other changes
/// nothing.
pub proof fn pieces_are_joined_in_order(
    m: &mut FileTransferManager,
    id: u32,
    index: u32,
    data: &[u8],
    now: u64,
    actions: Vec<FtAction>,
    wanted: bool,
)
    requires
        call_ensures(FileTransferManager::wants_chunk, (old(m), id, index), wanted),
        call_ensures(
            FileTransferManager::handle_chunk_received,
            (m, id, index, data, true, now),
            actions,
        ),
        index < u32::MAX,
    ensures
        wanted <==> old(m).receiving@.contains_key(id)
            && old(m).receiving@[id].next_expected_chunk == index,
        !wanted ==> *final(m) == *old(m) && actions@.len() == 0,
        wanted ==> {
            let before = old(m).receiving@[id];
            let after = final(m).receiving@[id];
            &&& final(m).receiving@.contains_key(id)
            &&& after.received() == before.received() + data@
            &&& after.next_expected_chunk == index + 1
            &&& after.info.chunks_done == index + 1
            &&& after.last_activity == now
            &&& after.info.file_name == before.info.file_name
            &&& after.info.file_size == before.info.file_size
            &&& after.info.status == before.info.status
            &&& index + 1 == before.info.chunks_total ==> actions@ == seq![
                FtAction::Send(
                    FtOutbound::FileProgress {
                        transfer_id: id,
                        chunks_received: before.info.chunks_total,
                    },
                ),
            ]
            &&& forall|i: int|
                0 <= i < actions@.len() ==> #[trigger] actions@[i] == FtAction::Send(
                    FtOutbound::FileProgress {
                        transfer_id: id,
                        chunks_received: after.next_expected_chunk,
                    },
                )
        },
{
}

/// A piece that could not be written ends the receive: the other side is told and the partial file
/// goes.
pub proof fn unwritable_files_are_cancelled(
    m: &mut FileTransferManager,
    id: u32,
    index: u32,
    data: &[u8],
    now: u64,
    actions: Vec<FtAction>,
)
    requires
        call_ensures(
            FileTransferManager::handle_chunk_received,
            (m, id, index, data, false, now),
            actions,
        ),
        old(m).receiving@.contains_key(id),
        old(m).receiving@[id].next_expected_chunk == index,
    ensures
        !final(m).receiving@.contains_key(id),
        actions@.contains(FtAction::Send(FtOutbound::FileCancel { transfer_id: id })),
        actions@.contains(FtAction::RemovePart(id)),
{
    assert(actions@[0] == FtAction::Send(FtOutbound::FileCancel { transfer_id: id }));
    assert(actions@[1] == FtAction::RemovePart(id));
}

/// A file is kept exactly if the digest of all that was received is the announced one; otherwise
/// its partial file goes. Either way nothing more is received of it.
pub proof fn only_intact_files_are_kept(
    m: &mut FileTransferManager,
    id: u32,
    announced: &[u8; 32],
    now: u64,
    step: CompleteStep,
)
    requires
        call_ensures(FileTransferManager::handle_complete_received, (m, id, announced, now), step),
    ensures
        step is Unknown <==> !old(m).receiving@.contains_key(id),
        step matches CompleteStep::Rename(arrived) ==> crate::digest::sha256(
            old(m).receiving@[id].received(),
        ) == announced@ && arrived.info == old(m).receiving@[id].info,
        step matches CompleteStep::Mismatch(actions) ==> crate::digest::sha256(
            old(m).receiving@[id].received(),
        ) != announced@ && actions@ == seq![FtAction::RemovePart(id)],
        !final(m).receiving@.contains_key(id),
        final(m).sending == old(m).sending,
{
}

/// A file that has its name is on the clipboard and is not offered back; one that could not be
/// given it is removed. The entry says which.
pub proof fn arrived_files_are_handed_over(
    m: &mut FileTransferManager,
    arrived: Arrived,
    renamed: bool,
    now: u64,
    actions: Vec<FtAction>,
    i: int,
)
    requires
        call_ensures(FileTransferManager::finish_receive, (m, arrived, renamed, now), actions),
        first_entry(
            old(m).shared.entries@,
            arrived.info.file_name@,
            arrived.info.direction,
            i,
        ),
    ensures
        renamed ==> actions@ == seq![
            FtAction::SuppressEcho(arrived.info.transfer_id),
            FtAction::OfferOnClipboard(arrived.info.transfer_id),
        ] && final(m).shared.entries@[i].status == TransferStatus::Completed,
        !renamed ==> actions@ == seq![FtAction::RemovePart(arrived.info.transfer_id)]
            && final(m).shared.entries@[i].status == TransferStatus::Failed,
        final(m).shared.entries@[i].completed_at == Some(now),
{
    lemma_first_entry(
        old(m).shared.entries@,
        arrived.info.file_name@,
        arrived.info.direction,
        i,
    );
}

/// A transfer that the other side gives up is gone in both directions, with its offer and its
/// partial file; the others stay.
pub proof fn given_up_transfers_are_gone(
    m: &mut FileTransferManager,
    id: u32,
    actions: Vec<FtAction>,
    other: u32,
)
    requires
        call_ensures(FileTransferManager::handle_cancel_received, (m, id), actions),
        other != id,
    ensures
        !final(m).sending@.contains_key(id),
        !final(m).receiving@.contains_key(id),
        final(m).sending@.contains_key(other) == old(m).sending@.contains_key(other),
        final(m).receiving@.contains_key(other) == old(m).receiving@.contains_key(other),
        final(m).receiving@[other] == old(m).receiving@[other],
        old(m).receiving@.contains_key(id) ==> actions@ == seq![FtAction::RemovePart(id)],
        !old(m).receiving@.contains_key(id) ==> actions@.len() == 0,
        forall|i: int|
            0 <= i < final(m).shared.pending_offers@.len()
                ==> (#[trigger] final(m).shared.pending_offers@[i]).transfer_id != id,
{
    let before = old(m).shared.pending_offers@;
    let keep = |o: crate::file_transfer::PendingOffer| o.transfer_id != id;
    let after = final(m).shared.pending_offers@;
    assert(after == before.filter(keep));
    assert forall|i: int| 0 <= i < after.len() implies (#[trigger] after[i]).transfer_id != id by {
        before.lemma_filter_pred(keep, i);
        assert(keep(after[i]));
    }
}

/// Entries go ten seconds after their transfer is over, and no others do.
pub proof fn finished_entries_go_in_time(
    s: &mut FileTransferShared,
    now: u64,
    entry: TransferEntry,
)
    requires
        call_ensures(FileTransferShared::prune, (s, now), ()),
    ensures
        final(s).entries@.contains(entry) <==> old(s).entries@.contains(entry) && !({
            &&& entry.status == TransferStatus::Completed || entry.status
                == TransferStatus::Cancelled || entry.status == TransferStatus::Failed
            &&& entry.completed_at matches Some(at) && now - at >= 10_000_000_000
        }),
        final(s).pending_offers == old(s).pending_offers,
{
    let before = old(s).entries@;
    let keep = |e: TransferEntry| !crate::file_transfer::is_stale(e, now);
    let after = final(s).entries@;
    assert(after == before.filter(keep));
    if before.contains(entry) && keep(entry) {
        let i = before.index_of(entry);
        before.lemma_filter_contains(keep, i);
        assert(after.contains(before[i]));
    }
    if after.contains(entry) {
        let i = after.index_of(entry);
        before.lemma_filter_pred(keep, i);
        assert(keep(after[i]));
        before.lemma_filter_contains_rev(keep, entry);
    }
}

/// The offers that the user wants come out as they were made, are pending no longer, and are
/// wanted no longer; the others stay pending.
pub proof fn wanted_offers_come_out(
    s: &mut FileTransferShared,
    picked: Vec<OfferToAccept>,
    offer: PendingOffer,
    i: int,
)
    requires
        call_ensures(FileTransferShared::drain_accept_queue, (s,), picked),
        0 <= i < picked@.len(),
    ensures
        final(s).accept_queue@.len() == 0,
        final(s).pending_offers@.contains(offer) <==> old(s).pending_offers@.contains(offer)
            && !old(s).accept_queue@.contains(offer.transfer_id),
        old(s).accept_queue@.contains(picked@[i].transfer_id),
        exists|k: int|
            0 <= k < old(s).pending_offers@.len() && {
                let o = #[trigger] old(s).pending_offers@[k];
                &&& o.transfer_id == picked@[i].transfer_id
                &&& o.file_size == picked@[i].file_size
                &&& o.file_name@ == picked@[i].file_name@
            },
        final(s).entries == old(s).entries,
{
    let ids = old(s).accept_queue@;
    let offers = old(s).pending_offers@;
    lemma_left(ids, offers, offer);
    let views = crate::file_transfer::offer_views(picked@);
    assert(views[i] == crate::file_transfer::offer_view(picked@[i]));
    lemma_picked_offers(ids, offers, i);
}

proof fn lemma_left(ids: Seq<u32>, offers: Seq<PendingOffer>, offer: PendingOffer)
    ensures
        crate::file_transfer::offers_left(ids, offers).contains(offer) <==> offers.contains(offer)
            && !ids.contains(offer.transfer_id),
    decreases ids.len(),
{
    if ids.len() > 0 {
        let rest = ids.drop_last();
        lemma_left(rest, offers, offer);
        let before = crate::file_transfer::offers_left(rest, offers);
        let keep = |o: PendingOffer| o.transfer_id != ids.last();
        let after = crate::file_transfer::offers_left(ids, offers);
        assert(after == before.filter(keep));
        if before.contains(offer) && keep(offer) {
            let i = before.index_of(offer);
            before.lemma_filter_contains(keep, i);
            assert(after.contains(before[i]));
        }
        if after.contains(offer) {
            let i = after.index_of(offer);
            before.lemma_filter_pred(keep, i);
            assert(keep(after[i]));
            before.lemma_filter_contains_rev(keep, offer);
        }
        if ids.contains(offer.transfer_id) && offer.transfer_id != ids.last() {
            let i = ids.index_of(offer.transfer_id);
            assert(rest[i] == offer.transfer_id);
        }
        if rest.contains(offer.transfer_id) {
            let i = rest.index_of(offer.transfer_id);
            assert(ids[i] == offer.transfer_id);
        }
        assert(ids[ids.len() - 1] == ids.last());
    }
}

proof fn lemma_offer_found(offers: Seq<PendingOffer>, id: u32)
    ensures
        ({
            let k = crate::file_transfer::offer_index(offers, id) as int;
            k < offers.len() ==> offers[k].transfer_id == id
        }),
    decreases offers.len(),
{
    if offers.len() > 0 && offers[0].transfer_id != id {
        let rest = offers.subrange(1, offers.len() as int);
        lemma_offer_found(rest, id);
        let k = crate::file_transfer::offer_index(rest, id) as int;
        if k < rest.len() {
            assert(rest[k] == offers[k + 1]);
        }
    }
}

proof fn lemma_picked_offers(ids: Seq<u32>, offers: Seq<PendingOffer>, i: int)
    requires
        0 <= i < crate::file_transfer::picked_offers(ids, offers).len(),
    ensures
        ({
            let p = crate::file_transfer::picked_offers(ids, offers)[i];
            &&& ids.contains(p.0)
            &&& exists|k: int|
                0 <= k < offers.len() && {
                    let o = #[trigger] offers[k];
                    o.transfer_id == p.0 && o.file_size == p.1 && o.file_name@ == p.2
                }
        }),
    decreases ids.len(),
{
    let rest = ids.drop_last();
    let before = crate::file_transfer::picked_offers(rest, offers);
    let k = crate::file_transfer::offer_index(offers, ids.last()) as int;
    lemma_offer_found(offers, ids.last());
    if i < before.len() {
        lemma_picked_offers(rest, offers, i);
        let p = before[i];
        let j = rest.index_of(p.0);
        assert(ids[j] == p.0);
    } else {
        assert(offers[k].transfer_id == ids.last());
        assert(ids[ids.len() - 1] == ids.last());
    }
}

/// How much of a file is through is what its pieces come to: nothing at first, all of it at the
/// end, and never more.
pub proof fn progress_is_what_the_pieces_come_to(info: TransferInfo, bytes: u64)
    requires
        call_ensures(TransferInfo::bytes_transferred, (&info,), bytes),
    ensures
        bytes <= info.file_size,
        info.chunks_done == 0 ==> bytes == 0,
        info.chunks_done * info.chunk_size <= info.file_size ==> bytes == info.chunks_done
            * info.chunk_size,
        info.chunks_done * info.chunk_size >= info.file_size ==> bytes == info.file_size,
{
}

/// When everything is stopped, every partial file is removed and nothing else is.
pub proof fn stopping_removes_partial_files(
    m: &mut FileTransferManager,
    actions: Vec<FtAction>,
    id: u32,
)
    requires
        call_ensures(FileTransferManager::stop, (m,), actions),
    ensures
        actions@.contains(FtAction::RemovePart(id)) <==> old(m).receiving@.contains_key(id),
        forall|i: int| 0 <= i < actions@.len() ==> #[trigger] actions@[i] is RemovePart,
        final(m).receiving@.len() == 0,
{
    let ids = choose|ids: Seq<u32>|
        crate::file_transfer::lists(ids, old(m).receiving@.dom()) && actions@
            == #[trigger] crate::file_transfer::removals(ids);
    if ids.contains(id) {
        let i = ids.index_of(id);
        assert(actions@[i] == FtAction::RemovePart(id));
    }
    if actions@.contains(FtAction::RemovePart(id)) {
        let i = actions@.index_of(FtAction::RemovePart(id));
        assert(ids[i] == id);
    }
    assert(ids.to_set().contains(id) <==> ids.contains(id));
    assert(final(m).receiving@ =~= Map::<u32, crate::file_transfer::RecvState>::empty());
}

/// A transfer is ended for silence exactly when nothing has been heard of it for the timeout; the
/// other side is told of each and the partial files go.
pub proof fn silence_ends_transfers(
    m: &mut FileTransferManager,
    now: u64,
    actions: Vec<FtAction>,
    id: u32,
)
    requires
        call_ensures(FileTransferManager::check_timeouts, (m, now), actions),
        old(m).limits.timeout_nanos > 0,
    ensures
        final(m).sending@.contains_key(id) <==> old(m).sending@.contains_key(id) && now
            - old(m).sending@[id].last_activity < old(m).limits.timeout_nanos,
        final(m).sending@.contains_key(id) ==> final(m).sending@[id] == old(m).sending@[id],
        final(m).receiving@.contains_key(id) <==> old(m).receiving@.contains_key(id) && now
            - old(m).receiving@[id].last_activity < old(m).limits.timeout_nanos,
        final(m).receiving@.contains_key(id) ==> final(m).receiving@[id] == old(m).receiving@[id],
        actions@.contains(FtAction::RemovePart(id)) <==> old(m).receiving@.contains_key(id)
            && !final(m).receiving@.contains_key(id),
        actions@.contains(FtAction::Send(FtOutbound::FileCancel { transfer_id: id })) <==> (
        old(m).sending@.contains_key(id) && !final(m).sending@.contains_key(id)) || (
        old(m).receiving@.contains_key(id) && !final(m).receiving@.contains_key(id)),
{
    let timeout = old(m).limits.timeout_nanos;
    let before = *old(m);
    let (sends, receives) = choose|sends: Seq<u32>, receives: Seq<u32>|
        {
            &&& crate::file_transfer::lists(
                sends,
                crate::file_transfer::silent_sends(before.sending@, timeout, now),
            )
            &&& crate::file_transfer::lists(
                receives,
                crate::file_transfer::silent_receives(before.receiving@, timeout, now),
            )
            &&& #[trigger] FileTransferManager::gave_up(
                before,
                sends,
                receives,
                final(m).sending@,
                final(m).receiving@,
                final(m).shared.entries@,
                actions@,
            )
        };
    let entries = before.shared.entries@;
    let first = crate::file_transfer::swept_sends(before.sending@, sends, entries);
    let second = crate::file_transfer::swept_receives(before.receiving@, receives, first.entries);
    crate::file_transfer::timeouts_hit_silent_sends(
        before.sending@,
        sends,
        entries,
        timeout,
        now,
        id,
    );
    crate::file_transfer::timeouts_hit_silent_receives(
        before.receiving@,
        receives,
        first.entries,
        timeout,
        now,
        id,
    );
    crate::file_transfer::silent_sends_are_cancelled(
        before.sending@,
        sends,
        entries,
        timeout,
        now,
        id,
    );
    crate::file_transfer::silent_receives_are_cancelled(
        before.receiving@,
        receives,
        first.entries,
        timeout,
        now,
        id,
    );
    let cancel = FtAction::Send(FtOutbound::FileCancel { transfer_id: id });
    let remove = FtAction::RemovePart(id);
    lemma_concat_has(first.actions, second.actions, cancel);
    lemma_concat_has(first.actions, second.actions, remove);
    lemma_sends_remove_nothing(before.sending@, sends, entries, id);
}

proof fn lemma_concat_has(a: Seq<FtAction>, b: Seq<FtAction>, item: FtAction)
    ensures
        (a + b).contains(item) <==> a.contains(item) || b.contains(item),
{
    let both = a + b;
    if a.contains(item) {
        let i = a.index_of(item);
        assert(both[i] == item);
    }
    if b.contains(item) {
        let i = b.index_of(item);
        assert(both[a.len() + i] == item);
    }
    if both.contains(item) {
        let i = both.index_of(item);
        if i < a.len() {
            assert(a[i] == item);
        } else {
            assert(b[i - a.len()] == item);
        }
    }
}

proof fn lemma_sends_remove_nothing(
    sending: Map<u32, crate::file_transfer::SendState>,
    ids: Seq<u32>,
    entries: Seq<TransferEntry>,
    id: u32,
)
    ensures
        !crate::file_transfer::swept_sends(sending, ids, entries).actions.contains(
            FtAction::RemovePart(id),
        ),
    decreases ids.len(),
{
    if ids.len() > 0 {
        lemma_sends_remove_nothing(sending, ids.drop_last(), entries, id);
        let before = crate::file_transfer::swept_sends(sending, ids.drop_last(), entries).actions;
        let after = crate::file_transfer::swept_sends(sending, ids, entries).actions;
        if after.contains(FtAction::RemovePart(id)) {
            let i = after.index_of(FtAction::RemovePart(id));
            assert(i < before.len());
            assert(before[i] == FtAction::RemovePart(id));
        }
    }
}

/// A name that is taken gets a number between what stands before its last dot and its extension:
/// the number of names that were tried before it.
pub proof fn numbers_go_before_the_extension(
    name: &str,
    base: Seq<char>,
    extension: Seq<char>,
    tried: &Vec<bool>,
    k: int,
    step: DestStep,
)
    requires
        call_ensures(unique_dest_path, (name, tried), step),
        name@ == base + extension,
        base.len() > 0,
        extension.len() > 0,
        extension[0] == '.',
        name@ != seq!['.', '.'],
        forall|i: int| 1 <= i < extension.len() ==> #[trigger] extension[i] != '.',
        forall|i: int| 0 <= i < name@.len() ==> #[trigger] name@[i] != '/',
        0 <= k <= tried@.len(),
        forall|i: int| 0 <= i < k ==> #[trigger] tried@[i],
        k < tried@.len() ==> !tried@[k],
    ensures
        step is Use <==> k < tried@.len(),
        ({
            let text = match step {
                DestStep::Use(found) => found@,
                DestStep::Try(next) => next@,
            };
            &&& k == 0 ==> text == name@
            &&& k > 0 ==> text == base + "_"@ + crate::text::decimal(k as nat) + extension
        }),
{
    lemma_count_taken(tried@, k);
    let n = name@;
    lemma_plain_name(n);
    lemma_dot_stands(n, base.len() as int);
    if k > 0 {
        assert(n.subrange(0, base.len() as int) =~= base);
        assert(n.subrange(base.len() as int, n.len() as int) =~= extension);
    }
}

proof fn lemma_count_taken(tried: Seq<bool>, k: int)
    requires
        0 <= k <= tried.len(),
        forall|i: int| 0 <= i < k ==> #[trigger] tried[i],
        k < tried.len() ==> !tried[k],
    ensures
        crate::file_names::taken_before(tried) == k,
    decreases tried.len(),
{
    if tried.len() > 0 {
        let rest = tried.drop_last();
        if k < tried.len() {
            lemma_count_taken(rest, k);
        } else {
            lemma_count_taken(rest, k - 1);
        }
    }
}

proof fn lemma_no_separator(text: Seq<char>)
    requires
        forall|i: int| 0 <= i < text.len() ==> #[trigger] text[i] != '/',
    ensures
        crate::file_names::part_start(text) == 0,
    decreases text.len(),
{
    if text.len() > 0 {
        assert(text[text.len() - 1] != '/');
        let rest = text.drop_last();
        assert forall|i: int| 0 <= i < rest.len() implies #[trigger] rest[i] != '/' by {
            assert(rest[i] == text[i]);
        }
        lemma_no_separator(rest);
    }
}

proof fn lemma_plain_name(name: Seq<char>)
    requires
        name.len() > 1,
        name != seq!['.', '.'],
        forall|i: int| 0 <= i < name.len() ==> #[trigger] name[i] != '/',
    ensures
        crate::file_names::file_name(name) == Some(name),
{
    assert(name[name.len() - 1] != '/');
    assert(name[name.len() - 2] != '/');
    assert(crate::file_names::path_end(name) == name.len());
    assert(name.subrange(0, name.len() as int) =~= name);
    lemma_no_separator(name);
}

proof fn lemma_dot_stands(name: Seq<char>, at: int)
    requires
        0 <= at < name.len(),
        name[at] == '.',
        forall|i: int| at < i < name.len() ==> #[trigger] name[i] != '.',
    ensures
        crate::file_names::last_dot(name) == at,
    decreases name.len(),
{
    if at < name.len() - 1 {
        assert(name[name.len() - 1] != '.');
        let rest = name.drop_last();
        assert forall|i: int| at < i < rest.len() implies #[trigger] rest[i] != '.' by {
            assert(rest[i] == name[i]);
        }
        lemma_dot_stands(rest, at);
    }
}

/// A file is received beside where it goes, under its own name with one extension more.
pub proof fn partial_files_lie_beside(path: &str, out: String)
    requires
        call_ensures(part_path, (path,), out),
        path@.len() > 0,
        path@.last() != '/',
        path@.last() != '.',
    ensures
        out@ == path@ + ".part"@,
{
    let p = path@;
    assert(crate::file_names::path_end(p) == p.len());
    assert(p.subrange(0, p.len() as int) =~= p);
    let start = crate::file_names::part_start(p) as int;
    lemma_part_is_short(p);
    let last = p.subrange(start, p.len() as int);
    assert(last.len() > 0);
    assert(last[last.len() - 1] == p.last());
    if last == seq!['.'] {
        assert(last[0] == '.');
    }
    if last == seq!['.', '.'] {
        assert(last[1] == '.');
    }
}

proof fn lemma_part_is_short(text: Seq<char>)
    ensures
        crate::file_names::part_start(text) <= text.len(),
        text.len() > 0 && text.last() != '/' ==> crate::file_names::part_start(text) < text.len(),
    decreases text.len(),
{
    if text.len() > 0 {
        lemma_part_is_short(text.drop_last());
    }
}

/// Files go to the directory that was asked for; else to the usual one under the first of the
/// runtime directory, the one for temporary files, and `/tmp`.
pub proof fn files_go_where_asked(
    custom: Option<&str>,
    runtime: Option<&str>,
    temp: Option<&str>,
    out: ReceiveDir,
)
    requires
        call_ensures(receive_dir, (custom, runtime, temp), out),
    ensures
        custom matches Some(dir) ==> out.base@ == dir@,
        out.usual_below <==> custom is None,
        custom is None && runtime is Some ==> out.base@ == runtime->0@,
        custom is None && runtime is None && temp is Some ==> out.base@ == temp->0@,
        custom is None && runtime is None && temp is None ==> out.base@ == "/tmp"@,
{
}

/// The clipboard gets the address of the file at the path, whichever program puts it there.
pub proof fn the_clipboard_gets_the_path(
    wayland: bool,
    path: &str,
    out: ClipboardCommand,
    other: ClipboardCommand,
)
    requires
        call_ensures(set_clipboard_file, (wayland, path), out),
        call_ensures(set_clipboard_file, (!wayland, path), other),
    ensures
        out.input@ == other.input@,
        out.program@ != other.program@,
        out.input@.len() == 7 + path@.len() + 1,
        out.input@.subrange(7, 7 + path@.len() as int) == path@,
        out.input@.last() == '\n',
{
    reveal_strlit("file://");
    reveal_strlit("\n");
    reveal_strlit("wl-copy");
    reveal_strlit("xclip");
    assert(out.input@.subrange(7, 7 + path@.len() as int) =~= path@);
    assert("wl-copy"@.len() != "xclip"@.len());
}

/// A manager starts without transfers, with its own numbers from one on; it takes up every offer
/// exactly where it was started so.
pub proof fn managers_start_empty(
    limits: TransferLimits,
    shared: FileTransferShared,
    a: FileTransferManager,
    b: FileTransferManager,
    c: FileTransferManager,
)
    requires
        limits.wf(),
        call_ensures(FileTransferManager::start_with_state, (limits, shared), a),
        call_ensures(FileTransferManager::start_full, (limits, shared), b),
        call_ensures(FileTransferManager::start_auto_accept, (limits, shared), c),
    ensures
        !a.auto_accept && !b.auto_accept && c.auto_accept,
        a.sending@.len() == 0 && a.receiving@.len() == 0,
        c.sending@.len() == 0 && c.receiving@.len() == 0,
        a.next_transfer_id == 1 && c.next_transfer_id == 1,
        a.shared == shared && b.shared == shared && c.shared == shared,
        a.limits == limits && c.limits == limits,
{
}

/// A turn without events is followed by a pause, and one with them is not.
pub proof fn idle_turns_pause(m: &mut FileTransferManager, had_events: bool, now: u64, end: TurnEnd)
    requires
        old(m).wf(),
        call_ensures(FileTransferManager::end_turn, (m, had_events, now), end),
    ensures
        end.pause is None <==> had_events,
        end.pause matches Some(pause) ==> pause == 10_000_000,
        final(m).shared.accept_queue@.len() == 0,
        final(m).next_transfer_id == old(m).next_transfer_id,
{
}

/// A list for the clipboard of Windows says where the path stands, and there the path stands, with
/// two zeros behind it.
pub proof fn dropped_files_are_found(path: &[u16], out: Vec<u8>, i: int)
    requires
        call_ensures(drop_files, (path,), out),
        0 <= i < path@.len(),
    ensures
        ({
            let at = out@[0] as int + 256 * out@[1] + 2 * i;
            &&& out@[at] + 256 * out@[at + 1] == path@[i]
            &&& out@.len() == out@[0] + 2 * path@.len() + 4
            &&& out@[16] == 1
            &&& out@[out@.len() - 1] == 0 && out@[out@.len() - 2] == 0 && out@[out@.len() - 3] == 0
                && out@[out@.len() - 4] == 0
        }),
{
    crate::file_clipboard::path_stands_behind_the_header(path@, i);
}

/// An event leads to its own step, with what came in and nothing else: a file that is to be sent
/// is looked up, an offer is judged, and a piece is written exactly where it is the next of a file
/// that is being received.
pub proof fn events_lead_to_their_steps(
    m: &mut FileTransferManager,
    event: FtInbound,
    now: u64,
    step: InboundStep,
)
    requires
        call_ensures(FileTransferManager::dispatch, (m, event, now), step),
    ensures
        event matches FtInbound::SendFile { path } ==> step == InboundStep::LookUp(path)
            && *final(m) == *old(m),
        event matches FtInbound::OfferReceived { transfer_id, file_size, file_name } ==> step == (
        InboundStep::Offered { transfer_id, file_size, file_name }) && *final(m) == *old(m),
        event matches FtInbound::ChunkReceived { transfer_id, chunk_index, data } ==> {
            &&& *final(m) == *old(m)
            &&& step == (InboundStep::Write { transfer_id, chunk_index, data })
                <==> old(m).awaits(transfer_id, chunk_index)
            &&& step is Write || step is Done
        },
        event is CompleteReceived <==> step is Completed,
        event is AcceptReceived || event is ProgressReceived ==> (step matches InboundStep::Done(
            actions,
        ) && actions@.len() == 0),
        step is LookUp ==> event is SendFile,
        step is Offered ==> event is OfferReceived,
{
}

/// An answer to an offer of the server's touches nothing that is being received, and no offer that
/// waits for the user.
pub proof fn answers_leave_the_rest(m: &mut FileTransferManager, id: u32, accepted: bool, now: u64)
    requires
        call_ensures(FileTransferManager::handle_accept_received, (m, id, accepted, now), ()),
    ensures
        final(m).receiving == old(m).receiving,
        final(m).shared.pending_offers == old(m).shared.pending_offers,
        final(m).shared.accept_queue == old(m).shared.accept_queue,
        final(m).next_transfer_id == old(m).next_transfer_id,
        final(m).limits == old(m).limits && final(m).auto_accept == old(m).auto_accept,
{
}

/// Every offer that the user wants and that is pending comes out, and the queue is empty then.
pub proof fn every_wanted_offer_comes_out(
    s: &mut FileTransferShared,
    picked: Vec<OfferToAccept>,
    offer: PendingOffer,
)
    requires
        call_ensures(FileTransferShared::drain_accept_queue, (s,), picked),
        old(s).pending_offers@.contains(offer),
        old(s).accept_queue@.contains(offer.transfer_id),
    ensures
        exists|i: int|
            0 <= i < picked@.len() && (#[trigger] picked@[i]).transfer_id == offer.transfer_id,
        !final(s).pending_offers@.contains(offer),
{
    let ids = old(s).accept_queue@;
    let offers = old(s).pending_offers@;
    lemma_left(ids, offers, offer);
    let views = crate::file_transfer::offer_views(picked@);
    lemma_comes_out(ids, offers, offer);
    let i = choose|i: int|
        0 <= i < crate::file_transfer::picked_offers(ids, offers).len()
            && crate::file_transfer::picked_offers(ids, offers)[i].0 == offer.transfer_id;
    assert(views[i] == crate::file_transfer::offer_view(picked@[i]));
    assert(picked@[i].transfer_id == offer.transfer_id);
}

proof fn lemma_comes_out(ids: Seq<u32>, offers: Seq<PendingOffer>, offer: PendingOffer)
    requires
        offers.contains(offer),
        ids.contains(offer.transfer_id),
    ensures
        exists|i: int|
            0 <= i < crate::file_transfer::picked_offers(ids, offers).len()
                && crate::file_transfer::picked_offers(ids, offers)[i].0 == offer.transfer_id,
    decreases ids.len(),
{
    let rest = ids.drop_last();
    let before = crate::file_transfer::picked_offers(rest, offers);
    let all = crate::file_transfer::picked_offers(ids, offers);
    let k = choose|k: int| 0 <= k < ids.len() && ids[k] == offer.transfer_id;
    if k < rest.len() {
        assert(rest[k] == offer.transfer_id);
        lemma_comes_out(rest, offers, offer);
        let i = choose|i: int| 0 <= i < before.len() && before[i].0 == offer.transfer_id;
        assert(all[i] == before[i]);
    } else {
        assert(ids.last() == offer.transfer_id);
        lemma_pending_found(offers, offer);
        assert(all[all.len() - 1].0 == offer.transfer_id);
    }
}

proof fn lemma_pending_found(offers: Seq<PendingOffer>, offer: PendingOffer)
    requires
        offers.contains(offer),
    ensures
        crate::file_transfer::offer_index(offers, offer.transfer_id) < offers.len(),
        offers[crate::file_transfer::offer_index(offers, offer.transfer_id) as int].transfer_id
            == offer.transfer_id,
    decreases offers.len(),
{
    let k = choose|k: int| 0 <= k < offers.len() && offers[k] == offer;
    if offers[0].transfer_id != offer.transfer_id {
        let rest = offers.subrange(1, offers.len() as int);
        assert(rest[k - 1] == offer);
        lemma_pending_found(rest, offer);
    }
}

/// The end of a turn brings out what the user wants as the queue does by itself.
pub proof fn turns_bring_out_wanted_offers(
    m: &mut FileTransferManager,
    had_events: bool,
    now: u64,
    end: TurnEnd,
    s: &mut FileTransferShared,
    picked: Vec<OfferToAccept>,
)
    requires
        old(m).wf(),
        call_ensures(FileTransferManager::end_turn, (m, had_events, now), end),
        call_ensures(FileTransferShared::drain_accept_queue, (s,), picked),
        old(s).accept_queue@ == old(m).shared.accept_queue@,
        old(s).pending_offers@ == old(m).shared.pending_offers@,
    ensures
        crate::file_transfer::offer_views(end.offers@) == crate::file_transfer::offer_views(picked@),
        final(m).shared.pending_offers@ == final(s).pending_offers@,
        final(m).shared.accept_queue@.len() == 0,
{
}

/// A list for the clipboard of Windows has nothing in its header but where the path stands and
/// that its characters are wide.
pub proof fn dropped_files_have_no_place(path: &[u16], out: Vec<u8>, i: int)
    requires
        call_ensures(drop_files, (path,), out),
        0 <= i < 20,
    ensures
        out@[0] == 20,
        i != 0 && i != 16 ==> out@[i] == 0,
        out@[16] == 1,
{
}

/// A name without an extension, a hidden one among them, gets its number at its end.
pub proof fn numbers_go_behind_plain_names(
    name: &str,
    tried: &Vec<bool>,
    k: int,
    step: DestStep,
)
    requires
        call_ensures(unique_dest_path, (name, tried), step),
        name@.len() > 1,
        forall|i: int| 1 <= i < name@.len() ==> #[trigger] name@[i] != '.',
        forall|i: int| 0 <= i < name@.len() ==> #[trigger] name@[i] != '/',
        0 < k <= tried@.len(),
        forall|i: int| 0 <= i < k ==> #[trigger] tried@[i],
        k < tried@.len() ==> !tried@[k],
    ensures
        ({
            let text = match step {
                DestStep::Use(found) => found@,
                DestStep::Try(next) => next@,
            };
            text == name@ + "_"@ + crate::text::decimal(k as nat)
        }),
{
    lemma_count_taken(tried@, k);
    let n = name@;
    assert(n[1] != '.');
    assert(n != seq!['.', '.']) by {
        assert(seq!['.', '.'][1] == '.');
    }
    lemma_plain_name(n);
    lemma_dot_at_start(n);
    let text = n + "_"@ + crate::text::decimal(k as nat);
    assert(text + Seq::<char>::empty() =~= text);
}

proof fn lemma_dot_at_start(name: Seq<char>)
    requires
        forall|i: int| 1 <= i < name.len() ==> #[trigger] name[i] != '.',
    ensures
        crate::file_names::last_dot(name) <= 0,
    decreases name.len(),
{
    reveal_with_fuel(crate::file_names::last_dot, 2);
    if name.len() > 1 {
        assert(name[name.len() - 1] != '.');
        let rest = name.drop_last();
        assert forall|i: int| 1 <= i < rest.len() implies #[trigger] rest[i] != '.' by {
            assert(rest[i] == name[i]);
        }
        lemma_dot_at_start(rest);
    }
}

/// The numbers of the server's own transfers go on only with files that it sends.
pub proof fn numbers_go_on_with_sends(
    m: &mut FileTransferManager,
    event: FtInbound,
    now: u64,
    step: InboundStep,
)
    requires
        call_ensures(FileTransferManager::dispatch, (m, event, now), step),
    ensures
        final(m).next_transfer_id == old(m).next_transfer_id,
        final(m).limits == old(m).limits && final(m).auto_accept == old(m).auto_accept,
{
}

/// A manager with a state of its own starts with nothing shown and nothing offered; a check for
/// silence touches no offer.
pub proof fn own_states_start_empty(
    limits: TransferLimits,
    out: FileTransferManager,
    shared: FileTransferShared,
    m: &mut FileTransferManager,
    now: u64,
    actions: Vec<FtAction>,
)
    requires
        limits.wf(),
        call_ensures(FileTransferManager::start, (limits,), out),
        call_ensures(new_shared_state, (), shared),
        call_ensures(FileTransferManager::check_timeouts, (m, now), actions),
    ensures
        out.shared.entries@.len() == 0 && out.shared.pending_offers@.len() == 0
            && out.shared.accept_queue@.len() == 0,
        !out.auto_accept && out.next_transfer_id == 1 && out.limits == limits,
        shared.entries@.len() == 0 && shared.pending_offers@.len() == 0
            && shared.accept_queue@.len() == 0,
        final(m).shared.pending_offers == old(m).shared.pending_offers,
        final(m).shared.accept_queue == old(m).shared.accept_queue,
{
}

} // verus!
