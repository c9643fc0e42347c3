//! File transfers in both directions.
//!
//! [`FileTransferManager`] keeps the transfers under way. Files are read, written,
//! renamed and removed outside; each handler takes in what came of that and says
//! which messages to send, which partial files to remove and which files have arrived.
//! Points in time are nanoseconds on a monotonic clock.

use std::collections::HashMap;
use vstd::prelude::*;
use vstd::std_specs::iter::IteratorSpec;
use crate::bitrate::elapsed;
use crate::digest::{absorbed, sha256, Hasher};

verus! {

broadcast use vstd::std_specs::hash::group_hash_axioms;

#[derive(Clone, Copy, Debug, PartialEq, Eq, Structural)]
pub enum TransferDirection {
    Send,
    Receive,
}

#[derive(Clone, Copy, Debug, PartialEq, Eq, Structural)]
pub enum TransferStatus {
    /// Offered, and not answered yet.
    Waiting,
    Active,
    Completed,
    Cancelled,
    Failed,
}

/// The limits that transfers keep to.
#[derive(Clone, Copy, Debug, PartialEq, Eq, Structural)]
pub struct TransferLimits {
    pub max_file_size: u64,
    pub chunk_size: u32,
    pub timeout_nanos: u64,
    pub progress_ack_interval: u32,
    pub chunks_per_tick: u32,
    pub flow_control_window: u32,
}

impl TransferLimits {
    pub open spec fn wf(self) -> bool {
        self.chunk_size > 0 && self.progress_ack_interval > 0
    }
}

/// How many chunks a file has; a file too large to count has the largest number.
pub open spec fn chunk_count(file_size: u64, chunk_size: u32) -> u32 {
    let n = (file_size + chunk_size - 1) / (chunk_size as int);
    if n <= u32::MAX {
        n as u32
    } else {
        u32::MAX
    }
}

/// One transfer.
pub struct TransferInfo {
    pub transfer_id: u32,
    pub file_name: String,
    pub file_size: u64,
    pub chunk_size: u32,
    pub chunks_total: u32,
    pub chunks_done: u32,
    pub direction: TransferDirection,
    pub status: TransferStatus,
}

impl TransferInfo {
    pub open spec fn wf(self) -> bool {
        &&& self.chunk_size > 0
        &&& self.chunks_total == chunk_count(self.file_size, self.chunk_size)
    }

    /// How many bytes the chunks that are through come to.
    pub open spec fn bytes_done(self) -> u64 {
        if self.chunks_done * self.chunk_size <= self.file_size {
            (self.chunks_done * self.chunk_size) as u64
        } else {
            self.file_size
        }
    }

    pub open spec fn started(
        transfer_id: u32,
        file_name: Seq<char>,
        file_size: u64,
        chunk_size: u32,
        direction: TransferDirection,
        info: TransferInfo,
    ) -> bool {
        &&& info.transfer_id == transfer_id
        &&& info.file_name@ == file_name
        &&& info.file_size == file_size
        &&& info.chunk_size == chunk_size
        &&& info.chunks_total == chunk_count(file_size, chunk_size)
        &&& info.chunks_done == 0
        &&& info.direction == direction
        &&& info.status == (match direction {
            TransferDirection::Send => TransferStatus::Waiting,
            TransferDirection::Receive => TransferStatus::Active,
        })
    }

    fn start(
        transfer_id: u32,
        file_name: String,
        file_size: u64,
        chunk_size: u32,
        direction: TransferDirection,
    ) -> (out: Self)
        requires
            chunk_size > 0,
        ensures
            Self::started(transfer_id, file_name@, file_size, chunk_size, direction, out),
            out.file_name == file_name,
            out.wf(),
    {
        let rounded: u128 = file_size as u128 + chunk_size as u128 - 1;
        let n: u128 = rounded / chunk_size as u128;
        let chunks_total: u32 = if n <= 0xffff_ffff {
            n as u32
        } else {
            0xffff_ffff
        };
        TransferInfo {
            transfer_id,
            file_name,
            file_size,
            chunk_size,
            chunks_total,
            chunks_done: 0,
            direction,
            status: match direction {
                TransferDirection::Send => TransferStatus::Waiting,
                TransferDirection::Receive => TransferStatus::Active,
            },
        }
    }

    /// How many bytes the chunks that are through come to.
    pub fn bytes_transferred(&self) -> (bytes: u64)
        ensures
            bytes == self.bytes_done(),
    {
        assert(self.chunks_done * self.chunk_size <= 0xffff_ffff * 0xffff_ffff) by (nonlinear_arith)
            requires
                self.chunks_done <= 0xffff_ffff,
                self.chunk_size <= 0xffff_ffff,
        ;
        let product: u64 = self.chunks_done as u64 * self.chunk_size as u64;
        if product <= self.file_size {
            product
        } else {
            self.file_size
        }
    }
}

/// A file that the other side offers and nobody has accepted yet.
pub struct PendingOffer {
    pub transfer_id: u32,
    pub file_name: String,
    pub file_size: u64,
    pub received_at: u64,
}

/// What the user sees of a transfer.
pub struct TransferEntry {
    pub direction: TransferDirection,
    pub file_name: String,
    pub total_bytes: u64,
    pub transferred_bytes: u64,
    pub status: TransferStatus,
    pub started_at: u64,
    pub completed_at: Option<u64>,
}

/// What the manager shares with the user interface.
pub struct FileTransferShared {
    pub entries: Vec<TransferEntry>,
    pub pending_offers: Vec<PendingOffer>,
    /// The offers that the user wants; emptied on every turn.
    pub accept_queue: Vec<u32>,
}

/// A shared state without transfers.
pub fn new_shared_state() -> (out: FileTransferShared)
    ensures
        out.entries@.len() == 0,
        out.pending_offers@.len() == 0,
        out.accept_queue@.len() == 0,
{
    FileTransferShared {
        entries: Vec::new(),
        pending_offers: Vec::new(),
        accept_queue: Vec::new(),
    }
}

/// A file that is being sent.
pub struct SendState {
    pub info: TransferInfo,
    pub last_acked_chunk: u32,
    pub last_activity: u64,
}

/// A file that is being received.
pub struct RecvState {
    pub info: TransferInfo,
    pub hasher: Hasher,
    pub next_expected_chunk: u32,
    pub last_activity: u64,
}

impl RecvState {
    /// The bytes received so far.
    pub open spec fn received(self) -> Seq<u8> {
        absorbed(self.hasher)
    }
}

/// What the control loop hands to the manager.
pub enum FtInbound {
    OfferReceived { transfer_id: u32, file_size: u64, file_name: String },
    AcceptReceived { transfer_id: u32, accepted: bool },
    ChunkReceived { transfer_id: u32, chunk_index: u32, data: Vec<u8> },
    CompleteReceived { transfer_id: u32, total_chunks: u32, sha256: [u8; 32] },
    CancelReceived { transfer_id: u32 },
    ProgressReceived { transfer_id: u32, chunks_received: u32 },
    /// A local file is to be sent.
    SendFile { path: String },
}

/// A message to the other side.
pub enum FtOutbound {
    FileOffer { transfer_id: u32, file_size: u64, file_name: String },
    FileAccept { transfer_id: u32, accepted: bool },
    FileChunk { transfer_id: u32, chunk_index: u32, data: Vec<u8> },
    FileComplete { transfer_id: u32, total_chunks: u32, sha256: [u8; 32] },
    FileCancel { transfer_id: u32 },
    FileProgress { transfer_id: u32, chunks_received: u32 },
}

/// Something to do now.
pub enum FtAction {
    Send(FtOutbound),
    /// Remove the partial file of a transfer.
    RemovePart(u32),
    /// Do not offer the file that a transfer has brought back to the other side.
    SuppressEcho(u32),
    /// Put the file that a transfer has brought on the clipboard.
    OfferOnClipboard(u32),
}

/// Where the first entry of a name and direction stands; the length if nowhere.
pub open spec fn entry_index(
    entries: Seq<TransferEntry>,
    name: Seq<char>,
    direction: TransferDirection,
) -> nat
    decreases entries.len(),
{
    if entries.len() == 0 {
        0
    } else if entries[0].file_name@ == name && entries[0].direction == direction {
        0
    } else {
        1 + entry_index(entries.subrange(1, entries.len() as int), name, direction)
    }
}

/// The entries after news of a transfer: the first entry of its name and
/// direction takes over its progress and status.
pub open spec fn updated_entries(
    entries: Seq<TransferEntry>,
    info: TransferInfo,
    completed_at: Option<u64>,
) -> Seq<TransferEntry> {
    let i = entry_index(entries, info.file_name@, info.direction) as int;
    if i < entries.len() {
        entries.update(
            i,
            TransferEntry {
                transferred_bytes: info.bytes_done(),
                status: info.status,
                completed_at: if completed_at is Some {
                    completed_at
                } else {
                    entries[i].completed_at
                },
                ..entries[i]
            },
        )
    } else {
        entries
    }
}

proof fn lemma_entry_index(
    entries: Seq<TransferEntry>,
    name: Seq<char>,
    direction: TransferDirection,
    i: int,
)
    requires
        0 <= i <= entries.len(),
        forall|k: int|
            0 <= k < i ==> !((#[trigger] entries[k]).file_name@ == name && entries[k].direction
                == direction),
        i < entries.len() ==> entries[i].file_name@ == name && entries[i].direction == direction,
    ensures
        entry_index(entries, name, direction) == i,
    decreases i,
{
    if i > 0 {
        let rest = entries.subrange(1, entries.len() as int);
        assert forall|k: int| 0 <= k < i - 1 implies !((#[trigger] rest[k]).file_name@ == name
            && rest[k].direction == direction) by {
            assert(rest[k] == entries[k + 1]);
        }
        if i < entries.len() {
            assert(rest[i - 1] == entries[i]);
        }
        lemma_entry_index(rest, name, direction, i - 1);
    }
}

/// The entry that a new transfer gets.
pub open spec fn is_new_entry(entry: TransferEntry, info: TransferInfo, now: u64) -> bool {
    &&& entry.direction == info.direction
    &&& entry.file_name@ == info.file_name@
    &&& entry.total_bytes == info.file_size
    &&& entry.transferred_bytes == info.bytes_done()
    &&& entry.status == info.status
    &&& entry.started_at == now
    &&& entry.completed_at is None
}

impl FileTransferShared {
    fn update_entry(&mut self, info: &TransferInfo, completed_at: Option<u64>)
        ensures
            final(self).entries@ == updated_entries(old(self).entries@, *info, completed_at),
            final(self).pending_offers == old(self).pending_offers,
            final(self).accept_queue == old(self).accept_queue,
    {
        let mut i: usize = 0;
        let ghost entries = self.entries@;
        while i < self.entries.len()
            invariant
                self.entries@ == entries,
                i <= entries.len(),
                self.pending_offers == old(self).pending_offers,
                self.accept_queue == old(self).accept_queue,
                entries == old(self).entries@,
                forall|k: int|
                    0 <= k < i ==> !((#[trigger] entries[k]).file_name@ == info.file_name@
                        && entries[k].direction == info.direction),
            decreases entries.len() - i,
        {
            if self.entries[i].file_name == info.file_name && self.entries[i].direction
                == info.direction {
                proof {
                    lemma_entry_index(entries, info.file_name@, info.direction, i as int);
                }
                let bytes: u64 = info.bytes_transferred();
                let mut entry = self.entries.remove(i);
                entry.transferred_bytes = bytes;
                entry.status = info.status;
                if completed_at.is_some() {
                    entry.completed_at = completed_at;
                }
                self.entries.insert(i, entry);
                proof {
                    assert(self.entries@ == entries.update(i as int, entry));
                }
                return ;
            }
            i = i + 1;
        }
        proof {
            lemma_entry_index(entries, info.file_name@, info.direction, i as int);
        }
    }

    fn push_entry(&mut self, info: &TransferInfo, now: u64)
        ensures
            final(self).entries@.len() == old(self).entries@.len() + 1,
            final(self).entries@.drop_last() == old(self).entries@,
            is_new_entry(final(self).entries@.last(), *info, now),
            final(self).pending_offers == old(self).pending_offers,
            final(self).accept_queue == old(self).accept_queue,
    {
        self.entries.push(
            TransferEntry {
                direction: info.direction,
                file_name: info.file_name.clone(),
                total_bytes: info.file_size,
                transferred_bytes: info.bytes_transferred(),
                status: info.status,
                started_at: now,
                completed_at: None,
            },
        );
        proof {
            assert(self.entries@.drop_last() == old(self).entries@);
        }
    }
}

/// What is known of a local file that is to be sent.
pub struct FileMeta {
    pub is_file: bool,
    pub size: u64,
    /// The name once it is made safe; `None` where nothing of it is left.
    pub safe_name: Option<String>,
}

/// A piece of a file to be read and sent.
#[derive(Clone, Copy, Debug, PartialEq, Eq, Structural)]
pub struct ChunkRequest {
    pub chunk_index: u32,
    pub offset: u64,
    pub len: u64,
}

/// An offer that is to be taken up.
pub struct OfferToAccept {
    pub transfer_id: u32,
    pub file_size: u64,
    pub file_name: String,
}

/// What to do about an offer.
pub enum OfferStep {
    /// Prepare a file to receive into, and report how that went.
    Prepare,
    /// Nothing but these.
    Actions(Vec<FtAction>),
}

/// A file that has arrived whole and waits to be given its name.
pub struct Arrived {
    pub info: TransferInfo,
}

/// What came of the end of a file.
pub enum CompleteStep {
    /// No such transfer.
    Unknown,
    /// The digest is another one: the partial file is removed.
    Mismatch(Vec<FtAction>),
    /// Rename the partial file, and report how that went.
    Rename(Arrived),
}

/// The transfers under way.
pub struct FileTransferManager {
    pub limits: TransferLimits,
    /// Accept offers without asking: a server has nobody to ask.
    pub auto_accept: bool,
    pub next_transfer_id: u32,
    pub sending: HashMap<u32, SendState>,
    pub receiving: HashMap<u32, RecvState>,
    pub shared: FileTransferShared,
}

impl FileTransferManager {
    pub open spec fn wf(self) -> bool {
        &&& self.limits.wf()
        &&& forall|id: u32|
            self.sending@.contains_key(id) ==> (#[trigger] self.sending@[id]).info.wf()
                && self.sending@[id].info.transfer_id == id
        &&& forall|id: u32|
            self.receiving@.contains_key(id) ==> (#[trigger] self.receiving@[id]).info.wf()
                && self.receiving@[id].info.transfer_id == id
    }

    /// That nothing but the transfers and what is shared of them may differ.
    pub open spec fn same_setup(self, other: Self) -> bool {
        self.limits == other.limits && self.auto_accept == other.auto_accept
    }

    pub open spec fn fresh(
        self,
        limits: TransferLimits,
        shared: FileTransferShared,
        auto_accept: bool,
    ) -> bool {
        &&& self.wf()
        &&& self.limits == limits
        &&& self.auto_accept == auto_accept
        &&& self.next_transfer_id == 1
        &&& self.sending@ == Map::<u32, SendState>::empty()
        &&& self.receiving@ == Map::<u32, RecvState>::empty()
        &&& self.shared == shared
    }

    fn start_configured(
        limits: TransferLimits,
        shared: FileTransferShared,
        auto_accept: bool,
    ) -> (out: Self)
        requires
            limits.wf(),
        ensures
            out.fresh(limits, shared, auto_accept),
    {
        FileTransferManager {
            limits,
            auto_accept,
            next_transfer_id: 1,
            sending: HashMap::new(),
            receiving: HashMap::new(),
            shared,
        }
    }

    /// A manager with a shared state of its own, which leaves offers to the user.
    pub fn start(limits: TransferLimits) -> (out: Self)
        requires
            limits.wf(),
        ensures
            out.fresh(limits, out.shared, false),
            out.shared.entries@.len() == 0,
            out.shared.pending_offers@.len() == 0,
            out.shared.accept_queue@.len() == 0,
    {
        Self::start_with_state(limits, new_shared_state())
    }

    /// A manager that leaves offers to the user.
    pub fn start_with_state(limits: TransferLimits, shared: FileTransferShared) -> (out: Self)
        requires
            limits.wf(),
        ensures
            out.fresh(limits, shared, false),
    {
        Self::start_configured(limits, shared, false)
    }

    /// A manager that leaves offers to the user.
    pub fn start_full(limits: TransferLimits, shared: FileTransferShared) -> (out: Self)
        requires
            limits.wf(),
        ensures
            out.fresh(limits, shared, false),
    {
        Self::start_configured(limits, shared, false)
    }

    /// A manager that accepts every offer.
    pub fn start_auto_accept(limits: TransferLimits, shared: FileTransferShared) -> (out: Self)
        requires
            limits.wf(),
        ensures
            out.fresh(limits, shared, true),
    {
        Self::start_configured(limits, shared, true)
    }

    /// Offers a local file to the other side.
    ///
    /// Only a regular file that is not too large is offered.
    pub fn handle_send_file(&mut self, meta: Option<FileMeta>, now: u64) -> (actions: Vec<FtAction>)
        requires
            old(self).wf(),
            old(self).next_transfer_id < u32::MAX,
        ensures
            final(self).wf(),
            final(self).same_setup(*old(self)),
            final(self).receiving == old(self).receiving,
            final(self).shared.pending_offers == old(self).shared.pending_offers,
            final(self).shared.accept_queue == old(self).shared.accept_queue,
            match meta {
                Some(m) if m.is_file && m.size <= old(self).limits.max_file_size => {
                    let id = old(self).next_transfer_id;
                    let name = match m.safe_name {
                        Some(n) => n@,
                        None => "file"@,
                    };
                    &&& final(self).next_transfer_id == id + 1
                    &&& final(self).sending@ == old(self).sending@.insert(
                        id,
                        final(self).sending@[id],
                    )
                    &&& final(self).sending@[id].last_acked_chunk == 0
                    &&& final(self).sending@[id].last_activity == now
                    &&& TransferInfo::started(
                        id,
                        name,
                        m.size,
                        old(self).limits.chunk_size,
                        TransferDirection::Send,
                        final(self).sending@[id].info,
                    )
                    &&& final(self).shared.entries@.len() == old(self).shared.entries@.len() + 1
                    &&& final(self).shared.entries@.drop_last() == old(self).shared.entries@
                    &&& is_new_entry(
                        final(self).shared.entries@.last(),
                        final(self).sending@[id].info,
                        now,
                    )
                    &&& actions@.len() == 1
                    &&& (actions@[0] matches FtAction::Send(
                        FtOutbound::FileOffer { transfer_id, file_size, file_name },
                    ) && transfer_id == id && file_size == m.size && file_name@ == name)
                },
                _ => {
                    &&& actions@.len() == 0
                    &&& *final(self) == *old(self)
                },
            },
    {
        let mut actions: Vec<FtAction> = Vec::new();
        match meta {
            None => {},
            Some(m) => {
                if m.is_file && m.size <= self.limits.max_file_size {
                    let file_name = match m.safe_name {
                        Some(n) => n,
                        None => "file".to_owned(),
                    };
                    let transfer_id: u32 = self.next_transfer_id;
                    self.next_transfer_id = transfer_id + 1;
                    let info = TransferInfo::start(
                        transfer_id,
                        file_name.clone(),
                        m.size,
                        self.limits.chunk_size,
                        TransferDirection::Send,
                    );
                    actions.push(
                        FtAction::Send(
                            FtOutbound::FileOffer { transfer_id, file_size: m.size, file_name },
                        ),
                    );
                    self.shared.push_entry(&info, now);
                    let _ = self.sending.insert(
                        transfer_id,
                        SendState { info, last_acked_chunk: 0, last_activity: now },
                    );
                }
            },
        }
        actions
    }

    /// Takes in an offer. One that waits for the user is refused at once where the
    /// file is too large.
    ///
    /// `safe_name` is the offered name once it is made safe.
    pub fn handle_offer_received(
        &mut self,
        transfer_id: u32,
        file_size: u64,
        safe_name: Option<String>,
        now: u64,
    ) -> (step: OfferStep)
        requires
            old(self).wf(),
        ensures
            final(self).wf(),
            final(self).same_setup(*old(self)),
            final(self).next_transfer_id == old(self).next_transfer_id,
            final(self).sending == old(self).sending,
            final(self).receiving == old(self).receiving,
            final(self).shared.entries == old(self).shared.entries,
            final(self).shared.accept_queue == old(self).shared.accept_queue,
            match step {
                OfferStep::Prepare => {
                    &&& old(self).auto_accept
                    &&& final(self).shared == old(self).shared
                },
                OfferStep::Actions(actions) => {
                    &&& !old(self).auto_accept
                    &&& file_size > old(self).limits.max_file_size ==> {
                        &&& final(self).shared == old(self).shared
                        &&& actions@ == seq![
                            FtAction::Send(FtOutbound::FileAccept { transfer_id, accepted: false }),
                        ]
                    }
                    &&& file_size <= old(self).limits.max_file_size ==> {
                        &&& actions@.len() == 0
                        &&& final(self).shared.pending_offers@.len()
                            == old(self).shared.pending_offers@.len() + 1
                        &&& final(self).shared.pending_offers@.drop_last()
                            == old(self).shared.pending_offers@
                        &&& final(self).shared.pending_offers@.last().transfer_id == transfer_id
                        &&& final(self).shared.pending_offers@.last().file_size == file_size
                        &&& final(self).shared.pending_offers@.last().received_at == now
                        &&& final(self).shared.pending_offers@.last().file_name@ == received_name(
                            safe_name,
                        )
                    }
                },
            },
    {
        if self.auto_accept {
            return OfferStep::Prepare;
        }
        let mut actions: Vec<FtAction> = Vec::new();
        if file_size > self.limits.max_file_size {
            actions.push(
                FtAction::Send(FtOutbound::FileAccept { transfer_id, accepted: false }),
            );
        } else {
            let file_name = match safe_name {
                Some(n) => n,
                None => "received_file".to_owned(),
            };
            self.shared.pending_offers.push(
                PendingOffer { transfer_id, file_name, file_size, received_at: now },
            );
            proof {
                assert(self.shared.pending_offers@.drop_last() == old(self).shared.pending_offers@);
            }
        }
        OfferStep::Actions(actions)
    }

    /// Takes up an offer once a file to receive into is there (`prepared`), or
    /// refuses it where there is none.
    pub fn accept_offer(
        &mut self,
        transfer_id: u32,
        file_size: u64,
        safe_name: Option<String>,
        prepared: bool,
        now: u64,
    ) -> (actions: Vec<FtAction>)
        requires
            old(self).wf(),
        ensures
            final(self).wf(),
            final(self).same_setup(*old(self)),
            final(self).next_transfer_id == old(self).next_transfer_id,
            final(self).sending == old(self).sending,
            final(self).shared.pending_offers == old(self).shared.pending_offers,
            final(self).shared.accept_queue == old(self).shared.accept_queue,
            actions@ == seq![
                FtAction::Send(FtOutbound::FileAccept { transfer_id, accepted: prepared }),
            ],
            !prepared ==> *final(self) == *old(self),
            prepared ==> {
                let state = final(self).receiving@[transfer_id];
                &&& final(self).receiving@ == old(self).receiving@.insert(transfer_id, state)
                &&& state.received() == Seq::<u8>::empty()
                &&& state.next_expected_chunk == 0
                &&& state.last_activity == now
                &&& TransferInfo::started(
                    transfer_id,
                    received_name(safe_name),
                    file_size,
                    old(self).limits.chunk_size,
                    TransferDirection::Receive,
                    state.info,
                )
                &&& final(self).shared.entries@.len() == old(self).shared.entries@.len() + 1
                &&& final(self).shared.entries@.drop_last() == old(self).shared.entries@
                &&& is_new_entry(final(self).shared.entries@.last(), state.info, now)
            },
    {
        let mut actions: Vec<FtAction> = Vec::new();
        if prepared {
            let file_name = match safe_name {
                Some(n) => n,
                None => "received_file".to_owned(),
            };
            let info = TransferInfo::start(
                transfer_id,
                file_name,
                file_size,
                self.limits.chunk_size,
                TransferDirection::Receive,
            );
            self.shared.push_entry(&info, now);
            let _ = self.receiving.insert(
                transfer_id,
                RecvState {
                    info,
                    hasher: Hasher::new(),
                    next_expected_chunk: 0,
                    last_activity: now,
                },
            );
        }
        actions.push(FtAction::Send(FtOutbound::FileAccept { transfer_id, accepted: prepared }));
        actions
    }

    /// That the answer to an offer was taken in.
    pub open spec fn answered(
        before: Self,
        after: Self,
        transfer_id: u32,
        accepted: bool,
        now: u64,
    ) -> bool {
        &&& after.wf()
        &&& after.same_setup(before)
        &&& after.next_transfer_id == before.next_transfer_id
        &&& after.receiving == before.receiving
        &&& after.shared.pending_offers == before.shared.pending_offers
        &&& after.shared.accept_queue == before.shared.accept_queue
        &&& ({
            let known = before.sending@.contains_key(transfer_id);
            let state = before.sending@[transfer_id];
            &&& !known ==> after == before
            &&& known && accepted ==> after.shared == before.shared
                && after.sending@ == before.sending@.insert(
                transfer_id,
                SendState {
                    info: TransferInfo { status: TransferStatus::Active, ..state.info },
                    last_activity: now,
                    ..state
                },
            )
            &&& known && !accepted ==> after.sending@ == before.sending@.remove(
                transfer_id,
            ) && after.shared.entries@ == updated_entries(
                before.shared.entries@,
                TransferInfo { status: TransferStatus::Cancelled, ..state.info },
                None,
            )
        })
    }

    /// Takes in the answer to an offer.
    pub fn handle_accept_received(&mut self, transfer_id: u32, accepted: bool, now: u64)
        requires
            old(self).wf(),
        ensures
            Self::answered(*old(self), *final(self), transfer_id, accepted, now),
    {
        if !self.sending.contains_key(&transfer_id) {
            return ;
        }
        match self.sending.remove(&transfer_id) {
            None => {},
            Some(state) => {
                let mut state = state;
                if accepted {
                    state.info.status = TransferStatus::Active;
                    state.last_activity = now;
                    let ghost updated = state;
                    let _ = self.sending.insert(transfer_id, state);
                    proof {
                        assert(self.sending@ =~= old(self).sending@.insert(transfer_id, updated));
                    }
                } else {
                    state.info.status = TransferStatus::Cancelled;
                    self.shared.update_entry(&state.info, None);
                }
            },
        }
    }

    /// That the other side's progress was taken in.
    pub open spec fn progressed(
        before: Self,
        after: Self,
        transfer_id: u32,
        chunks_received: u32,
        now: u64,
    ) -> bool {
        &&& after.wf()
        &&& after.same_setup(before)
        &&& after.next_transfer_id == before.next_transfer_id
        &&& after.receiving == before.receiving
        &&& after.shared == before.shared
        &&& after.sending@ == (if before.sending@.contains_key(transfer_id) {
            before.sending@.insert(
                transfer_id,
                SendState {
                    last_acked_chunk: chunks_received,
                    last_activity: now,
                    ..before.sending@[transfer_id]
                },
            )
        } else {
            before.sending@
        })
    }

    /// Takes in how far the other side has come.
    pub fn handle_progress_received(&mut self, transfer_id: u32, chunks_received: u32, now: u64)
        requires
            old(self).wf(),
        ensures
            Self::progressed(*old(self), *final(self), transfer_id, chunks_received, now),
    {
        match self.sending.remove(&transfer_id) {
            None => {
                proof {
                    assert(self.sending@ =~= old(self).sending@);
                }
            },
            Some(state) => {
                let mut state = state;
                state.last_acked_chunk = chunks_received;
                state.last_activity = now;
                let ghost updated = state;
                let _ = self.sending.insert(transfer_id, state);
                proof {
                    assert(self.sending@ =~= old(self).sending@.insert(transfer_id, updated));
                }
            },
        }
    }

    /// Whether a chunk is the next one of a file that is being received, and so to
    /// be written.
    pub fn wants_chunk(&self, transfer_id: u32, chunk_index: u32) -> (wanted: bool)
        requires
            self.wf(),
        ensures
            wanted == self.awaits(transfer_id, chunk_index),
    {
        match self.receiving.get(&transfer_id) {
            Some(state) => state.next_expected_chunk == chunk_index,
            None => false,
        }
    }

    pub open spec fn awaits(self, transfer_id: u32, chunk_index: u32) -> bool {
        self.receiving@.contains_key(transfer_id)
            && self.receiving@[transfer_id].next_expected_chunk == chunk_index
    }

    /// Takes in a chunk; `written` says that it was written to the partial file.
    ///
    /// A chunk out of turn changes nothing. One that could not be written ends the
    /// transfer.
    pub fn handle_chunk_received(
        &mut self,
        transfer_id: u32,
        chunk_index: u32,
        data: &[u8],
        written: bool,
        now: u64,
    ) -> (actions: Vec<FtAction>)
        requires
            old(self).wf(),
            old(self).awaits(transfer_id, chunk_index) ==> chunk_index < u32::MAX,
        ensures
            final(self).wf(),
            final(self).same_setup(*old(self)),
            final(self).next_transfer_id == old(self).next_transfer_id,
            final(self).sending == old(self).sending,
            final(self).shared.pending_offers == old(self).shared.pending_offers,
            final(self).shared.accept_queue == old(self).shared.accept_queue,
            !old(self).awaits(transfer_id, chunk_index) ==> *final(self) == *old(self)
                && actions@.len() == 0,
            old(self).awaits(transfer_id, chunk_index) && !written ==> {
                &&& final(self).receiving@ == old(self).receiving@.remove(transfer_id)
                &&& final(self).shared.entries@ == updated_entries(
                    old(self).shared.entries@,
                    TransferInfo {
                        status: TransferStatus::Failed,
                        ..old(self).receiving@[transfer_id].info
                    },
                    None,
                )
                &&& actions@ == seq![
                    FtAction::Send(FtOutbound::FileCancel { transfer_id }),
                    FtAction::RemovePart(transfer_id),
                ]
            },
            old(self).awaits(transfer_id, chunk_index) && written ==> {
                let before = old(self).receiving@[transfer_id];
                let after = final(self).receiving@[transfer_id];
                let count = (chunk_index + 1) as u32;
                &&& final(self).receiving@ == old(self).receiving@.insert(transfer_id, after)
                &&& after.received() == before.received() + data@
                &&& after.next_expected_chunk == count
                &&& after.last_activity == now
                &&& after.info == (TransferInfo { chunks_done: count, ..before.info })
                &&& final(self).shared.entries@ == updated_entries(
                    old(self).shared.entries@,
                    after.info,
                    None,
                )
                &&& actions@ == (if count % old(self).limits.progress_ack_interval == 0 || count
                    == before.info.chunks_total {
                    seq![
                        FtAction::Send(
                            FtOutbound::FileProgress { transfer_id, chunks_received: count },
                        ),
                    ]
                } else {
                    Seq::empty()
                })
            },
    {
        let mut actions: Vec<FtAction> = Vec::new();
        if !self.wants_chunk(transfer_id, chunk_index) {
            return actions;
        }
        match self.receiving.remove(&transfer_id) {
            None => {},
            Some(state) => {
                let mut state = state;
                if !written {
                    state.info.status = TransferStatus::Failed;
                    self.shared.update_entry(&state.info, None);
                    actions.push(FtAction::Send(FtOutbound::FileCancel { transfer_id }));
                    actions.push(FtAction::RemovePart(transfer_id));
                } else {
                    state.hasher.update(data);
                    state.next_expected_chunk = state.next_expected_chunk + 1;
                    state.info.chunks_done = state.next_expected_chunk;
                    state.last_activity = now;
                    self.shared.update_entry(&state.info, None);
                    if state.next_expected_chunk % self.limits.progress_ack_interval == 0
                        || state.next_expected_chunk == state.info.chunks_total {
                        actions.push(
                            FtAction::Send(
                                FtOutbound::FileProgress {
                                    transfer_id,
                                    chunks_received: state.next_expected_chunk,
                                },
                            ),
                        );
                    }
                    let ghost updated = state;
                    let _ = self.receiving.insert(transfer_id, state);
                    proof {
                        assert(self.receiving@ =~= old(self).receiving@.insert(
                            transfer_id,
                            updated,
                        ));
                    }
                }
            },
        }
        actions
    }

    /// That the end of a file was taken in.
    pub open spec fn completed(
        before: Self,
        after: Self,
        transfer_id: u32,
        expected_sha256: [u8; 32],
        now: u64,
        step: CompleteStep,
    ) -> bool {
        &&& after.wf()
        &&& after.same_setup(before)
        &&& after.next_transfer_id == before.next_transfer_id
        &&& after.sending == before.sending
        &&& after.shared.pending_offers == before.shared.pending_offers
        &&& after.shared.accept_queue == before.shared.accept_queue
        &&& after.receiving@ == before.receiving@.remove(transfer_id)
        &&& match step {
            CompleteStep::Unknown => {
                &&& !before.receiving@.contains_key(transfer_id)
                &&& after.shared == before.shared
            },
            CompleteStep::Mismatch(actions) => {
                &&& before.receiving@.contains_key(transfer_id)
                &&& sha256(before.receiving@[transfer_id].received()) != expected_sha256@
                &&& actions@ == seq![FtAction::RemovePart(transfer_id)]
                &&& after.shared.entries@ == updated_entries(
                    before.shared.entries@,
                    TransferInfo {
                        status: TransferStatus::Failed,
                        ..before.receiving@[transfer_id].info
                    },
                    Some(now),
                )
            },
            CompleteStep::Rename(arrived) => {
                &&& before.receiving@.contains_key(transfer_id)
                &&& sha256(before.receiving@[transfer_id].received()) == expected_sha256@
                &&& arrived.info == before.receiving@[transfer_id].info
                &&& after.shared == before.shared
            },
        }
    }

    /// Takes in the end of a file: it is kept only if the SHA-256 digest of all
    /// that was received is the announced one.
    pub fn handle_complete_received(
        &mut self,
        transfer_id: u32,
        expected_sha256: &[u8; 32],
        now: u64,
    ) -> (step: CompleteStep)
        requires
            old(self).wf(),
        ensures
            Self::completed(*old(self), *final(self), transfer_id, *expected_sha256, now, step),
    {
        match self.receiving.remove(&transfer_id) {
            None => CompleteStep::Unknown,
            Some(state) => {
                let RecvState { info, hasher, .. } = state;
                let computed = hasher.finish();
                if !crate::auth::constant_time_eq(&computed, expected_sha256) {
                    let mut info = info;
                    info.status = TransferStatus::Failed;
                    let mut actions: Vec<FtAction> = Vec::new();
                    actions.push(FtAction::RemovePart(transfer_id));
                    self.shared.update_entry(&info, Some(now));
                    CompleteStep::Mismatch(actions)
                } else {
                    CompleteStep::Rename(Arrived { info })
                }
            },
        }
    }

    /// Takes in whether a file that has arrived could be given its name.
    pub fn finish_receive(&mut self, arrived: Arrived, renamed: bool, now: u64) -> (actions: Vec<
        FtAction,
    >)
        requires
            old(self).wf(),
        ensures
            final(self).wf(),
            final(self).same_setup(*old(self)),
            final(self).next_transfer_id == old(self).next_transfer_id,
            final(self).sending == old(self).sending,
            final(self).receiving == old(self).receiving,
            final(self).shared.pending_offers == old(self).shared.pending_offers,
            final(self).shared.accept_queue == old(self).shared.accept_queue,
            final(self).shared.entries@ == updated_entries(
                old(self).shared.entries@,
                TransferInfo {
                    status: if renamed {
                        TransferStatus::Completed
                    } else {
                        TransferStatus::Failed
                    },
                    ..arrived.info
                },
                Some(now),
            ),
            actions@ == (if renamed {
                seq![
                    FtAction::SuppressEcho(arrived.info.transfer_id),
                    FtAction::OfferOnClipboard(arrived.info.transfer_id),
                ]
            } else {
                seq![FtAction::RemovePart(arrived.info.transfer_id)]
            }),
    {
        let mut actions: Vec<FtAction> = Vec::new();
        let mut info = arrived.info;
        if renamed {
            actions.push(FtAction::SuppressEcho(info.transfer_id));
            actions.push(FtAction::OfferOnClipboard(info.transfer_id));
            info.status = TransferStatus::Completed;
        } else {
            actions.push(FtAction::RemovePart(info.transfer_id));
            info.status = TransferStatus::Failed;
        }
        self.shared.update_entry(&info, Some(now));
        actions
    }

    /// That the other side's giving up was taken in.
    pub open spec fn cancelled(
        before: Self,
        after: Self,
        transfer_id: u32,
        actions: Seq<FtAction>,
    ) -> bool {
        &&& after.wf()
        &&& after.same_setup(before)
        &&& after.next_transfer_id == before.next_transfer_id
        &&& after.sending@ == before.sending@.remove(transfer_id)
        &&& after.receiving@ == before.receiving@.remove(transfer_id)
        &&& after.shared.accept_queue == before.shared.accept_queue
        &&& after.shared.pending_offers@ == before.shared.pending_offers@.filter(
            |o: PendingOffer| o.transfer_id != transfer_id,
        )
        &&& ({
            let sent = if before.sending@.contains_key(transfer_id) {
                updated_entries(
                    before.shared.entries@,
                    TransferInfo {
                        status: TransferStatus::Cancelled,
                        ..before.sending@[transfer_id].info
                    },
                    None,
                )
            } else {
                before.shared.entries@
            };
            if before.receiving@.contains_key(transfer_id) {
                &&& after.shared.entries@ == updated_entries(
                    sent,
                    TransferInfo {
                        status: TransferStatus::Cancelled,
                        ..before.receiving@[transfer_id].info
                    },
                    None,
                )
                &&& actions == seq![FtAction::RemovePart(transfer_id)]
            } else {
                &&& after.shared.entries@ == sent
                &&& actions.len() == 0
            }
        })
    }

    /// Takes in that the other side gives a transfer up.
    pub fn handle_cancel_received(&mut self, transfer_id: u32) -> (actions: Vec<FtAction>)
        requires
            old(self).wf(),
        ensures
            Self::cancelled(*old(self), *final(self), transfer_id, actions@),
    {
        let mut actions: Vec<FtAction> = Vec::new();
        match self.sending.remove(&transfer_id) {
            Some(state) => {
                let mut info = state.info;
                info.status = TransferStatus::Cancelled;
                self.shared.update_entry(&info, None);
            },
            None => {},
        }
        match self.receiving.remove(&transfer_id) {
            Some(state) => {
                let mut info = state.info;
                info.status = TransferStatus::Cancelled;
                self.shared.update_entry(&info, None);
                actions.push(FtAction::RemovePart(transfer_id));
            },
            None => {},
        }
        self.shared.drop_offers(transfer_id);
        actions
    }
}

/// The name that a received file gets.
pub open spec fn received_name(safe_name: Option<String>) -> Seq<char> {
    match safe_name {
        Some(n) => n@,
        None => "received_file"@,
    }
}

impl FileTransferShared {
    fn drop_offers(&mut self, transfer_id: u32)
        ensures
            final(self).pending_offers@ == old(self).pending_offers@.filter(
                |o: PendingOffer| o.transfer_id != transfer_id,
            ),
            final(self).entries == old(self).entries,
            final(self).accept_queue == old(self).accept_queue,
    {
        let ghost all = self.pending_offers@;
        let ghost keep = |o: PendingOffer| o.transfer_id != transfer_id;
        let mut i: usize = 0;
        let ghost mut seen: int = 0;
        proof {
            assert(all.subrange(0, 0).filter(keep) == Seq::<PendingOffer>::empty()) by {
                reveal(Seq::filter);
            }
            assert(all.subrange(0, all.len() as int) == all);
        }
        while i < self.pending_offers.len()
            invariant
                0 <= seen <= all.len(),
                i <= self.pending_offers@.len(),
                self.pending_offers@.len() - i == all.len() - seen,
                self.pending_offers@ == all.subrange(0, seen).filter(keep) + all.subrange(
                    seen,
                    all.len() as int,
                ),
                all.subrange(0, seen).filter(keep).len() == i,
                keep == (|o: PendingOffer| o.transfer_id != transfer_id),
                self.entries == old(self).entries,
                self.accept_queue == old(self).accept_queue,
                all == old(self).pending_offers@,
            decreases all.len() - seen,
        {
            proof {
                assert(self.pending_offers@[i as int] == all[seen]);
                assert(all.subrange(0, seen + 1).drop_last() == all.subrange(0, seen));
                assert(all.subrange(0, seen + 1).last() == all[seen]);
                reveal(Seq::filter);
            }
            if self.pending_offers[i].transfer_id == transfer_id {
                let _ = self.pending_offers.remove(i);
                proof {
                    assert(self.pending_offers@ == all.subrange(0, seen + 1).filter(keep)
                        + all.subrange(seen + 1, all.len() as int));
                }
            } else {
                i = i + 1;
                proof {
                    assert(self.pending_offers@ == all.subrange(0, seen + 1).filter(keep)
                        + all.subrange(seen + 1, all.len() as int));
                }
            }
            proof {
                seen = seen + 1;
            }
        }
        proof {
            assert(all.subrange(0, seen) == all);
            assert(self.pending_offers@ == all.filter(keep));
        }
    }
}

/// The bytes of chunk `index` of a file.
pub open spec fn chunk_of(file: Seq<u8>, chunk_size: nat, index: nat) -> Seq<u8> {
    let from = index * chunk_size;
    let to = from + chunk_size;
    file.subrange(
        from as int,
        if to <= file.len() {
            to as int
        } else {
            file.len() as int
        },
    )
}

/// The first `count` chunks of a file, one behind the other.
pub open spec fn joined_chunks(file: Seq<u8>, chunk_size: nat, count: nat) -> Seq<u8>
    decreases count,
{
    if count == 0 {
        Seq::empty()
    } else {
        joined_chunks(file, chunk_size, (count - 1) as nat) + chunk_of(
            file,
            chunk_size,
            (count - 1) as nat,
        )
    }
}

proof fn lemma_joined_prefix(file: Seq<u8>, chunk_size: nat, count: nat)
    requires
        chunk_size > 0,
        count > 0 ==> (count - 1) * chunk_size <= file.len(),
    ensures
        joined_chunks(file, chunk_size, count) == file.subrange(
            0,
            if count * chunk_size <= file.len() {
                (count * chunk_size) as int
            } else {
                file.len() as int
            },
        ),
    decreases count,
{
    if count > 0 {
        let before = (count - 1) as nat;
        assert(count * chunk_size == before * chunk_size + chunk_size) by (nonlinear_arith)
            requires
                count == before + 1,
        ;
        if before > 0 {
            assert((before - 1) * chunk_size <= before * chunk_size) by (nonlinear_arith)
                requires
                    chunk_size > 0,
            ;
        }
        lemma_joined_prefix(file, chunk_size, before);
        assert(0 <= before * chunk_size) by (nonlinear_arith);
        assert(joined_chunks(file, chunk_size, count) =~= file.subrange(
            0,
            if count * chunk_size <= file.len() {
                (count * chunk_size) as int
            } else {
                file.len() as int
            },
        ));
    } else {
        assert(0 * chunk_size == 0) by (nonlinear_arith);
        assert(joined_chunks(file, chunk_size, 0) =~= file.subrange(0, 0));
    }
}

/// The chunks of a file, in order, are the file: a receiver that takes in each of
/// them holds what the sender read, and computes the digest that the sender
/// announces.
pub proof fn chunks_make_up_the_file(file: Seq<u8>, chunk_size: u32)
    requires
        chunk_size > 0,
        file.len() <= u64::MAX,
        (file.len() + chunk_size - 1) / (chunk_size as int) <= u32::MAX,
    ensures
        joined_chunks(
            file,
            chunk_size as nat,
            chunk_count(file.len() as u64, chunk_size) as nat,
        ) == file,
        sha256(
            joined_chunks(
                file,
                chunk_size as nat,
                chunk_count(file.len() as u64, chunk_size) as nat,
            ),
        ) == sha256(file),
{
    let size = chunk_size as nat;
    let n = chunk_count(file.len() as u64, chunk_size) as nat;
    let len = file.len() as int;
    assert(n == (len + size - 1) / (size as int));
    assert(n * size >= len && (n > 0 ==> (n - 1) * size <= len)) by (nonlinear_arith)
        requires
            n == (len + size - 1) / (size as int),
            size > 0,
            len >= 0,
    ;
    lemma_joined_prefix(file, size, n);
    assert(file.subrange(0, len) =~= file);
}

/// The piece that [`FileTransferManager::next_chunk`] asks for is that chunk of the file.
pub proof fn requested_pieces_are_chunks(file: Seq<u8>, info: TransferInfo, request: ChunkRequest)
    requires
        info.chunk_size > 0,
        info.file_size == file.len(),
        request.offset == request.chunk_index * info.chunk_size,
        request.offset < info.file_size,
        request.len == (if info.file_size - request.offset < info.chunk_size {
            info.file_size - request.offset
        } else {
            info.chunk_size as int
        }),
    ensures
        file.subrange(request.offset as int, request.offset + request.len) == chunk_of(
            file,
            info.chunk_size as nat,
            request.chunk_index as nat,
        ),
{
}

/// That a list holds each number of a set once.
pub open spec fn lists(ids: Seq<u32>, numbers: Set<u32>) -> bool {
    ids.no_duplicates() && ids.to_set() == numbers
}

/// The numbers in a table, in the order in which it is walked.
fn numbers_of<T>(table: &HashMap<u32, T>) -> (ids: Vec<u32>)
    ensures
        lists(ids@, table@.dom()),
{
    let ghost keys = table.keys().remaining();
    let mut ids: Vec<u32> = Vec::new();
    for id in iter: table.keys()
        invariant
            iter.seq() == keys,
            ids@ == keys.unref().subrange(0, iter.index()),
    {
        ids.push(*id);
    }
    proof {
        assert(ids@ =~= keys.unref());
        assert forall|i: int, j: int| 0 <= i < j < ids@.len() implies ids@[i] != ids@[j] by {
            assert(keys[i] != keys[j]);
        }
    }
    ids
}

/// That `ids` are those of the first `k` numbers of `all` that are in `numbers`.
spec fn picked(all: Seq<u32>, k: int, numbers: Set<u32>, ids: Seq<u32>) -> bool {
    &&& ids.no_duplicates()
    &&& forall|id: u32| #[trigger]
        ids.contains(id) <==> numbers.contains(id) && all.subrange(0, k).contains(id)
}

proof fn lemma_picked(all: Seq<u32>, k: int, numbers: Set<u32>, ids: Seq<u32>)
    requires
        0 <= k < all.len(),
        all.no_duplicates(),
        picked(all, k, numbers, ids),
    ensures
        picked(all, k + 1, numbers, if numbers.contains(all[k]) {
            ids.push(all[k])
        } else {
            ids
        }),
{
    let before = all.subrange(0, k);
    let after = all.subrange(0, k + 1);
    let next = if numbers.contains(all[k]) {
        ids.push(all[k])
    } else {
        ids
    };
    assert(after =~= before.push(all[k]));
    assert(!before.contains(all[k]));
    assert forall|id: u32| after.contains(id) == (before.contains(id) || id == all[k]) by {
        if before.contains(id) {
            let i = before.index_of(id);
            assert(after[i] == id);
        }
        assert(after[k] == all[k]);
        if after.contains(id) && id != all[k] {
            let i = after.index_of(id);
            assert(before[i] == id);
        }
    }
    assert forall|id: u32| #[trigger] next.contains(id) <==> numbers.contains(id)
        && after.contains(id) by {
        if ids.contains(id) {
            let i = ids.index_of(id);
            assert(next[i] == id);
        }
        if numbers.contains(all[k]) {
            assert(next[ids.len() as int] == all[k]);
        }
        if next.contains(id) {
            let i = next.index_of(id);
            if i < ids.len() {
                assert(ids[i] == id);
            }
        }
    }
    assert(!ids.contains(all[k]));
    assert(next.no_duplicates());
}

proof fn lemma_all_picked(all: Seq<u32>, numbers: Set<u32>, ids: Seq<u32>)
    requires
        picked(all, all.len() as int, numbers, ids),
        numbers.subset_of(all.to_set()),
    ensures
        lists(ids, numbers),
{
    assert(all.subrange(0, all.len() as int) =~= all);
    assert(ids.to_set() =~= numbers) by {
        assert forall|id: u32| ids.to_set().contains(id) <==> numbers.contains(id) by {
            assert(ids.contains(id) <==> numbers.contains(id) && all.contains(id));
        }
    }
}

/// The files of a table that are being sent.
pub open spec fn active_numbers(sending: Map<u32, SendState>) -> Set<u32> {
    sending.dom().filter(|id: u32| sending[id].info.status == TransferStatus::Active)
}

impl FileTransferManager {
    /// That a chunk of the file may go out now, after `sent_this_tick` others.
    pub open spec fn may_send(self, transfer_id: u32, sent_this_tick: u32) -> bool {
        let state = self.sending@[transfer_id];
        &&& self.sending@.contains_key(transfer_id)
        &&& state.info.status == TransferStatus::Active
        &&& sent_this_tick < self.limits.chunks_per_tick
        &&& state.info.chunks_done < state.info.chunks_total
        &&& state.info.chunks_done < state.last_acked_chunk + self.limits.flow_control_window
    }

    /// The files that are being sent, which get a turn each, in some order.
    pub fn active_sends(&self) -> (ids: Vec<u32>)
        ensures
            lists(ids@, active_numbers(self.sending@)),
    {
        let all = numbers_of(&self.sending);
        let mut ids: Vec<u32> = Vec::new();
        let mut i: usize = 0;
        while i < all.len()
            invariant
                i <= all@.len(),
                lists(all@, self.sending@.dom()),
                picked(all@, i as int, active_numbers(self.sending@), ids@),
            decreases all@.len() - i,
        {
            let id: u32 = all[i];
            proof {
                assert(all@.to_set().contains(id));
                lemma_picked(all@, i as int, active_numbers(self.sending@), ids@);
            }
            if let Some(state) = self.sending.get(&id) {
                if let TransferStatus::Active = state.info.status {
                    ids.push(id);
                }
            }
            i = i + 1;
        }
        proof {
            lemma_all_picked(all@, active_numbers(self.sending@), ids@);
        }
        ids
    }

    /// The piece of a file that is to be read and sent next, where one may go out:
    /// no more than so many on one turn, and no more than a window ahead of what
    /// the other side has confirmed.
    pub fn next_chunk(&self, transfer_id: u32, sent_this_tick: u32) -> (request: Option<
        ChunkRequest,
    >)
        requires
            self.wf(),
        ensures
            match request {
                None => !self.may_send(transfer_id, sent_this_tick),
                Some(r) => {
                    let info = self.sending@[transfer_id].info;
                    &&& self.may_send(transfer_id, sent_this_tick)
                    &&& r.chunk_index == info.chunks_done
                    &&& r.offset == info.chunks_done * info.chunk_size
                    &&& r.offset < info.file_size
                    &&& r.len == (if info.file_size - r.offset < info.chunk_size {
                        info.file_size - r.offset
                    } else {
                        info.chunk_size as int
                    })
                },
            },
    {
        match self.sending.get(&transfer_id) {
            None => None,
            Some(state) => {
                let active = match state.info.status {
                    TransferStatus::Active => true,
                    _ => false,
                };
                if !active || sent_this_tick >= self.limits.chunks_per_tick
                    || state.info.chunks_done >= state.info.chunks_total
                    || state.info.chunks_done as u64 >= state.last_acked_chunk as u64
                    + self.limits.flow_control_window as u64 {
                    return None;
                }
                let ghost info = state.info;
                proof {
                    let ghost done = info.chunks_done as int;
                    let ghost size = info.chunk_size as int;
                    let ghost len = info.file_size as int;
                    assert(info.wf());
                    assert(done + 1 <= (len + size - 1) / size);
                    assert(done * size < len && 0 <= done * size) by (nonlinear_arith)
                        requires
                            done + 1 <= (len + size - 1) / size,
                            size > 0,
                            done >= 0,
                    ;
                }
                let chunk_index: u32 = state.info.chunks_done;
                let offset: u64 = chunk_index as u64 * state.info.chunk_size as u64;
                let remaining: u64 = state.info.file_size - offset;
                let len: u64 = if remaining < state.info.chunk_size as u64 {
                    remaining
                } else {
                    state.info.chunk_size as u64
                };
                Some(ChunkRequest { chunk_index, offset, len })
            },
        }
    }

    /// Takes in that the piece named by [`FileTransferManager::next_chunk`] has
    /// gone out.
    pub fn chunk_sent(&mut self, transfer_id: u32, now: u64)
        requires
            old(self).wf(),
            old(self).sending@.contains_key(transfer_id),
            old(self).sending@[transfer_id].info.chunks_done < old(
                self,
            ).sending@[transfer_id].info.chunks_total,
        ensures
            final(self).wf(),
            final(self).same_setup(*old(self)),
            final(self).next_transfer_id == old(self).next_transfer_id,
            final(self).receiving == old(self).receiving,
            final(self).shared == old(self).shared,
            ({
                let state = old(self).sending@[transfer_id];
                final(self).sending@ == old(self).sending@.insert(
                    transfer_id,
                    SendState {
                        info: TransferInfo {
                            chunks_done: (state.info.chunks_done + 1) as u32,
                            ..state.info
                        },
                        last_activity: now,
                        ..state
                    },
                )
            }),
    {
        match self.sending.remove(&transfer_id) {
            None => {},
            Some(state) => {
                let mut state = state;
                state.info.chunks_done = state.info.chunks_done + 1;
                state.last_activity = now;
                let ghost updated = state;
                let _ = self.sending.insert(transfer_id, state);
                proof {
                    assert(self.sending@ =~= old(self).sending@.insert(transfer_id, updated));
                }
            },
        }
    }

    fn set_send_status(
        &mut self,
        transfer_id: u32,
        status: TransferStatus,
        completed_at: Option<u64>,
    )
        requires
            old(self).wf(),
            old(self).sending@.contains_key(transfer_id),
        ensures
            final(self).wf(),
            final(self).same_setup(*old(self)),
            final(self).next_transfer_id == old(self).next_transfer_id,
            final(self).receiving == old(self).receiving,
            final(self).shared.pending_offers == old(self).shared.pending_offers,
            final(self).shared.accept_queue == old(self).shared.accept_queue,
            ({
                let state = old(self).sending@[transfer_id];
                let info = TransferInfo { status, ..state.info };
                &&& final(self).sending@ == old(self).sending@.insert(
                    transfer_id,
                    SendState { info, ..state },
                )
                &&& final(self).shared.entries@ == updated_entries(
                    old(self).shared.entries@,
                    info,
                    completed_at,
                )
            }),
    {
        match self.sending.remove(&transfer_id) {
            None => {},
            Some(state) => {
                let mut state = state;
                state.info.status = status;
                self.shared.update_entry(&state.info, completed_at);
                let ghost updated = state;
                let _ = self.sending.insert(transfer_id, state);
                proof {
                    assert(self.sending@ =~= old(self).sending@.insert(transfer_id, updated));
                }
            },
        }
    }

    /// Takes in that the piece to be sent could not be read.
    pub fn chunk_unreadable(&mut self, transfer_id: u32, now: u64) -> (actions: Vec<FtAction>)
        requires
            old(self).wf(),
            old(self).sending@.contains_key(transfer_id),
        ensures
            final(self).wf(),
            final(self).same_setup(*old(self)),
            final(self).next_transfer_id == old(self).next_transfer_id,
            final(self).receiving == old(self).receiving,
            final(self).shared.pending_offers == old(self).shared.pending_offers,
            final(self).shared.accept_queue == old(self).shared.accept_queue,
            ({
                let state = old(self).sending@[transfer_id];
                let info = TransferInfo { status: TransferStatus::Failed, ..state.info };
                &&& final(self).sending@ == old(self).sending@.insert(
                    transfer_id,
                    SendState { info, ..state },
                )
                &&& final(self).shared.entries@ == updated_entries(
                    old(self).shared.entries@,
                    info,
                    Some(now),
                )
            }),
            actions@ == seq![FtAction::Send(FtOutbound::FileCancel { transfer_id })],
    {
        self.set_send_status(transfer_id, TransferStatus::Failed, Some(now));
        let mut actions: Vec<FtAction> = Vec::new();
        actions.push(FtAction::Send(FtOutbound::FileCancel { transfer_id }));
        actions
    }

    /// Ends a file's turn: its entry is brought up to date, and `true` says that
    /// all chunks are out and the digest is to be computed.
    pub fn end_pump(&mut self, transfer_id: u32) -> (all_sent: bool)
        requires
            old(self).wf(),
            old(self).sending@.contains_key(transfer_id),
        ensures
            final(self).wf(),
            final(self).same_setup(*old(self)),
            final(self).next_transfer_id == old(self).next_transfer_id,
            final(self).sending == old(self).sending,
            final(self).receiving == old(self).receiving,
            final(self).shared.pending_offers == old(self).shared.pending_offers,
            final(self).shared.accept_queue == old(self).shared.accept_queue,
            final(self).shared.entries@ == updated_entries(
                old(self).shared.entries@,
                old(self).sending@[transfer_id].info,
                None,
            ),
            all_sent == (old(self).sending@[transfer_id].info.chunks_done == old(
                self,
            ).sending@[transfer_id].info.chunks_total && old(
                self,
            ).sending@[transfer_id].info.status == TransferStatus::Active),
    {
        match self.sending.get(&transfer_id) {
            None => false,
            Some(state) => {
                let info = &state.info;
                self.shared.update_entry(info, None);
                let active = match info.status {
                    TransferStatus::Active => true,
                    _ => false,
                };
                info.chunks_done == info.chunks_total && active
            },
        }
    }

    /// Announces the end of a file with its digest, or gives it up where the
    /// digest could not be computed.
    pub fn complete_send(&mut self, transfer_id: u32, digest: Option<[u8; 32]>, now: u64) -> (actions:
        Vec<FtAction>)
        requires
            old(self).wf(),
            old(self).sending@.contains_key(transfer_id),
        ensures
            final(self).wf(),
            final(self).same_setup(*old(self)),
            final(self).next_transfer_id == old(self).next_transfer_id,
            final(self).receiving == old(self).receiving,
            final(self).shared.pending_offers == old(self).shared.pending_offers,
            final(self).shared.accept_queue == old(self).shared.accept_queue,
            ({
                let state = old(self).sending@[transfer_id];
                let info = TransferInfo {
                    status: if digest is Some {
                        TransferStatus::Completed
                    } else {
                        TransferStatus::Failed
                    },
                    ..state.info
                };
                &&& final(self).sending@ == old(self).sending@.insert(
                    transfer_id,
                    SendState { info, ..state },
                )
                &&& final(self).shared.entries@ == updated_entries(
                    old(self).shared.entries@,
                    info,
                    Some(now),
                )
                &&& actions@ == (match digest {
                    Some(sha256) => seq![
                        FtAction::Send(
                            FtOutbound::FileComplete {
                                transfer_id,
                                total_chunks: state.info.chunks_total,
                                sha256,
                            },
                        ),
                    ],
                    None => Seq::empty(),
                })
            }),
    {
        let mut actions: Vec<FtAction> = Vec::new();
        match digest {
            Some(sha256) => {
                match self.sending.get(&transfer_id) {
                    Some(state) => {
                        let total_chunks: u32 = state.info.chunks_total;
                        actions.push(
                            FtAction::Send(
                                FtOutbound::FileComplete { transfer_id, total_chunks, sha256 },
                            ),
                        );
                    },
                    None => {},
                }
                self.set_send_status(transfer_id, TransferStatus::Completed, Some(now));
            },
            None => {
                self.set_send_status(transfer_id, TransferStatus::Failed, Some(now));
            },
        }
        actions
    }
}

/// What is left when some transfers are given up: the others, the entries, and what is to be
/// done.
pub ghost struct Sweep<T> {
    pub kept: Map<u32, T>,
    pub entries: Seq<TransferEntry>,
    pub actions: Seq<FtAction>,
}

pub open spec fn failed_info(info: TransferInfo) -> TransferInfo {
    TransferInfo { status: TransferStatus::Failed, ..info }
}

/// The sends of which nothing has been heard for the timeout.
pub open spec fn silent_sends(sending: Map<u32, SendState>, timeout: u64, now: u64) -> Set<u32> {
    sending.dom().filter(|id: u32| elapsed(now, sending[id].last_activity) >= timeout)
}

/// The sends after some of them are given up, in this order.
pub open spec fn swept_sends(
    sending: Map<u32, SendState>,
    ids: Seq<u32>,
    entries: Seq<TransferEntry>,
) -> Sweep<SendState>
    decreases ids.len(),
{
    if ids.len() == 0 {
        Sweep { kept: sending, entries, actions: Seq::empty() }
    } else {
        let before = swept_sends(sending, ids.drop_last(), entries);
        let id = ids.last();
        Sweep {
            kept: before.kept.remove(id),
            entries: updated_entries(before.entries, failed_info(sending[id].info), None),
            actions: before.actions.push(
                FtAction::Send(FtOutbound::FileCancel { transfer_id: id }),
            ),
        }
    }
}

/// The receives of which nothing has been heard for the timeout.
pub open spec fn silent_receives(receiving: Map<u32, RecvState>, timeout: u64, now: u64) -> Set<u32> {
    receiving.dom().filter(|id: u32| elapsed(now, receiving[id].last_activity) >= timeout)
}

/// The receives after some of them are given up, in this order.
pub open spec fn swept_receives(
    receiving: Map<u32, RecvState>,
    ids: Seq<u32>,
    entries: Seq<TransferEntry>,
) -> Sweep<RecvState>
    decreases ids.len(),
{
    if ids.len() == 0 {
        Sweep { kept: receiving, entries, actions: Seq::empty() }
    } else {
        let before = swept_receives(receiving, ids.drop_last(), entries);
        let id = ids.last();
        Sweep {
            kept: before.kept.remove(id),
            entries: updated_entries(before.entries, failed_info(receiving[id].info), None),
            actions: before.actions.push(FtAction::RemovePart(id)).push(
                FtAction::Send(FtOutbound::FileCancel { transfer_id: id }),
            ),
        }
    }
}

/// Of the sends, those that are given up are gone and the others are as they were.
proof fn lemma_swept_sends(
    sending: Map<u32, SendState>,
    ids: Seq<u32>,
    entries: Seq<TransferEntry>,
    id: u32,
)
    ensures
        ({
            let kept = swept_sends(sending, ids, entries).kept;
            &&& kept.contains_key(id) <==> sending.contains_key(id) && !ids.contains(id)
            &&& kept.contains_key(id) ==> kept[id] == sending[id]
        }),
    decreases ids.len(),
{
    if ids.len() > 0 {
        let before = ids.drop_last();
        lemma_swept_sends(sending, before, entries, id);
        if before.contains(id) {
            let i = before.index_of(id);
            assert(ids[i] == id);
        }
        assert(ids[ids.len() - 1] == ids.last());
        if ids.contains(id) && id != ids.last() {
            let i = ids.index_of(id);
            assert(before[i] == id);
        }
    }
}

/// Of the receives, those that are given up are gone and the others are as they were.
proof fn lemma_swept_receives(
    receiving: Map<u32, RecvState>,
    ids: Seq<u32>,
    entries: Seq<TransferEntry>,
    id: u32,
)
    ensures
        ({
            let kept = swept_receives(receiving, ids, entries).kept;
            &&& kept.contains_key(id) <==> receiving.contains_key(id) && !ids.contains(id)
            &&& kept.contains_key(id) ==> kept[id] == receiving[id]
        }),
    decreases ids.len(),
{
    if ids.len() > 0 {
        let before = ids.drop_last();
        lemma_swept_receives(receiving, before, entries, id);
        if before.contains(id) {
            let i = before.index_of(id);
            assert(ids[i] == id);
        }
        assert(ids[ids.len() - 1] == ids.last());
        if ids.contains(id) && id != ids.last() {
            let i = ids.index_of(id);
            assert(before[i] == id);
        }
    }
}

impl FileTransferManager {
    fn find_silent_sends(&self, now: u64) -> (ids: Vec<u32>)
        ensures
            lists(ids@, silent_sends(self.sending@, self.limits.timeout_nanos, now)),
    {
        let all = numbers_of(&self.sending);
        let timeout: u64 = self.limits.timeout_nanos;
        let ghost silent = silent_sends(self.sending@, timeout, now);
        let mut ids: Vec<u32> = Vec::new();
        let mut i: usize = 0;
        while i < all.len()
            invariant
                i <= all@.len(),
                lists(all@, self.sending@.dom()),
                silent == silent_sends(self.sending@, timeout, now),
                picked(all@, i as int, silent, ids@),
            decreases all@.len() - i,
        {
            let id: u32 = all[i];
            proof {
                assert(all@.to_set().contains(id));
                lemma_picked(all@, i as int, silent, ids@);
            }
            if let Some(state) = self.sending.get(&id) {
                if now.saturating_sub(state.last_activity) >= timeout {
                    ids.push(id);
                }
            }
            i = i + 1;
        }
        proof {
            lemma_all_picked(all@, silent, ids@);
        }
        ids
    }

    fn sweep_sends(&mut self, now: u64, actions: &mut Vec<FtAction>) -> (ids: Vec<u32>)
        requires
            old(self).wf(),
        ensures
            final(self).wf(),
            final(self).same_setup(*old(self)),
            final(self).next_transfer_id == old(self).next_transfer_id,
            final(self).receiving == old(self).receiving,
            final(self).shared.pending_offers == old(self).shared.pending_offers,
            final(self).shared.accept_queue == old(self).shared.accept_queue,
            lists(ids@, silent_sends(old(self).sending@, old(self).limits.timeout_nanos, now)),
            ({
                let sweep = swept_sends(old(self).sending@, ids@, old(self).shared.entries@);
                &&& final(self).sending@ == sweep.kept
                &&& final(self).shared.entries@ == sweep.entries
                &&& final(actions)@ == old(actions)@ + sweep.actions
            }),
    {
        let ids = self.find_silent_sends(now);
        let ghost table = self.sending@;
        let ghost entries = self.shared.entries@;
        let mut i: usize = 0;
        while i < ids.len()
            invariant
                i <= ids@.len(),
                table == old(self).sending@,
                entries == old(self).shared.entries@,
                lists(ids@, silent_sends(table, old(self).limits.timeout_nanos, now)),
                self.same_setup(*old(self)),
                self.next_transfer_id == old(self).next_transfer_id,
                self.receiving == old(self).receiving,
                self.shared.pending_offers == old(self).shared.pending_offers,
                self.shared.accept_queue == old(self).shared.accept_queue,
                ({
                    let sweep = swept_sends(table, ids@.subrange(0, i as int), entries);
                    &&& self.sending@ == sweep.kept
                    &&& self.shared.entries@ == sweep.entries
                    &&& actions@ == old(actions)@ + sweep.actions
                }),
            decreases ids@.len() - i,
        {
            let id: u32 = ids[i];
            let ghost before = ids@.subrange(0, i as int);
            proof {
                assert(ids@.subrange(0, i + 1).drop_last() =~= before);
                assert(!before.contains(id));
                assert(ids@.to_set().contains(id));
                lemma_swept_sends(table, before, entries, id);
            }
            if let Some(state) = self.sending.remove(&id) {
                let mut state = state;
                state.info.status = TransferStatus::Failed;
                self.shared.update_entry(&state.info, None);
                actions.push(FtAction::Send(FtOutbound::FileCancel { transfer_id: id }));
                proof {
                    let sweep = swept_sends(table, ids@.subrange(0, i + 1), entries);
                    assert(actions@ =~= old(actions)@ + sweep.actions);
                }
            }
            i = i + 1;
        }
        proof {
            assert(ids@.subrange(0, i as int) =~= ids@);
            assert forall|id: u32| self.sending@.contains_key(id) implies table.contains_key(id)
                && #[trigger] self.sending@[id] == table[id] by {
                lemma_swept_sends(table, ids@, entries, id);
            }
        }
        ids
    }

    fn find_silent_receives(&self, now: u64) -> (ids: Vec<u32>)
        ensures
            lists(ids@, silent_receives(self.receiving@, self.limits.timeout_nanos, now)),
    {
        let all = numbers_of(&self.receiving);
        let timeout: u64 = self.limits.timeout_nanos;
        let ghost silent = silent_receives(self.receiving@, timeout, now);
        let mut ids: Vec<u32> = Vec::new();
        let mut i: usize = 0;
        while i < all.len()
            invariant
                i <= all@.len(),
                lists(all@, self.receiving@.dom()),
                silent == silent_receives(self.receiving@, timeout, now),
                picked(all@, i as int, silent, ids@),
            decreases all@.len() - i,
        {
            let id: u32 = all[i];
            proof {
                assert(all@.to_set().contains(id));
                lemma_picked(all@, i as int, silent, ids@);
            }
            if let Some(state) = self.receiving.get(&id) {
                if now.saturating_sub(state.last_activity) >= timeout {
                    ids.push(id);
                }
            }
            i = i + 1;
        }
        proof {
            lemma_all_picked(all@, silent, ids@);
        }
        ids
    }

    fn sweep_receives(&mut self, now: u64, actions: &mut Vec<FtAction>) -> (ids: Vec<u32>)
        requires
            old(self).wf(),
        ensures
            final(self).wf(),
            final(self).same_setup(*old(self)),
            final(self).next_transfer_id == old(self).next_transfer_id,
            final(self).sending == old(self).sending,
            final(self).shared.pending_offers == old(self).shared.pending_offers,
            final(self).shared.accept_queue == old(self).shared.accept_queue,
            lists(ids@, silent_receives(old(self).receiving@, old(self).limits.timeout_nanos, now)),
            ({
                let sweep = swept_receives(old(self).receiving@, ids@, old(self).shared.entries@);
                &&& final(self).receiving@ == sweep.kept
                &&& final(self).shared.entries@ == sweep.entries
                &&& final(actions)@ == old(actions)@ + sweep.actions
            }),
    {
        let ids = self.find_silent_receives(now);
        let ghost table = self.receiving@;
        let ghost entries = self.shared.entries@;
        let mut i: usize = 0;
        while i < ids.len()
            invariant
                i <= ids@.len(),
                table == old(self).receiving@,
                entries == old(self).shared.entries@,
                lists(ids@, silent_receives(table, old(self).limits.timeout_nanos, now)),
                self.same_setup(*old(self)),
                self.next_transfer_id == old(self).next_transfer_id,
                self.sending == old(self).sending,
                self.shared.pending_offers == old(self).shared.pending_offers,
                self.shared.accept_queue == old(self).shared.accept_queue,
                ({
                    let sweep = swept_receives(table, ids@.subrange(0, i as int), entries);
                    &&& self.receiving@ == sweep.kept
                    &&& self.shared.entries@ == sweep.entries
                    &&& actions@ == old(actions)@ + sweep.actions
                }),
            decreases ids@.len() - i,
        {
            let id: u32 = ids[i];
            let ghost before = ids@.subrange(0, i as int);
            proof {
                assert(ids@.subrange(0, i + 1).drop_last() =~= before);
                assert(!before.contains(id));
                assert(ids@.to_set().contains(id));
                lemma_swept_receives(table, before, entries, id);
            }
            if let Some(state) = self.receiving.remove(&id) {
                let mut state = state;
                state.info.status = TransferStatus::Failed;
                self.shared.update_entry(&state.info, None);
                actions.push(FtAction::RemovePart(id));
                actions.push(FtAction::Send(FtOutbound::FileCancel { transfer_id: id }));
                proof {
                    let sweep = swept_receives(table, ids@.subrange(0, i + 1), entries);
                    assert(actions@ =~= old(actions)@ + sweep.actions);
                }
            }
            i = i + 1;
        }
        proof {
            assert(ids@.subrange(0, i as int) =~= ids@);
            assert forall|id: u32| self.receiving@.contains_key(id) implies table.contains_key(id)
                && #[trigger] self.receiving@[id] == table[id] by {
                lemma_swept_receives(table, ids@, entries, id);
            }
        }
        ids
    }

    /// That giving up these sends and then these receives, in order, leads from `before` to the
    /// transfers and the entries, by way of the actions.
    pub open spec fn gave_up(
        before: Self,
        sends: Seq<u32>,
        receives: Seq<u32>,
        sending: Map<u32, SendState>,
        receiving: Map<u32, RecvState>,
        entries: Seq<TransferEntry>,
        actions: Seq<FtAction>,
    ) -> bool {
        let first = swept_sends(before.sending@, sends, before.shared.entries@);
        let second = swept_receives(before.receiving@, receives, first.entries);
        &&& sending == first.kept
        &&& receiving == second.kept
        &&& entries == second.entries
        &&& actions == first.actions + second.actions
    }

    /// That every transfer of which nothing has been heard for the timeout is given up, sends
    /// first, in some order.
    pub open spec fn timed_out(
        before: Self,
        now: u64,
        sending: Map<u32, SendState>,
        receiving: Map<u32, RecvState>,
        entries: Seq<TransferEntry>,
        actions: Seq<FtAction>,
    ) -> bool {
        let timeout = before.limits.timeout_nanos;
        exists|sends: Seq<u32>, receives: Seq<u32>|
            {
                &&& lists(sends, silent_sends(before.sending@, timeout, now))
                &&& lists(receives, silent_receives(before.receiving@, timeout, now))
                &&& #[trigger] Self::gave_up(
                    before,
                    sends,
                    receives,
                    sending,
                    receiving,
                    entries,
                    actions,
                )
            }
    }

    /// Ends every transfer of which nothing has been heard for the timeout: sends
    /// first, then receives.
    pub fn check_timeouts(&mut self, now: u64) -> (actions: Vec<FtAction>)
        requires
            old(self).wf(),
        ensures
            final(self).wf(),
            final(self).same_setup(*old(self)),
            final(self).next_transfer_id == old(self).next_transfer_id,
            final(self).shared.pending_offers == old(self).shared.pending_offers,
            final(self).shared.accept_queue == old(self).shared.accept_queue,
            Self::timed_out(
                *old(self),
                now,
                final(self).sending@,
                final(self).receiving@,
                final(self).shared.entries@,
                actions@,
            ),
    {
        let mut actions: Vec<FtAction> = Vec::new();
        let sends = self.sweep_sends(now, &mut actions);
        let receives = self.sweep_receives(now, &mut actions);
        proof {
            let first = swept_sends(old(self).sending@, sends@, old(self).shared.entries@);
            let second = swept_receives(old(self).receiving@, receives@, first.entries);
            assert(actions@ =~= first.actions + second.actions);
            assert(Self::gave_up(
                *old(self),
                sends@,
                receives@,
                self.sending@,
                self.receiving@,
                self.shared.entries@,
                actions@,
            ));
        }
        actions
    }

    /// Ends all transfers: the partial files that are to be removed, in some order.
    pub fn stop(&mut self) -> (actions: Vec<FtAction>)
        requires
            old(self).wf(),
        ensures
            final(self).wf(),
            final(self).receiving@ == Map::<u32, RecvState>::empty(),
            final(self).same_setup(*old(self)),
            final(self).next_transfer_id == old(self).next_transfer_id,
            final(self).sending == old(self).sending,
            final(self).shared == old(self).shared,
            exists|ids: Seq<u32>|
                lists(ids, old(self).receiving@.dom()) && actions@ == #[trigger] removals(ids),
    {
        let ids = numbers_of(&self.receiving);
        let mut actions: Vec<FtAction> = Vec::new();
        let mut i: usize = 0;
        while i < ids.len()
            invariant
                i <= ids@.len(),
                actions@ == removals(ids@.subrange(0, i as int)),
            decreases ids@.len() - i,
        {
            actions.push(FtAction::RemovePart(ids[i]));
            i = i + 1;
            proof {
                assert(actions@ =~= removals(ids@.subrange(0, i as int)));
            }
        }
        self.receiving = HashMap::new();
        proof {
            assert(ids@.subrange(0, i as int) =~= ids@);
            assert(actions@ == removals(ids@));
        }
        actions
    }
}

/// The removal of the partial files of some transfers.
pub open spec fn removals(ids: Seq<u32>) -> Seq<FtAction> {
    Seq::new(ids.len(), |i: int| FtAction::RemovePart(ids[i]))
}

/// In whatever order silent sends are given up, one that has been heard of within the timeout
/// is left as it is, and one that has been silent for longer is gone.
pub proof fn timeouts_hit_silent_sends(
    sending: Map<u32, SendState>,
    ids: Seq<u32>,
    entries: Seq<TransferEntry>,
    timeout: u64,
    now: u64,
    id: u32,
)
    requires
        lists(ids, silent_sends(sending, timeout, now)),
    ensures
        ({
            let kept = swept_sends(sending, ids, entries).kept;
            &&& kept.contains_key(id) <==> sending.contains_key(id) && elapsed(
                now,
                sending[id].last_activity,
            ) < timeout
            &&& kept.contains_key(id) ==> kept[id] == sending[id]
        }),
{
    lemma_swept_sends(sending, ids, entries, id);
    assert(ids.contains(id) <==> ids.to_set().contains(id));
}

/// The other side is told of exactly the sends that are given up for silence.
pub proof fn silent_sends_are_cancelled(
    sending: Map<u32, SendState>,
    ids: Seq<u32>,
    entries: Seq<TransferEntry>,
    timeout: u64,
    now: u64,
    transfer_id: u32,
)
    requires
        lists(ids, silent_sends(sending, timeout, now)),
    ensures
        swept_sends(sending, ids, entries).actions.contains(
            FtAction::Send(FtOutbound::FileCancel { transfer_id }),
        ) <==> sending.contains_key(transfer_id) && elapsed(
            now,
            sending[transfer_id].last_activity,
        ) >= timeout,
{
    lemma_sends_told(sending, ids, entries, transfer_id);
    assert(ids.contains(transfer_id) <==> ids.to_set().contains(transfer_id));
}

proof fn lemma_sends_told(
    sending: Map<u32, SendState>,
    ids: Seq<u32>,
    entries: Seq<TransferEntry>,
    transfer_id: u32,
)
    ensures
        swept_sends(sending, ids, entries).actions.contains(
            FtAction::Send(FtOutbound::FileCancel { transfer_id }),
        ) <==> ids.contains(transfer_id),
    decreases ids.len(),
{
    if ids.len() > 0 {
        let before = ids.drop_last();
        let last = ids.last();
        lemma_sends_told(sending, before, entries, transfer_id);
        assert(ids =~= before.push(last));
        let a = swept_sends(sending, before, entries).actions;
        let b = swept_sends(sending, ids, entries).actions;
        let cancel = FtAction::Send(FtOutbound::FileCancel { transfer_id });
        let told = FtAction::Send(FtOutbound::FileCancel { transfer_id: last });
        assert(b == a.push(told));
        lemma_push_contains(a, told, cancel);
        lemma_push_contains(before, last, transfer_id);
    }
}

/// In whatever order silent receives are given up, one that has been heard of within the timeout
/// is left as it is, and one that has been silent for longer is gone.
pub proof fn timeouts_hit_silent_receives(
    receiving: Map<u32, RecvState>,
    ids: Seq<u32>,
    entries: Seq<TransferEntry>,
    timeout: u64,
    now: u64,
    id: u32,
)
    requires
        lists(ids, silent_receives(receiving, timeout, now)),
    ensures
        ({
            let kept = swept_receives(receiving, ids, entries).kept;
            &&& kept.contains_key(id) <==> receiving.contains_key(id) && elapsed(
                now,
                receiving[id].last_activity,
            ) < timeout
            &&& kept.contains_key(id) ==> kept[id] == receiving[id]
        }),
{
    lemma_swept_receives(receiving, ids, entries, id);
    assert(ids.contains(id) <==> ids.to_set().contains(id));
}

/// The other side is told of exactly the receives that are given up for silence, and exactly
/// their partial files are removed.
pub proof fn silent_receives_are_cancelled(
    receiving: Map<u32, RecvState>,
    ids: Seq<u32>,
    entries: Seq<TransferEntry>,
    timeout: u64,
    now: u64,
    transfer_id: u32,
)
    requires
        lists(ids, silent_receives(receiving, timeout, now)),
    ensures
        swept_receives(receiving, ids, entries).actions.contains(
            FtAction::Send(FtOutbound::FileCancel { transfer_id }),
        ) <==> receiving.contains_key(transfer_id) && elapsed(
            now,
            receiving[transfer_id].last_activity,
        ) >= timeout,
        swept_receives(receiving, ids, entries).actions.contains(
            FtAction::RemovePart(transfer_id),
        ) <==> receiving.contains_key(transfer_id) && elapsed(
            now,
            receiving[transfer_id].last_activity,
        ) >= timeout,
{
    lemma_receives_told(receiving, ids, entries, transfer_id);
    assert(ids.contains(transfer_id) <==> ids.to_set().contains(transfer_id));
}

proof fn lemma_receives_told(
    receiving: Map<u32, RecvState>,
    ids: Seq<u32>,
    entries: Seq<TransferEntry>,
    transfer_id: u32,
)
    ensures
        swept_receives(receiving, ids, entries).actions.contains(
            FtAction::Send(FtOutbound::FileCancel { transfer_id }),
        ) <==> ids.contains(transfer_id),
        swept_receives(receiving, ids, entries).actions.contains(
            FtAction::RemovePart(transfer_id),
        ) <==> ids.contains(transfer_id),
    decreases ids.len(),
{
    if ids.len() > 0 {
        let before = ids.drop_last();
        let last = ids.last();
        lemma_receives_told(receiving, before, entries, transfer_id);
        assert(ids =~= before.push(last));
        let a = swept_receives(receiving, before, entries).actions;
        let b = swept_receives(receiving, ids, entries).actions;
        let cancel = FtAction::Send(FtOutbound::FileCancel { transfer_id });
        let told = FtAction::Send(FtOutbound::FileCancel { transfer_id: last });
        let remove = FtAction::RemovePart(transfer_id);
        let mid = a.push(FtAction::RemovePart(last));
        assert(b == mid.push(told));
        lemma_push_contains(a, FtAction::RemovePart(last), cancel);
        lemma_push_contains(a, FtAction::RemovePart(last), remove);
        lemma_push_contains(mid, told, cancel);
        lemma_push_contains(mid, told, remove);
        lemma_push_contains(before, last, transfer_id);
    }
}

proof fn lemma_push_contains<T>(list: Seq<T>, last: T, item: T)
    ensures
        list.push(last).contains(item) <==> list.contains(item) || item == last,
{
    let more = list.push(last);
    if list.contains(item) {
        let i = list.index_of(item);
        assert(more[i] == item);
    }
    assert(more[list.len() as int] == last);
    if more.contains(item) && item != last {
        let i = more.index_of(item);
        assert(list[i] == item);
    }
}

/// That an entry has been over for so long that it is no longer shown.
pub open spec fn is_stale(entry: TransferEntry, now: u64) -> bool {
    &&& entry.status == TransferStatus::Completed || entry.status == TransferStatus::Cancelled
        || entry.status == TransferStatus::Failed
    &&& entry.completed_at matches Some(t) && elapsed(now, t) >= ENTRY_LIFE_NANOS
}

/// The entries that are still shown.
pub open spec fn still_shown(entries: Seq<TransferEntry>, now: u64) -> Seq<TransferEntry> {
    entries.filter(|e: TransferEntry| !is_stale(e, now))
}

/// How long an entry is shown after its transfer is over: ten seconds.
pub const ENTRY_LIFE_NANOS: u64 = 10_000_000_000;

impl FileTransferShared {
    /// Forgets the entries whose transfers have been over for long enough.
    pub fn prune(&mut self, now: u64)
        ensures
            final(self).entries@ == still_shown(old(self).entries@, now),
            final(self).pending_offers == old(self).pending_offers,
            final(self).accept_queue == old(self).accept_queue,
    {
        let ghost all = self.entries@;
        let ghost keep = |e: TransferEntry| !is_stale(e, now);
        let mut i: usize = 0;
        let ghost mut seen: int = 0;
        proof {
            assert(all.subrange(0, 0).filter(keep) == Seq::<TransferEntry>::empty()) by {
                reveal(Seq::filter);
            }
            assert(all.subrange(0, all.len() as int) == all);
        }
        while i < self.entries.len()
            invariant
                0 <= seen <= all.len(),
                i <= self.entries@.len(),
                self.entries@.len() - i == all.len() - seen,
                self.entries@ == all.subrange(0, seen).filter(keep) + all.subrange(
                    seen,
                    all.len() as int,
                ),
                all.subrange(0, seen).filter(keep).len() == i,
                keep == (|e: TransferEntry| !is_stale(e, now)),
                self.pending_offers == old(self).pending_offers,
                self.accept_queue == old(self).accept_queue,
                all == old(self).entries@,
            decreases all.len() - seen,
        {
            proof {
                assert(self.entries@[i as int] == all[seen]);
                assert(all.subrange(0, seen + 1).drop_last() == all.subrange(0, seen));
                assert(all.subrange(0, seen + 1).last() == all[seen]);
                reveal(Seq::filter);
            }
            let over = match self.entries[i].status {
                TransferStatus::Completed
                | TransferStatus::Cancelled
                | TransferStatus::Failed => true,
                _ => false,
            };
            let aged = match self.entries[i].completed_at {
                Some(t) => now.saturating_sub(t) >= ENTRY_LIFE_NANOS,
                None => false,
            };
            if over && aged {
                let _ = self.entries.remove(i);
            } else {
                i = i + 1;
            }
            proof {
                assert(self.entries@ == all.subrange(0, seen + 1).filter(keep) + all.subrange(
                    seen + 1,
                    all.len() as int,
                ));
                seen = seen + 1;
            }
        }
        proof {
            assert(all.subrange(0, seen) == all);
            assert(self.entries@ == all.filter(keep));
        }
    }
}

/// Where the first offer of a number stands; the length if nowhere.
pub open spec fn offer_index(offers: Seq<PendingOffer>, transfer_id: u32) -> nat
    decreases offers.len(),
{
    if offers.len() == 0 {
        0
    } else if offers[0].transfer_id == transfer_id {
        0
    } else {
        1 + offer_index(offers.subrange(1, offers.len() as int), transfer_id)
    }
}

proof fn lemma_offer_index(offers: Seq<PendingOffer>, transfer_id: u32, i: int)
    requires
        0 <= i <= offers.len(),
        forall|k: int| 0 <= k < i ==> (#[trigger] offers[k]).transfer_id != transfer_id,
        i < offers.len() ==> offers[i].transfer_id == transfer_id,
    ensures
        offer_index(offers, transfer_id) == i,
    decreases i,
{
    if i > 0 {
        let rest = offers.subrange(1, offers.len() as int);
        assert forall|k: int| 0 <= k < i - 1 implies (#[trigger] rest[k]).transfer_id
            != transfer_id by {
            assert(rest[k] == offers[k + 1]);
        }
        if i < offers.len() {
            assert(rest[i - 1] == offers[i]);
        }
        lemma_offer_index(rest, transfer_id, i - 1);
    }
}

/// What an offer to be taken up says.
pub open spec fn offer_view(o: OfferToAccept) -> (u32, u64, Seq<char>) {
    (o.transfer_id, o.file_size, o.file_name@)
}

pub open spec fn offer_views(v: Seq<OfferToAccept>) -> Seq<(u32, u64, Seq<char>)> {
    Seq::new(v.len(), |i: int| offer_view(v[i]))
}

/// The offers that a list of numbers picks, in the order of the list; a number
/// without an offer picks none.
pub open spec fn picked_offers(ids: Seq<u32>, offers: Seq<PendingOffer>) -> Seq<
    (u32, u64, Seq<char>),
>
    decreases ids.len(),
{
    if ids.len() == 0 {
        Seq::empty()
    } else {
        let before = picked_offers(ids.drop_last(), offers);
        let i = offer_index(offers, ids.last()) as int;
        if i < offers.len() {
            before.push((offers[i].transfer_id, offers[i].file_size, offers[i].file_name@))
        } else {
            before
        }
    }
}

/// The offers that no number of a list picks.
pub open spec fn offers_left(ids: Seq<u32>, offers: Seq<PendingOffer>) -> Seq<PendingOffer>
    decreases ids.len(),
{
    if ids.len() == 0 {
        offers
    } else {
        offers_left(ids.drop_last(), offers).filter(
            |o: PendingOffer| o.transfer_id != ids.last(),
        )
    }
}

impl FileTransferShared {
    /// Empties the queue of the offers that the user wants, and takes those offers
    /// out of the pending ones.
    pub fn drain_accept_queue(&mut self) -> (picked: Vec<OfferToAccept>)
        ensures
            offer_views(picked@) == picked_offers(
                old(self).accept_queue@,
                old(self).pending_offers@,
            ),
            final(self).pending_offers@ == offers_left(
                old(self).accept_queue@,
                old(self).pending_offers@,
            ),
            final(self).accept_queue@.len() == 0,
            final(self).entries == old(self).entries,
    {
        let mut ids: Vec<u32> = Vec::new();
        ids.append(&mut self.accept_queue);
        let ghost offers = self.pending_offers@;
        let mut picked: Vec<OfferToAccept> = Vec::new();
        let mut k: usize = 0;
        proof {
            assert(offer_views(picked@) == picked_offers(ids@.subrange(0, 0), offers));
        }
        while k < ids.len()
            invariant
                k <= ids@.len(),
                ids@ == old(self).accept_queue@,
                offers == old(self).pending_offers@,
                self.pending_offers@ == offers,
                self.accept_queue@.len() == 0,
                self.entries == old(self).entries,
                offer_views(picked@) == picked_offers(ids@.subrange(0, k as int), offers),
            decreases ids@.len() - k,
        {
            let id: u32 = ids[k];
            let mut i: usize = 0;
            while i < self.pending_offers.len() && self.pending_offers[i].transfer_id != id
                invariant
                    i <= offers.len(),
                    self.pending_offers@ == offers,
                    forall|j: int| 0 <= j < i ==> (#[trigger] offers[j]).transfer_id != id,
                decreases offers.len() - i,
            {
                i = i + 1;
            }
            let ghost before = offer_views(picked@);
            proof {
                lemma_offer_index(offers, id, i as int);
                assert(ids@.subrange(0, k + 1).drop_last() == ids@.subrange(0, k as int));
                assert(ids@.subrange(0, k + 1).last() == id);
            }
            if i < self.pending_offers.len() {
                picked.push(
                    OfferToAccept {
                        transfer_id: self.pending_offers[i].transfer_id,
                        file_size: self.pending_offers[i].file_size,
                        file_name: self.pending_offers[i].file_name.clone(),
                    },
                );
                proof {
                    assert(offer_views(picked@) == before.push(offer_view(picked@.last())));
                }
            }
            k = k + 1;
        }
        proof {
            assert(ids@.subrange(0, k as int) == ids@);
            assert(offers == offers_left(ids@.subrange(0, 0), offers));
        }
        let mut n: usize = 0;
        while n < ids.len()
            invariant
                n <= ids@.len(),
                ids@ == old(self).accept_queue@,
                offers == old(self).pending_offers@,
                self.pending_offers@ == offers_left(ids@.subrange(0, n as int), offers),
                self.accept_queue@.len() == 0,
                self.entries == old(self).entries,
            decreases ids@.len() - n,
        {
            self.drop_offers(ids[n]);
            proof {
                assert(ids@.subrange(0, n + 1).drop_last() == ids@.subrange(0, n as int));
                assert(ids@.subrange(0, n + 1).last() == ids@[n as int]);
            }
            n = n + 1;
        }
        proof {
            assert(ids@.subrange(0, n as int) == ids@);
        }
        picked
    }
}

} // verus!
