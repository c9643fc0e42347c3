use st_server::digest::{compute_file_sha256, FileDigest};
use st_server::file_clipboard::{
    drop_files, macos_clipboard_script, receive_dir, set_clipboard_file,
};
use st_server::file_manager::InboundStep;
use st_server::file_names::{part_path, unique_dest_path, DestStep};
use st_server::file_transfer::{
    new_shared_state, CompleteStep, FileMeta, FileTransferManager, FtAction, FtInbound,
    FtOutbound, OfferStep, TransferDirection, TransferLimits, TransferStatus, ENTRY_LIFE_NANOS,
};

const SEC: u64 = 1_000_000_000;

fn limits() -> TransferLimits {
    TransferLimits {
        max_file_size: 1000,
        chunk_size: 4,
        timeout_nanos: 30 * SEC,
        progress_ack_interval: 2,
        chunks_per_tick: 2,
        flow_control_window: 3,
    }
}

fn meta(size: u64) -> Option<FileMeta> {
    Some(FileMeta { is_file: true, size, safe_name: Some("a.txt".to_string()) })
}

#[test]
fn sha256_of_known_texts() {
    let hex = |d: [u8; 32]| d.iter().map(|b| format!("{b:02x}")).collect::<String>();
    assert_eq!(
        hex(compute_file_sha256(&vec![b"a".to_vec(), b"bc".to_vec()])),
        "ba7816bf8f01cfea414140de5dae2223b00361a396177a9cb410ff61f20015ad"
    );
    let mut digest = FileDigest::new();
    digest.push(b"");
    assert_eq!(
        hex(digest.finish()),
        "e3b0c44298fc1c149afbf4c8996fb92427ae41e4649b934ca495991b7852b855"
    );
}

#[test]
fn taken_names_get_a_number() {
    let next = |name: &str, tried: &[bool]| match unique_dest_path(name, &tried.to_vec()) {
        DestStep::Try(name) => format!("? {name}"),
        DestStep::Use(name) => name,
    };
    assert_eq!(next("photo.tar.gz", &[]), "? photo.tar.gz");
    assert_eq!(next("photo.tar.gz", &[false]), "photo.tar.gz");
    assert_eq!(next("photo.tar.gz", &[true, true]), "? photo.tar_2.gz");
    assert_eq!(next("photo.tar.gz", &[true, true, false]), "photo.tar_2.gz");
    assert_eq!(next("README", &[true, false, true, false]), "README_1");
    assert_eq!(next(".bashrc", &[true, true, true, false]), ".bashrc_3");
    assert_eq!(part_path("/tmp/photo.tar.gz"), "/tmp/photo.tar.gz.part");
    assert_eq!(part_path("/tmp/.bashrc"), "/tmp/.bashrc.part");
}

#[test]
fn files_are_received_where_the_user_says() {
    let d = receive_dir(Some("/x"), Some("/run"), Some("/t"));
    assert_eq!((d.base.as_str(), d.usual_below), ("/x", false));
    let d = receive_dir(None, Some("/run"), Some("/t"));
    assert_eq!((d.base.as_str(), d.usual_below), ("/run", true));
    let d = receive_dir(None, None, Some("/t"));
    assert_eq!((d.base.as_str(), d.usual_below), ("/t", true));
    let d = receive_dir(None, None, None);
    assert_eq!((d.base.as_str(), d.usual_below), ("/tmp", true));
}

#[test]
fn received_files_go_onto_the_clipboard() {
    let c = set_clipboard_file(true, "/tmp/a b");
    assert_eq!(c.program, "wl-copy");
    assert_eq!(c.args, vec!["--type", "text/uri-list"]);
    assert_eq!(c.input, "file:///tmp/a b\n");
    let c = set_clipboard_file(false, "/x");
    assert_eq!(c.program, "xclip");
    assert_eq!(c.args, vec!["-selection", "clipboard", "-target", "text/uri-list", "-i"]);
    assert_eq!(
        macos_clipboard_script("/x/y"),
        "set the clipboard to (POSIX file \"/x/y\")"
    );
}

#[test]
fn a_drop_list_holds_the_path_in_wide_characters() {
    let list = drop_files(&[0x0041, 0x4e16]);
    assert_eq!(
        list,
        vec![
            20, 0, 0, 0, 0, 0, 0, 0, 0, 0, 0, 0, 0, 0, 0, 0, 1, 0, 0, 0, 0x41, 0, 0x16, 0x4e, 0,
            0, 0, 0
        ]
    );
}

#[test]
fn a_file_is_offered_and_sent_in_chunks() {
    let file = b"0123456789".to_vec();
    let mut m = FileTransferManager::start_auto_accept(limits(), new_shared_state());
    let actions = m.handle_send_file(meta(10), 1);
    assert_eq!(actions.len(), 1);
    match &actions[0] {
        FtAction::Send(FtOutbound::FileOffer { transfer_id, file_size, file_name }) => {
            assert_eq!((*transfer_id, *file_size, file_name.as_str()), (1, 10, "a.txt"));
        }
        _ => panic!("an offer comes first"),
    }
    assert!(m.next_chunk(1, 0).is_none(), "nothing goes before it is accepted");
    let step = m.dispatch(FtInbound::AcceptReceived { transfer_id: 1, accepted: true }, 2);
    assert!(matches!(step, InboundStep::Done(_)));
    let mut sent = Vec::new();
    let first = m.next_chunk(1, 0).unwrap();
    assert_eq!((first.chunk_index, first.offset, first.len), (0, 0, 4));
    sent.extend_from_slice(&file[first.offset as usize..(first.offset + first.len) as usize]);
    m.chunk_sent(1, 3);
    let second = m.next_chunk(1, 1).unwrap();
    assert_eq!((second.chunk_index, second.offset, second.len), (1, 4, 4));
    sent.extend_from_slice(&file[second.offset as usize..(second.offset + second.len) as usize]);
    m.chunk_sent(1, 3);
    assert!(m.next_chunk(1, 2).is_none(), "only so many in one turn");
    assert!(!m.end_pump(1));
    let third = m.next_chunk(1, 0).unwrap();
    assert_eq!((third.chunk_index, third.offset, third.len), (2, 8, 2));
    sent.extend_from_slice(&file[third.offset as usize..(third.offset + third.len) as usize]);
    m.chunk_sent(1, 4);
    assert_eq!(sent, file);
    assert!(m.end_pump(1));
    let digest = compute_file_sha256(&vec![file]);
    let actions = m.complete_send(1, Some(digest), 5);
    assert!(matches!(
        actions[0],
        FtAction::Send(FtOutbound::FileComplete { transfer_id: 1, total_chunks: 3, sha256 })
            if sha256 == digest
    ));
    assert_eq!(m.shared.entries[0].status, TransferStatus::Completed);
}

#[test]
fn the_window_holds_the_sender_back() {
    let mut m = FileTransferManager::start(TransferLimits {
        chunks_per_tick: 100,
        flow_control_window: 2,
        ..limits()
    });
    m.handle_send_file(meta(40), 1);
    m.handle_accept_received(1, true, 1);
    m.chunk_sent(1, 1);
    m.chunk_sent(1, 1);
    assert!(m.next_chunk(1, 0).is_none());
    m.dispatch(FtInbound::ProgressReceived { transfer_id: 1, chunks_received: 1 }, 2);
    assert_eq!(m.next_chunk(1, 0).unwrap().chunk_index, 2);
}

#[test]
fn only_proper_files_are_offered() {
    let mut m = FileTransferManager::start(limits());
    assert!(m.handle_send_file(None, 0).is_empty());
    assert!(m.handle_send_file(meta(1001), 0).is_empty());
    let dir = Some(FileMeta { is_file: false, size: 1, safe_name: Some("d".to_string()) });
    assert!(m.handle_send_file(dir, 0).is_empty());
    assert_eq!(m.handle_send_file(meta(1000), 0).len(), 1);
}

fn receiving(m: &mut FileTransferManager, size: u64) {
    let step = m.dispatch(
        FtInbound::OfferReceived {
            transfer_id: 9,
            file_size: size,
            file_name: "x".to_string(),
        },
        0,
    );
    let name = match step {
        InboundStep::Offered { transfer_id: 9, file_name, .. } => file_name,
        _ => panic!("an offer"),
    };
    let step = m.handle_offer_received(9, size, Some(name.clone()), 0);
    assert!(matches!(step, OfferStep::Prepare));
    let actions = m.accept_offer(9, size, Some(name), true, 0);
    assert!(matches!(
        actions[0],
        FtAction::Send(FtOutbound::FileAccept { transfer_id: 9, accepted: true })
    ));
}

#[test]
fn a_file_is_received_and_checked() {
    let mut m = FileTransferManager::start_auto_accept(limits(), new_shared_state());
    receiving(&mut m, 6);
    // A chunk out of turn is dropped.
    let step =
        m.dispatch(FtInbound::ChunkReceived { transfer_id: 9, chunk_index: 1, data: vec![1] }, 1);
    assert!(matches!(step, InboundStep::Done(a) if a.is_empty()));
    let step = m.dispatch(
        FtInbound::ChunkReceived { transfer_id: 9, chunk_index: 0, data: b"abcd".to_vec() },
        1,
    );
    assert!(matches!(step, InboundStep::Write { chunk_index: 0, .. }));
    assert!(m.handle_chunk_received(9, 0, b"abcd", true, 1).is_empty());
    let actions = m.handle_chunk_received(9, 1, b"ef", true, 2);
    assert!(matches!(
        actions[0],
        FtAction::Send(FtOutbound::FileProgress { transfer_id: 9, chunks_received: 2 })
    ));
    let sha256 = compute_file_sha256(&vec![b"abcdef".to_vec()]);
    let step = m.dispatch(
        FtInbound::CompleteReceived { transfer_id: 9, total_chunks: 2, sha256 },
        3,
    );
    let arrived = match step {
        InboundStep::Completed(CompleteStep::Rename(arrived)) => arrived,
        _ => panic!("the digest is right"),
    };
    let actions = m.finish_receive(arrived, true, 3);
    assert_eq!(actions.len(), 2);
    assert!(matches!(actions[0], FtAction::SuppressEcho(9)));
    assert!(matches!(actions[1], FtAction::OfferOnClipboard(9)));
    assert_eq!(m.shared.entries[0].status, TransferStatus::Completed);
    assert_eq!(m.shared.entries[0].direction, TransferDirection::Receive);
    assert_eq!(m.shared.entries[0].transferred_bytes, 6);
}

#[test]
fn a_wrong_digest_fails_the_file() {
    let mut m = FileTransferManager::start_auto_accept(limits(), new_shared_state());
    receiving(&mut m, 4);
    m.handle_chunk_received(9, 0, b"abcd", true, 1);
    let step = m.dispatch(
        FtInbound::CompleteReceived { transfer_id: 9, total_chunks: 1, sha256: [0; 32] },
        2,
    );
    match step {
        InboundStep::Completed(CompleteStep::Mismatch(actions)) => {
            assert!(matches!(actions[0], FtAction::RemovePart(9)));
        }
        _ => panic!("the digest is wrong"),
    }
    assert_eq!(m.shared.entries[0].status, TransferStatus::Failed);
    let step = m.dispatch(
        FtInbound::CompleteReceived { transfer_id: 9, total_chunks: 1, sha256: [0; 32] },
        2,
    );
    assert!(matches!(step, InboundStep::Completed(CompleteStep::Unknown)));
}

#[test]
fn an_unwritable_chunk_ends_the_transfer() {
    let mut m = FileTransferManager::start_auto_accept(limits(), new_shared_state());
    receiving(&mut m, 4);
    let actions = m.handle_chunk_received(9, 0, b"abcd", false, 1);
    assert!(matches!(actions[0], FtAction::Send(FtOutbound::FileCancel { transfer_id: 9 })));
    assert!(matches!(actions[1], FtAction::RemovePart(9)));
    assert!(!m.wants_chunk(9, 0));
}

#[test]
fn offers_wait_for_the_user() {
    let mut m = FileTransferManager::start_full(limits(), new_shared_state());
    match m.handle_offer_received(3, 1001, Some("big".to_string()), 0) {
        OfferStep::Actions(actions) => assert!(matches!(
            actions[0],
            FtAction::Send(FtOutbound::FileAccept { transfer_id: 3, accepted: false })
        )),
        OfferStep::Prepare => panic!("too large"),
    }
    m.handle_offer_received(4, 10, None, 0);
    assert_eq!(m.shared.pending_offers[0].file_name, "received_file");
    m.shared.accept_queue.push(4);
    m.shared.accept_queue.push(77);
    let end = m.end_turn(true, 1);
    assert_eq!(end.offers.len(), 1);
    assert_eq!(end.offers[0].transfer_id, 4);
    assert!(end.pause.is_none());
    assert!(m.shared.pending_offers.is_empty());
    assert_eq!(m.end_turn(false, 1).pause, Some(10_000_000));
}

#[test]
fn silent_transfers_time_out() {
    let mut m = FileTransferManager::start_auto_accept(limits(), new_shared_state());
    receiving(&mut m, 4);
    assert!(m.end_turn(false, 30 * SEC - 1).actions.is_empty());
    let end = m.end_turn(false, 30 * SEC);
    assert_eq!(end.actions.len(), 2);
    assert_eq!(m.shared.entries[0].status, TransferStatus::Failed);
}

#[test]
fn ended_entries_go_after_a_while() {
    let mut m = FileTransferManager::start(limits());
    m.handle_send_file(meta(4), 0);
    m.handle_accept_received(1, true, 0);
    m.chunk_sent(1, 0);
    m.complete_send(1, None, SEC);
    m.shared.prune(SEC + ENTRY_LIFE_NANOS - 1);
    assert_eq!(m.shared.entries.len(), 1);
    m.shared.prune(SEC + ENTRY_LIFE_NANOS);
    assert!(m.shared.entries.is_empty());
}

#[test]
fn a_cancelled_transfer_is_forgotten() {
    let mut m = FileTransferManager::start_auto_accept(limits(), new_shared_state());
    receiving(&mut m, 4);
    match m.dispatch(FtInbound::CancelReceived { transfer_id: 9 }, 1) {
        InboundStep::Done(actions) => assert!(matches!(actions[0], FtAction::RemovePart(9))),
        _ => panic!("a cancellation is done at once"),
    }
    assert_eq!(m.shared.entries[0].status, TransferStatus::Cancelled);
    assert!(m.stop().is_empty());
    receiving(&mut m, 4);
    assert_eq!(m.stop().len(), 1);
    match m.dispatch(FtInbound::SendFile { path: "/x".to_string() }, 1) {
        InboundStep::LookUp(path) => assert_eq!(path, "/x"),
        _ => panic!("a file is looked up first"),
    }
}

#[test]
fn an_unreadable_file_is_given_up() {
    let mut m = FileTransferManager::start(limits());
    m.handle_send_file(meta(10), 0);
    m.handle_accept_received(1, true, 0);
    let actions = m.chunk_unreadable(1, 5);
    assert_eq!(actions.len(), 1);
    assert!(matches!(actions[0], FtAction::Send(FtOutbound::FileCancel { transfer_id: 1 })));
    assert_eq!(m.shared.entries[0].status, TransferStatus::Failed);
    assert_eq!(m.shared.entries[0].completed_at, Some(5));
    assert!(m.next_chunk(1, 0).is_none());
}

#[test]
fn a_file_goes_from_one_side_to_the_other() {
    let file: Vec<u8> = (0..23u8).collect();
    let mut sender = FileTransferManager::start(limits());
    let mut receiver = FileTransferManager::start_auto_accept(limits(), new_shared_state());
    sender.handle_send_file(meta(23), 0);
    let step = receiver.handle_offer_received(1, 23, Some("a.txt".to_string()), 0);
    assert!(matches!(step, OfferStep::Prepare));
    receiver.accept_offer(1, 23, Some("a.txt".to_string()), true, 0);
    sender.handle_accept_received(1, true, 0);
    let mut arrived = Vec::new();
    loop {
        let mut sent = 0;
        while let Some(piece) = sender.next_chunk(1, sent) {
            let data = file[piece.offset as usize..(piece.offset + piece.len) as usize].to_vec();
            sender.chunk_sent(1, 1);
            sent += 1;
            arrived.extend_from_slice(&data);
            for action in receiver.handle_chunk_received(1, piece.chunk_index, &data, true, 1) {
                if let FtAction::Send(FtOutbound::FileProgress { chunks_received, .. }) = action {
                    sender.handle_progress_received(1, chunks_received, 1);
                }
            }
        }
        if sender.end_pump(1) {
            break;
        }
    }
    assert_eq!(arrived, file);
    let digest = compute_file_sha256(&vec![file]);
    sender.complete_send(1, Some(digest), 2);
    let step = receiver.dispatch(
        FtInbound::CompleteReceived { transfer_id: 1, total_chunks: 6, sha256: digest },
        2,
    );
    match step {
        InboundStep::Completed(CompleteStep::Rename(arrived)) => {
            assert_eq!(arrived.info.chunks_done, 6);
            receiver.finish_receive(arrived, true, 3);
        }
        _ => panic!("the file is whole"),
    }
    assert_eq!(sender.shared.entries[0].status, TransferStatus::Completed);
    assert_eq!(receiver.shared.entries[0].status, TransferStatus::Completed);
}

#[test]
fn silent_sends_are_given_up() {
    let mut m = FileTransferManager::start(limits());
    m.handle_send_file(meta(10), 0);
    m.handle_send_file(meta(10), 0);
    m.handle_send_file(meta(10), 10 * SEC);
    assert!(m.active_sends().is_empty());
    m.handle_accept_received(2, true, 5 * SEC);
    m.handle_accept_received(3, true, 10 * SEC);
    let mut active = m.active_sends();
    active.sort();
    assert_eq!(active, [2, 3]);
    let actions = m.check_timeouts(30 * SEC);
    assert_eq!(actions.len(), 1);
    assert!(matches!(
        actions[0],
        FtAction::Send(FtOutbound::FileCancel { transfer_id: 1 })
    ));
    assert_eq!(m.sending.len(), 2);
    let mut cancelled: Vec<u32> = m
        .check_timeouts(40 * SEC)
        .iter()
        .map(|action| match action {
            FtAction::Send(FtOutbound::FileCancel { transfer_id }) => *transfer_id,
            _ => panic!("a send has no partial file"),
        })
        .collect();
    cancelled.sort();
    assert_eq!(cancelled, [2, 3]);
    assert!(m.sending.is_empty());
}

#[test]
fn names_are_split_as_paths_are() {
    let taken = |name: &str| match unique_dest_path(name, &vec![true, false]) {
        DestStep::Use(name) => name,
        DestStep::Try(_) => panic!("the second is free"),
    };
    for name in [
        "a.txt", "x.y/z", "x.y/z.tar.gz", "a/.", "a.b/./", "a.b//", "x/.hidden", "x/.hidden.gz", "z.",
        ".", "..", "x.y/..", "./", "/", "/.", "", "./a.b", "..a", "...", "a/...", "a..b", "/x.y",
        "\u{e9}.\u{fc}/\u{e4}.\u{f6}",
    ] {
        let path = std::path::Path::new(name);
        let stem = path.file_stem().and_then(|s| s.to_str()).unwrap_or(name);
        let expected = match path.extension().and_then(|s| s.to_str()) {
            Some(extension) => format!("{stem}_1.{extension}"),
            None => format!("{stem}_1"),
        };
        assert_eq!(taken(name), expected, "{name:?}");
        let extension = match path.extension().and_then(|s| s.to_str()) {
            Some(extension) => format!("{extension}.part"),
            None => "part".to_string(),
        };
        let mut part = path.to_path_buf();
        part.set_extension(extension);
        assert_eq!(part_path(name), part.to_str().unwrap(), "{name:?}");
    }
    assert_eq!(taken("x.y/z"), "z_1");
    assert_eq!(taken("a/."), "a_1");
    assert_eq!(taken(".."), ".._1");
    assert_eq!(part_path("x/"), "x.part");
    assert_eq!(part_path("x/.."), "x/..");
}
