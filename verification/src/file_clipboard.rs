//! Where received files go, and how one is put on the clipboard.

use vstd::prelude::*;
use crate::text::{concat2, concat3, texts};
use crate::transport::text_of;

verus! {

/// The directory that files are received into.
#[derive(Debug)]
pub struct ReceiveDir {
    pub base: String,
    /// That it is the usual directory under `base` and not `base` itself.
    pub usual_below: bool,
}

/// The directory that files are received into: what `ST_FILE_RECEIVE_DIR` says, and else the
/// usual one under the runtime directory, under the directory for temporary files where that
/// could be resolved, or under `/tmp`.
pub fn receive_dir(
    custom: Option<&str>,
    runtime_dir: Option<&str>,
    temp_dir: Option<&str>,
) -> (out: ReceiveDir)
    ensures
        match (text_of(custom), text_of(runtime_dir), text_of(temp_dir)) {
            (Some(dir), _, _) => out.base@ == dir && !out.usual_below,
            (None, Some(dir), _) => out.base@ == dir && out.usual_below,
            (None, None, Some(dir)) => out.base@ == dir && out.usual_below,
            (None, None, None) => out.base@ == "/tmp"@ && out.usual_below,
        },
{
    if let Some(dir) = custom {
        return ReceiveDir { base: dir.to_owned(), usual_below: false };
    }
    let base: &str = match runtime_dir {
        Some(dir) => dir,
        None => match temp_dir {
            Some(dir) => dir,
            None => "/tmp",
        },
    };
    ReceiveDir { base: base.to_owned(), usual_below: true }
}

/// A command and what it reads.
#[derive(Debug)]
pub struct ClipboardCommand {
    pub program: &'static str,
    pub args: Vec<String>,
    pub input: String,
}

/// What puts the file at a path on the clipboard of a Linux session.
pub fn set_clipboard_file(wayland: bool, path: &str) -> (out: ClipboardCommand)
    ensures
        out.program@ == (if wayland {
            "wl-copy"@
        } else {
            "xclip"@
        }),
        texts(out.args@) == (if wayland {
            seq!["--type"@, "text/uri-list"@]
        } else {
            seq!["-selection"@, "clipboard"@, "-target"@, "text/uri-list"@, "-i"@]
        }),
        out.input@ == "file://"@ + path@ + "\n"@,
{
    let input = concat3("file://", path, "\n");
    if wayland {
        let args: Vec<String> = vec!["--type".to_owned(), "text/uri-list".to_owned()];
        proof {
            assert(texts(args@) =~= seq!["--type"@, "text/uri-list"@]);
        }
        ClipboardCommand { program: "wl-copy", args, input }
    } else {
        let args: Vec<String> = vec![
            "-selection".to_owned(),
            "clipboard".to_owned(),
            "-target".to_owned(),
            "text/uri-list".to_owned(),
            "-i".to_owned(),
        ];
        proof {
            assert(texts(args@) =~= seq![
                "-selection"@,
                "clipboard"@,
                "-target"@,
                "text/uri-list"@,
                "-i"@,
            ]);
        }
        ClipboardCommand { program: "xclip", args, input }
    }
}

/// The script that puts the file at a path on the clipboard of macOS.
pub fn macos_clipboard_script(path: &str) -> (out: String)
    ensures
        out@ == "set the clipboard to (POSIX file \""@ + path@ + "\")"@,
{
    let mut out = concat2("set the clipboard to (POSIX file \"", path);
    out.append("\")");
    out
}

/// The two bytes of a character, the lower one first.
pub open spec fn wide_bytes(wide: Seq<u16>) -> Seq<u8> {
    Seq::new(
        2 * wide.len(),
        |i: int|
            if i % 2 == 0 {
                (wide[i / 2] % 256) as u8
            } else {
                (wide[i / 2] / 256) as u8
            },
    )
}

/// What says where the list begins, that it is at no place of the screen, and that its
/// characters are wide.
pub open spec fn drop_files_header() -> Seq<u8> {
    seq![20, 0, 0, 0, 0, 0, 0, 0, 0, 0, 0, 0, 0, 0, 0, 0, 1, 0, 0, 0]
}

/// A list with one file as Windows takes it from the clipboard: the header, the path, one
/// zero behind it and one behind the list.
pub fn drop_files(path: &[u16]) -> (out: Vec<u8>)
    ensures
        out@ == drop_files_header() + wide_bytes(path@) + seq![0u8, 0, 0, 0],
{
    let mut out: Vec<u8> = vec![
        20, 0, 0, 0, 0, 0, 0, 0, 0, 0, 0, 0, 0, 0, 0, 0, 1, 0, 0, 0,
    ];
    let ghost head = out@;
    proof {
        assert(head =~= drop_files_header());
        assert(out@ =~= head + wide_bytes(path@.subrange(0, 0)));
    }
    let mut i: usize = 0;
    while i < path.len()
        invariant
            i <= path@.len(),
            head == drop_files_header(),
            out@ == head + wide_bytes(path@.subrange(0, i as int)),
        decreases path@.len() - i,
    {
        let w: u16 = path[i];
        let ghost before = out@;
        out.push((w % 256) as u8);
        out.push((w / 256) as u8);
        proof {
            let ghost done = path@.subrange(0, i as int);
            let ghost next = path@.subrange(0, i + 1);
            assert(wide_bytes(next) =~= wide_bytes(done).push((w % 256) as u8).push(
                (w / 256) as u8,
            ));
            assert(out@ =~= head + wide_bytes(next));
        }
        i = i + 1;
    }
    proof {
        assert(path@.subrange(0, i as int) =~= path@);
    }
    let ghost all = out@;
    out.push(0);
    out.push(0);
    out.push(0);
    out.push(0);
    proof {
        assert(out@ =~= all + seq![0u8, 0, 0, 0]);
    }
    out
}

/// The characters of the path stand in the list where its header says that it begins.
pub proof fn path_stands_behind_the_header(path: Seq<u16>, i: int)
    requires
        0 <= i < path.len(),
    ensures
        ({
            let out = drop_files_header() + wide_bytes(path) + seq![0u8, 0, 0, 0];
            let at = out[0] + 2 * i;
            out[at] + 256 * out[at + 1] == path[i]
        }),
{
    let bytes = wide_bytes(path);
    assert((2 * i) / 2 == i && (2 * i + 1) / 2 == i);
    assert(bytes[2 * i] == (path[i] % 256) as u8);
    assert(bytes[2 * i + 1] == (path[i] / 256) as u8);
}

} // verus!
