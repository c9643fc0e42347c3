//! What the server finds out and says when it starts: the display server, the capture
//! and the encoder that it will use, and the beacon by which clients find it.

use vstd::prelude::*;
use crate::text::{
    concat2, concat3, decimal, decimal_string, join, joined, lowercase, parse_unsigned,
    parsed_unsigned, same_text, split, split_parts, split_whitespace, stands_at, starts_with,
    texts, to_lowercase, trim, trimmed, words,
};
use crate::transport::text_of;

verus! {

/// The display server: what `XDG_SESSION_TYPE` says in lower case, and else what the
/// display variables show.
pub fn display_server(session_type: Option<&str>, has_wayland: bool, has_x11: bool) -> (out: String)
    ensures
        out@ == (match text_of(session_type) {
            Some(t) => lowercase(t),
            None => if has_wayland {
                "wayland"@
            } else if has_x11 {
                "x11"@
            } else {
                "unknown"@
            },
        }),
{
    match session_type {
        Some(t) => to_lowercase(t),
        None => if has_wayland {
            "wayland".to_owned()
        } else if has_x11 {
            "x11".to_owned()
        } else {
            "unknown".to_owned()
        },
    }
}

/// What a probe of NvFBC found.
#[derive(Clone, Copy, Debug, PartialEq, Eq, Structural)]
pub struct NvfbcProbe {
    pub is_capture_possible: bool,
    pub can_create_now: bool,
}

/// What the probes of the capture backends found.
#[derive(Debug)]
pub struct CaptureProbes {
    pub x11: bool,
    pub wlr_screencopy: bool,
    pub pipewire: bool,
    /// `None` where NvFBC was not asked, which is so on everything but X11.
    pub nvfbc: Option<Result<NvfbcProbe, String>>,
}

impl CaptureProbes {
    pub open spec fn nvfbc_possible(self) -> bool {
        self.nvfbc matches Some(Ok(p)) && p.is_capture_possible
    }

    pub open spec fn nvfbc_now(self) -> bool {
        self.nvfbc matches Some(Ok(p)) && p.is_capture_possible && p.can_create_now
    }
}

/// The capture that `ST_CAPTURE` forces, by its value in lower case.
pub open spec fn forced_capture(forced: Seq<char>) -> Seq<char> {
    if forced == "kms"@ {
        "KMS (ST_CAPTURE override)"@
    } else if forced == "nvfbc"@ {
        "NvFBC (ST_CAPTURE override)"@
    } else if forced == "pipewire"@ || forced == "portal"@ {
        "PipeWire (ST_CAPTURE override)"@
    } else if forced == "wayland"@ {
        "Wayland screencopy (ST_CAPTURE override)"@
    } else if forced == "x11"@ {
        "X11 XShm (ST_CAPTURE override)"@
    } else if forced == "ext-image-copy"@ {
        "ext-image-copy-capture-v1 (ST_CAPTURE override)"@
    } else {
        "unknown ST_CAPTURE value"@
    }
}

/// The capture that the probes point to on a display server.
pub open spec fn probed_capture(server: Seq<char>, probes: CaptureProbes) -> Seq<char> {
    if server == "wayland"@ {
        if probes.wlr_screencopy {
            "Wayland (wlr-screencopy)"@
        } else if probes.pipewire {
            "PipeWire (xdg-desktop-portal)"@
        } else {
            "none available"@
        }
    } else if server == "x11"@ {
        if probes.nvfbc_now() {
            "NvFBC (NVIDIA)"@
        } else if probes.x11 {
            "X11 (XShm)"@
        } else {
            "none available"@
        }
    } else if probes.pipewire {
        "PipeWire (xdg-desktop-portal)"@
    } else {
        "none available"@
    }
}

/// The capture that a value of `ST_CAPTURE` in lower case forces.
pub fn forced_capture_label(forced: &str) -> (out: &'static str)
    ensures
        out@ == forced_capture(forced@),
{
    if same_text(forced, "kms") {
        "KMS (ST_CAPTURE override)"
    } else if same_text(forced, "nvfbc") {
        "NvFBC (ST_CAPTURE override)"
    } else if same_text(forced, "pipewire") || same_text(forced, "portal") {
        "PipeWire (ST_CAPTURE override)"
    } else if same_text(forced, "wayland") {
        "Wayland screencopy (ST_CAPTURE override)"
    } else if same_text(forced, "x11") {
        "X11 XShm (ST_CAPTURE override)"
    } else if same_text(forced, "ext-image-copy") {
        "ext-image-copy-capture-v1 (ST_CAPTURE override)"
    } else {
        "unknown ST_CAPTURE value"
    }
}

/// The capture that the probes point to on a display server.
pub fn probed_capture_label(server: &str, probes: &CaptureProbes) -> (out: &'static str)
    ensures
        out@ == probed_capture(server@, *probes),
{
    if same_text(server, "wayland") {
        if probes.wlr_screencopy {
            "Wayland (wlr-screencopy)"
        } else if probes.pipewire {
            "PipeWire (xdg-desktop-portal)"
        } else {
            "none available"
        }
    } else if same_text(server, "x11") {
        let now: bool = match &probes.nvfbc {
            Some(Ok(p)) => p.is_capture_possible && p.can_create_now,
            _ => false,
        };
        if now {
            "NvFBC (NVIDIA)"
        } else if probes.x11 {
            "X11 (XShm)"
        } else {
            "none available"
        }
    } else if probes.pipewire {
        "PipeWire (xdg-desktop-portal)"
    } else {
        "none available"
    }
}

/// The capture that the server will most likely use. What `ST_CAPTURE` asks for counts
/// before what the probes found.
pub fn selected_capture(capture: Option<&str>, server: &str, probes: &CaptureProbes) -> (out:
    &'static str)
    ensures
        out@ == (match text_of(capture) {
            Some(c) => forced_capture(lowercase(c)),
            None => probed_capture(server@, *probes),
        }),
{
    match capture {
        Some(c) => forced_capture_label(to_lowercase(c).as_str()),
        None => probed_capture_label(server, probes),
    }
}

/// `true` or `false` as a word.
pub open spec fn bool_word(b: bool) -> Seq<char> {
    if b {
        "true"@
    } else {
        "false"@
    }
}

fn bool_text(b: bool) -> (out: &'static str)
    ensures
        out@ == bool_word(b),
{
    if b {
        "true"
    } else {
        "false"
    }
}

/// What the log says of the capture backends.
pub fn capture_probe_line(probes: &CaptureProbes) -> (out: String)
    ensures
        out@ == "[probe] Capture backends: NvFBC="@ + bool_word(probes.nvfbc_possible())
            + ", X11="@ + bool_word(probes.x11) + ", wlr-screencopy="@ + bool_word(
            probes.wlr_screencopy,
        ) + ", PipeWire(portal)="@ + bool_word(probes.pipewire),
{
    let possible: bool = match &probes.nvfbc {
        Some(Ok(p)) => p.is_capture_possible,
        _ => false,
    };
    let mut out = concat3("[probe] Capture backends: NvFBC=", bool_text(possible), ", X11=");
    out.append(bool_text(probes.x11));
    out.append(", wlr-screencopy=");
    out.append(bool_text(probes.wlr_screencopy));
    out.append(", PipeWire(portal)=");
    out.append(bool_text(probes.pipewire));
    out
}

/// What the log says of NvFBC.
pub fn nvfbc_probe_line(probes: &CaptureProbes) -> (out: String)
    ensures
        out@ == (match probes.nvfbc {
            Some(Ok(p)) => "[probe] NvFBC: available (capture_possible="@ + bool_word(
                p.is_capture_possible,
            ) + ", can_create_now="@ + bool_word(p.can_create_now) + ")"@,
            Some(Err(e)) => "[probe] NvFBC: unavailable ("@ + e@ + ")"@,
            None => "[probe] NvFBC: unavailable (requires X11)"@,
        }),
{
    match &probes.nvfbc {
        Some(Ok(p)) => {
            let mut out = concat3(
                "[probe] NvFBC: available (capture_possible=",
                bool_text(p.is_capture_possible),
                ", can_create_now=",
            );
            out.append(bool_text(p.can_create_now));
            out.append(")");
            out
        },
        Some(Err(e)) => concat3("[probe] NvFBC: unavailable (", e.as_str(), ")"),
        None => "[probe] NvFBC: unavailable (requires X11)".to_owned(),
    }
}

/// The encoders that the start tries, in this order.
#[derive(Clone, Copy, Debug, PartialEq, Eq, Structural)]
pub enum ProbedEncoder {
    Vaapi,
    Nvenc,
    Software,
}

/// What the probe of the encoders does after some of them could not be opened.
#[derive(Debug, PartialEq, Eq)]
pub enum EncoderProbeStep {
    Try(ProbedEncoder),
    /// Nothing is left to try.
    Done,
}

/// The encoder to try once `failed` of them could not be opened.
pub fn next_probed_encoder(failed: usize) -> (step: EncoderProbeStep)
    ensures
        step == (if failed == 0 {
            EncoderProbeStep::Try(ProbedEncoder::Vaapi)
        } else if failed == 1 {
            EncoderProbeStep::Try(ProbedEncoder::Nvenc)
        } else if failed == 2 {
            EncoderProbeStep::Try(ProbedEncoder::Software)
        } else {
            EncoderProbeStep::Done
        }),
{
    if failed == 0 {
        EncoderProbeStep::Try(ProbedEncoder::Vaapi)
    } else if failed == 1 {
        EncoderProbeStep::Try(ProbedEncoder::Nvenc)
    } else if failed == 2 {
        EncoderProbeStep::Try(ProbedEncoder::Software)
    } else {
        EncoderProbeStep::Done
    }
}

/// What the log says of an encoder that was tried.
pub open spec fn encoder_line(encoder: ProbedEncoder, failure: Option<Seq<char>>) -> Seq<char> {
    match failure {
        None => match encoder {
            ProbedEncoder::Vaapi => "[probe] Encoder: VAAPI"@,
            ProbedEncoder::Nvenc => "[probe] Encoder: NVENC"@,
            ProbedEncoder::Software => "[probe] Encoder: Software"@,
        },
        Some(e) => match encoder {
            ProbedEncoder::Vaapi => "[probe] Encoder: VAAPI unavailable ("@ + e + ")"@,
            ProbedEncoder::Nvenc => "[probe] Encoder: NVENC unavailable ("@ + e + ")"@,
            ProbedEncoder::Software => "[probe] Encoder: NONE ("@ + e + ")"@,
        },
    }
}

/// What the log says of an encoder that was tried, with why it failed where it did.
pub fn encoder_probe_line(encoder: ProbedEncoder, failure: Option<&str>) -> (out: String)
    ensures
        out@ == encoder_line(encoder, text_of(failure)),
{
    match failure {
        None => match encoder {
            ProbedEncoder::Vaapi => "[probe] Encoder: VAAPI".to_owned(),
            ProbedEncoder::Nvenc => "[probe] Encoder: NVENC".to_owned(),
            ProbedEncoder::Software => "[probe] Encoder: Software".to_owned(),
        },
        Some(e) => match encoder {
            ProbedEncoder::Vaapi => concat3("[probe] Encoder: VAAPI unavailable (", e, ")"),
            ProbedEncoder::Nvenc => concat3("[probe] Encoder: NVENC unavailable (", e, ")"),
            ProbedEncoder::Software => concat3("[probe] Encoder: NONE (", e, ")"),
        },
    }
}

/// What one line of `xdpyinfo` says of the size of the screen: nothing, a size, or
/// something that cannot be read.
pub open spec fn line_resolution(line: Seq<char>) -> Option<Option<(u32, u32)>> {
    let line = trimmed(line);
    let parts = words(line);
    if stands_at(line, "dimensions:"@, 0) && parts.len() >= 2 {
        let dim = split_parts(parts[1], 'x');
        if dim.len() == 2 {
            match (
                parsed_unsigned(dim[0], u32::MAX as nat),
                parsed_unsigned(dim[1], u32::MAX as nat),
            ) {
                (Some(w), Some(h)) => Some(Some((w as u32, h as u32))),
                _ => Some(None),
            }
        } else {
            None
        }
    } else {
        None
    }
}

/// What the first line with a say says of the size of the screen.
pub open spec fn resolution_in(lines: Seq<Seq<char>>) -> Option<(u32, u32)>
    decreases lines.len(),
{
    if lines.len() == 0 {
        None
    } else {
        match line_resolution(lines[0]) {
            Some(out) => out,
            None => resolution_in(lines.subrange(1, lines.len() as int)),
        }
    }
}

fn read_line_resolution(line: &str) -> (out: Option<Option<(u32, u32)>>)
    ensures
        out == line_resolution(line@),
{
    let line = trim(line);
    if !starts_with(line.as_str(), "dimensions:") {
        return None;
    }
    let parts = split_whitespace(line.as_str());
    proof {
        assert(texts(parts@).len() == parts@.len());
    }
    if parts.len() < 2 {
        return None;
    }
    proof {
        assert(texts(parts@)[1] == parts@[1]@);
    }
    let dim = split(parts[1].as_str(), 'x');
    proof {
        assert(texts(dim@).len() == dim@.len());
    }
    if dim.len() != 2 {
        return None;
    }
    proof {
        assert(texts(dim@)[0] == dim@[0]@);
        assert(texts(dim@)[1] == dim@[1]@);
    }
    let w: u64 = match parse_unsigned(dim[0].as_str(), 0xffff_ffff) {
        Some(w) => w,
        None => {
            return Some(None);
        },
    };
    let h: u64 = match parse_unsigned(dim[1].as_str(), 0xffff_ffff) {
        Some(h) => h,
        None => {
            return Some(None);
        },
    };
    Some(Some((w as u32, h as u32)))
}

/// The size of the screen by what `xdpyinfo` printed.
pub fn get_screen_resolution(stdout: &str) -> (out: Option<(u32, u32)>)
    ensures
        out == resolution_in(split_parts(stdout@, '\n')),
{
    let lines = split(stdout, '\n');
    let ghost all = texts(lines@);
    let mut i: usize = 0;
    proof {
        assert(all.subrange(0, all.len() as int) == all);
    }
    while i < lines.len()
        invariant
            i <= lines@.len(),
            all == texts(lines@),
            all == split_parts(stdout@, '\n'),
            resolution_in(all) == resolution_in(all.subrange(i as int, all.len() as int)),
        decreases lines@.len() - i,
    {
        let ghost rest = all.subrange(i as int, all.len() as int);
        proof {
            assert(rest[0] == lines@[i as int]@);
            assert(rest.subrange(1, rest.len() as int) == all.subrange(i + 1, all.len() as int));
        }
        if let Some(out) = read_line_resolution(lines[i].as_str()) {
            return out;
        }
        i = i + 1;
    }
    None
}

/// The name that the server announces: the first of the variables that is set, else what
/// the file with the host's name holds, else a fixed one.
pub fn beacon_hostname(
    hostname: Option<&str>,
    computername: Option<&str>,
    host: Option<&str>,
    file: Option<&str>,
) -> (out: String)
    ensures
        out@ == (match (text_of(hostname), text_of(computername), text_of(host), text_of(file)) {
            (Some(n), _, _, _) => n,
            (None, Some(n), _, _) => n,
            (None, None, Some(n), _) => n,
            (None, None, None, Some(f)) => trimmed(f),
            (None, None, None, None) => "st-server"@,
        }),
{
    if let Some(n) = hostname {
        return n.to_owned();
    }
    if let Some(n) = computername {
        return n.to_owned();
    }
    if let Some(n) = host {
        return n.to_owned();
    }
    match file {
        Some(f) => trim(f),
        None => "st-server".to_owned(),
    }
}

/// The fields of the beacon, in order.
pub open spec fn beacon_fields(
    hostname: Seq<char>,
    port: u16,
    token: Seq<char>,
    peer_id: Seq<char>,
) -> Seq<Seq<char>> {
    seq!["ST_DISCOVER"@, hostname, decimal(port as nat), token, peer_id]
}

/// The packet by which the server announces itself: its fields, one on each line.
pub fn discovery_packet(hostname: &str, port: u16, token: &str, peer_id: &str) -> (out: String)
    ensures
        out@ == joined(beacon_fields(hostname@, port, token@, peer_id@), "\n"@),
{
    let parts: Vec<String> = vec![
        "ST_DISCOVER".to_owned(),
        hostname.to_owned(),
        decimal_string(port as u64),
        token.to_owned(),
        peer_id.to_owned(),
    ];
    proof {
        assert(texts(parts@) =~= beacon_fields(hostname@, port, token@, peer_id@));
    }
    join(&parts, "\n")
}

proof fn lemma_split_plain(s: Seq<char>, sep: char)
    requires
        !s.contains(sep),
    ensures
        split_parts(s, sep) == seq![s],
    decreases s.len(),
{
    if s.len() > 0 {
        let head = s.drop_last();
        assert(!head.contains(sep)) by {
            if head.contains(sep) {
                let k = choose|k: int| 0 <= k < head.len() && head[k] == sep;
                assert(s[k] == sep);
            }
        }
        assert(s.contains(s.last())) by {
            assert(s[s.len() - 1] == s.last());
        }
        lemma_split_plain(head, sep);
        assert(head.push(s.last()) == s);
        assert(split_parts(s, sep) =~= seq![s]);
    } else {
        assert(s == Seq::<char>::empty());
    }
}

proof fn lemma_split_tail(a: Seq<char>, b: Seq<char>, sep: char)
    requires
        !b.contains(sep),
    ensures
        split_parts(a + seq![sep] + b, sep) == split_parts(a, sep).push(b),
    decreases b.len(),
{
    let whole = a + seq![sep] + b;
    if b.len() == 0 {
        assert(whole.drop_last() == a);
        assert(whole.last() == sep);
        assert(b == Seq::<char>::empty());
    } else {
        let head = b.drop_last();
        assert(!head.contains(sep)) by {
            if head.contains(sep) {
                let k = choose|k: int| 0 <= k < head.len() && head[k] == sep;
                assert(b[k] == sep);
            }
        }
        assert(b.contains(b.last())) by {
            assert(b[b.len() - 1] == b.last());
        }
        lemma_split_tail(a, head, sep);
        assert(whole.drop_last() == a + seq![sep] + head);
        assert(whole.last() == b.last());
        let parts = split_parts(a, sep).push(head);
        assert(head.push(b.last()) == b);
        assert(parts.update(parts.len() - 1, parts.last().push(b.last())) =~= split_parts(
            a,
            sep,
        ).push(b));
    }
}

proof fn lemma_joined_splits(parts: Seq<Seq<char>>, sep: char)
    requires
        parts.len() > 0,
        forall|i: int| 0 <= i < parts.len() ==> !(#[trigger] parts[i]).contains(sep),
    ensures
        split_parts(joined(parts, seq![sep]), sep) == parts,
    decreases parts.len(),
{
    if parts.len() == 1 {
        lemma_split_plain(parts[0], sep);
        assert(parts =~= seq![parts[0]]);
    } else {
        lemma_joined_splits(parts.drop_last(), sep);
        lemma_split_tail(joined(parts.drop_last(), seq![sep]), parts.last(), sep);
        assert(parts.drop_last().push(parts.last()) =~= parts);
    }
}

proof fn lemma_decimal_plain(n: nat)
    ensures
        !decimal(n).contains('\n'),
{
    crate::text::decimal_reads_back(n);
    if decimal(n).contains('\n') {
        let k = choose|k: int| 0 <= k < decimal(n).len() && decimal(n)[k] == '\n';
        assert(crate::text::is_digit(decimal(n)[k]));
    }
}

/// A client that takes the lines of a beacon apart gets the fields back, as long as none
/// of them holds a line break.
pub proof fn beacon_reads_back(
    hostname: Seq<char>,
    port: u16,
    token: Seq<char>,
    peer_id: Seq<char>,
)
    requires
        !hostname.contains('\n'),
        !token.contains('\n'),
        !peer_id.contains('\n'),
    ensures
        split_parts(joined(beacon_fields(hostname, port, token, peer_id), "\n"@), '\n')
            == beacon_fields(hostname, port, token, peer_id),
        parsed_unsigned(beacon_fields(hostname, port, token, peer_id)[2], u16::MAX as nat) == Some(
            port as nat,
        ),
{
    let fields = beacon_fields(hostname, port, token, peer_id);
    reveal_strlit("\n");
    reveal_strlit("ST_DISCOVER");
    assert("\n"@ =~= seq!['\n']);
    lemma_decimal_plain(port as nat);
    crate::text::decimal_reads_back(port as nat);
    assert(!"ST_DISCOVER"@.contains('\n'));
    assert forall|i: int| 0 <= i < fields.len() implies !(#[trigger] fields[i]).contains('\n') by {
        assert(i == 0 || i == 1 || i == 2 || i == 3 || i == 4);
    }
    lemma_joined_splits(fields, '\n');
}

/// `s` without the slashes at its end.
pub open spec fn without_end_slashes(s: Seq<char>) -> Seq<char>
    decreases s.len(),
{
    if s.len() > 0 && s.last() == '/' {
        without_end_slashes(s.drop_last())
    } else {
        s
    }
}

/// Where the server registers: what `ST_API_URL` says, or the public service, without
/// slashes at the end.
pub fn api_url(value: Option<&str>) -> (out: String)
    ensures
        out@ == without_end_slashes(
            match text_of(value) {
                Some(v) => v,
                None => "https://st-api.kubemaxx.io"@,
            },
        ),
{
    let url: &str = match value {
        Some(v) => v,
        None => "https://st-api.kubemaxx.io",
    };
    let chars = crate::text::chars_of(url);
    let mut to: usize = chars.len();
    proof {
        assert(chars@.subrange(0, to as int) == chars@);
    }
    while to > 0 && chars[to - 1] == '/'
        invariant
            to <= chars@.len(),
            without_end_slashes(chars@) == without_end_slashes(chars@.subrange(0, to as int)),
        decreases to,
    {
        proof {
            assert(chars@.subrange(0, to as int).last() == chars@[to - 1]);
            assert(chars@.subrange(0, to as int).drop_last() == chars@.subrange(0, to - 1));
        }
        to = to - 1;
    }
    proof {
        if to > 0 {
            assert(chars@.subrange(0, to as int).last() == chars@[to - 1]);
        }
    }
    crate::text::string_of(chars.as_slice(), 0, to)
}

/// The address that the server listens on, as text.
pub fn listen_addr(port: u16) -> (out: String)
    ensures
        out@ == "0.0.0.0:"@ + decimal(port as nat),
{
    concat2("0.0.0.0:", decimal_string(port as u64).as_str())
}

} // verus!
