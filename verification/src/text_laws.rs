//! What the operations on texts and documents do, told of them from the outside.

use vstd::prelude::*;
use crate::json::{Json, JsonTree};
use crate::startup::{get_screen_resolution, listen_addr};
use crate::text::{
    contains, decimal, decimal_string, is_white_space, join, joined, parse_unsigned,
    parsed_unsigned, split, split_parts, split_whitespace, starts_with, texts, to_ascii_lowercase,
    trim, trimmed, trimmed_end, words,
};
use crate::transport::{enabled_by_default, off_word};
use crate::warp::warp_detect_enabled;

verus! {

proof fn lemma_trimmed_end(s: Seq<char>)
    ensures
        trimmed_end(s).len() <= s.len(),
        trimmed_end(s) == s.subrange(0, trimmed_end(s).len() as int),
        trimmed_end(s).len() > 0 ==> !is_white_space(trimmed_end(s).last()),
        forall|i: int| trimmed_end(s).len() <= i < s.len() ==> is_white_space(#[trigger] s[i]),
    decreases s.len(),
{
    if s.len() > 0 && is_white_space(s.last()) {
        let rest = s.drop_last();
        lemma_trimmed_end(rest);
        let n = trimmed_end(s).len() as int;
        assert(s.subrange(0, n) =~= rest.subrange(0, n));
        assert forall|i: int| n <= i < s.len() implies is_white_space(#[trigger] s[i]) by {
            if i < rest.len() {
                assert(s[i] == rest[i]);
            }
        }
    } else {
        assert(s.subrange(0, s.len() as int) =~= s);
    }
}

/// That `out` is what stands in `s` from `at` on, with white space alone around it.
pub open spec fn is_core(s: Seq<char>, out: Seq<char>, at: int) -> bool {
    &&& 0 <= at
    &&& at + out.len() <= s.len()
    &&& out == s.subrange(at, at + out.len())
    &&& forall|i: int| 0 <= i < at ==> is_white_space(#[trigger] s[i])
    &&& forall|i: int| at + out.len() <= i < s.len() ==> is_white_space(#[trigger] s[i])
}

proof fn lemma_trimmed(s: Seq<char>)
    ensures
        exists|at: int| is_core(s, trimmed(s), at),
        trimmed(s).len() > 0 ==> !is_white_space(trimmed(s)[0]) && !is_white_space(
            trimmed(s).last(),
        ),
    decreases s.len(),
{
    if s.len() > 0 && is_white_space(s[0]) {
        let rest = s.subrange(1, s.len() as int);
        lemma_trimmed(rest);
        let at = choose|at: int| is_core(rest, trimmed(rest), at);
        let out = trimmed(s);
        assert(out =~= s.subrange(at + 1, at + 1 + out.len()));
        assert forall|i: int| 0 <= i < at + 1 implies is_white_space(#[trigger] s[i]) by {
            if i > 0 {
                assert(s[i] == rest[i - 1]);
            }
        }
        assert forall|i: int| at + 1 + out.len() <= i < s.len() implies is_white_space(
            #[trigger] s[i],
        ) by {
            assert(s[i] == rest[i - 1]);
        }
        assert(is_core(s, out, at + 1));
    } else {
        lemma_trimmed_end(s);
        assert(is_core(s, trimmed(s), 0));
        if trimmed(s).len() > 0 {
            assert(trimmed(s)[0] == s[0]);
        }
    }
}

/// Trimming takes away the white space at the two ends, all of it and nothing else.
pub proof fn trimming_takes_white_space(s: &str, out: String)
    requires
        call_ensures(trim, (s,), out),
    ensures
        exists|at: int| is_core(s@, out@, at),
        out@.len() > 0 ==> !is_white_space(out@[0]) && !is_white_space(out@.last()),
        is_white_space(' ') && is_white_space('\n') && is_white_space('\t') && is_white_space('\r'),
{
    lemma_trimmed(s@);
}

/// Lower case changes capital letters alone, each to its small one, and changes nothing twice.
pub proof fn lower_case_changes_capitals(s: &str, out: String, i: int)
    requires
        call_ensures(to_ascii_lowercase, (s,), out),
        0 <= i < s@.len(),
    ensures
        out@.len() == s@.len(),
        'A' <= s@[i] <= 'Z' ==> out@[i] as int == s@[i] as int + 32,
        !('A' <= s@[i] <= 'Z') ==> out@[i] == s@[i],
        !('A' <= out@[i] <= 'Z'),
{
    let c = s@[i] as int;
    if 65 <= c <= 90 {
        assert((c + 32) as char as int == c + 32);
    }
}

/// A part is found exactly where the text is something, the part, and something.
pub proof fn parts_are_found(s: &str, part: &str, found: bool, starts: bool, a: Seq<char>, b: Seq<char>)
    requires
        call_ensures(contains, (s, part), found),
        call_ensures(starts_with, (s, part), starts),
    ensures
        s@ == a + part@ + b ==> found,
        s@ == part@ + b ==> starts,
        found ==> exists|x: Seq<char>, y: Seq<char>| s@ == x + part@ + y,
        starts ==> s@.len() >= part@.len() && s@ == part@ + s@.subrange(
            part@.len() as int,
            s@.len() as int,
        ),
        starts ==> found,
{
    let p = part@;
    if s@ == a + p + b {
        assert(s@.subrange(a.len() as int, (a.len() + p.len()) as int) =~= p);
        assert(crate::text::stands_at(s@, p, a.len() as int));
    }
    if s@ == p + b {
        assert(s@.subrange(0, p.len() as int) =~= p);
    }
    if found {
        let at = choose|at: int| crate::text::stands_at(s@, p, at);
        let x = s@.subrange(0, at);
        let y = s@.subrange(at + p.len(), s@.len() as int);
        assert(s@ =~= x + s@.subrange(at, at + p.len()) + y);
    }
    if starts {
        assert(s@ =~= s@.subrange(0, p.len() as int) + s@.subrange(p.len() as int, s@.len() as int));
        assert(crate::text::stands_at(s@, p, 0));
    }
}

proof fn lemma_last_grows(parts: Seq<Seq<char>>, sep: Seq<char>, c: char)
    requires
        parts.len() > 0,
    ensures
        joined(parts.update(parts.len() - 1, parts.last().push(c)), sep) == joined(parts, sep).push(
            c,
        ),
{
    let more = parts.update(parts.len() - 1, parts.last().push(c));
    if parts.len() > 1 {
        assert(more.drop_last() =~= parts.drop_last());
        assert(joined(more, sep) =~= joined(parts, sep).push(c));
    } else {
        assert(joined(more, sep) =~= joined(parts, sep).push(c));
    }
}

proof fn lemma_split(s: Seq<char>, sep: char)
    ensures
        split_parts(s, sep).len() > 0,
        joined(split_parts(s, sep), seq![sep]) == s,
        forall|i: int|
            0 <= i < split_parts(s, sep).len() ==> !(#[trigger] split_parts(s, sep)[i]).contains(sep),
    decreases s.len(),
{
    let parts = split_parts(s, sep);
    if s.len() > 0 {
        let head = s.drop_last();
        lemma_split(head, sep);
        let before = split_parts(head, sep);
        if s.last() == sep {
            assert(parts.drop_last() =~= before);
            assert(joined(parts, seq![sep]) =~= s);
        } else {
            lemma_last_grows(before, seq![sep], s.last());
            assert(s =~= head.push(s.last()));
            assert forall|i: int| 0 <= i < parts.len() implies !(#[trigger] parts[i]).contains(
                sep,
            ) by {
                if i < before.len() - 1 {
                    assert(parts[i] == before[i]);
                } else {
                    let last = before.last();
                    assert(last == before[before.len() - 1]);
                    assert(parts[i] == last.push(s.last()));
                    if parts[i].contains(sep) {
                        let k = choose|k: int| 0 <= k < parts[i].len() && parts[i][k] == sep;
                        if k < last.len() {
                            assert(last[k] == sep);
                        }
                    }
                }
            }
        }
    } else {
        assert(joined(parts, seq![sep]) =~= s);
    }
}

/// The parts of a text hold no separator and make up the text again when they are joined by it.
pub proof fn parts_make_up_the_text(s: &str, sep: char, out: Vec<String>, with: &str, back: String, i: int)
    requires
        call_ensures(split, (s, sep), out),
        with@ == seq![sep],
        call_ensures(join, (&out, with), back),
        0 <= i < out@.len(),
    ensures
        back@ == s@,
        !out@[i]@.contains(sep),
        !s@.contains(sep) ==> out@.len() == 1,
{
    lemma_split(s@, sep);
    let t = texts(out@);
    assert(t[i] == out@[i]@);
    assert(t.len() == out@.len());
    if !s@.contains(sep) && out@.len() > 1 {
        let head = joined(t.drop_last(), seq![sep]);
        assert(s@[head.len() as int] == sep);
    }
}

/// Two texts are joined with the separator between them.
pub proof fn texts_are_joined(parts: &Vec<String>, sep: &str, out: String)
    requires
        call_ensures(join, (parts, sep), out),
    ensures
        parts@.len() == 0 ==> out@.len() == 0,
        parts@.len() == 1 ==> out@ == parts@[0]@,
        parts@.len() == 2 ==> out@ == parts@[0]@ + sep@ + parts@[1]@,
        parts@.len() == 3 ==> out@ == parts@[0]@ + sep@ + parts@[1]@ + sep@ + parts@[2]@,
{
    reveal_with_fuel(joined, 4);
    let t = texts(parts@);
    assert(t.len() == parts@.len());
    if parts@.len() == 2 {
        assert(t.drop_last()[0] == parts@[0]@);
    }
    if parts@.len() == 3 {
        assert(t.drop_last().drop_last()[0] == parts@[0]@);
        assert(t.drop_last().last() == parts@[1]@);
    }
}

/// The characters of some words, one behind the other.
pub open spec fn run_together(list: Seq<Seq<char>>) -> Seq<char>
    decreases list.len(),
{
    if list.len() == 0 {
        Seq::empty()
    } else {
        run_together(list.drop_last()) + list.last()
    }
}

proof fn lemma_words(s: Seq<char>)
    ensures
        forall|i: int| #![trigger words(s)[i]]
            0 <= i < words(s).len() ==> words(s)[i].len() > 0 && forall|k: int|
                0 <= k < words(s)[i].len() ==> !is_white_space(#[trigger] words(s)[i][k]),
        run_together(words(s)) == s.filter(|c: char| !is_white_space(c)),
        s.len() > 0 && !is_white_space(s.last()) ==> words(s).len() > 0,
    decreases s.len(),
{
    let shows = |c: char| !is_white_space(c);
    reveal(Seq::filter);
    if s.len() > 0 {
        let head = s.drop_last();
        lemma_words(head);
        let before = words(head);
        let all = words(s);
        if is_white_space(s.last()) {
        } else if s.len() == 1 || is_white_space(s[s.len() - 2]) {
            assert(all.drop_last() =~= before);
            assert(run_together(all) =~= s.filter(shows));
            assert forall|i: int| #![trigger all[i]] 0 <= i < all.len() implies all[i].len() > 0
                && forall|k: int| 0 <= k < all[i].len() ==> !is_white_space(#[trigger] all[i][k]) by {
                if i < before.len() {
                    assert(all[i] == before[i]);
                }
            }
        } else {
            assert(head.last() == s[s.len() - 2]);
            assert(all.drop_last() =~= before.drop_last());
            assert(all.last() == before.last().push(s.last()));
            assert(run_together(all) =~= run_together(before).push(s.last()));
            assert forall|i: int| #![trigger all[i]] 0 <= i < all.len() implies all[i].len() > 0
                && forall|k: int| 0 <= k < all[i].len() ==> !is_white_space(#[trigger] all[i][k]) by {
                if i < before.len() - 1 {
                    assert(all[i] == before[i]);
                } else {
                    let last = before[before.len() - 1];
                    assert(all[i] == last.push(s.last()));
                    assert forall|k: int| 0 <= k < all[i].len() implies !is_white_space(
                        #[trigger] all[i][k],
                    ) by {
                        if k < last.len() {
                            assert(all[i][k] == last[k]);
                        }
                    }
                }
            }
        }
    }
}

/// The words of a text have characters, none of them white space, and together they are all the
/// characters of the text that are not.
pub proof fn words_hold_what_shows(s: &str, out: Vec<String>, i: int, k: int)
    requires
        call_ensures(split_whitespace, (s,), out),
        0 <= i < out@.len(),
        0 <= k < out@[i]@.len(),
    ensures
        !is_white_space(out@[i]@[k]),
        run_together(texts(out@)) == s@.filter(|c: char| !is_white_space(c)),
{
    lemma_words(s@);
    let t = texts(out@);
    assert(t[i] == out@[i]@);
    assert(!is_white_space(t[i][k]));
}

/// A number that is written comes back, with a plus sign or without; nothing is read that is too
/// large or holds anything but digits.
pub proof fn numbers_come_back(
    n: u64,
    max: u64,
    written: String,
    s: &str,
    out: Option<u64>,
    i: int,
)
    requires
        call_ensures(decimal_string, (n,), written),
        call_ensures(parse_unsigned, (s, max), out),
    ensures
        s@ == written@ ==> (if n <= max {
            out == Some(n)
        } else {
            out is None
        }),
        s@ == seq!['+'] + written@ ==> (if n <= max {
            out == Some(n)
        } else {
            out is None
        }),
        out matches Some(m) ==> m <= max,
        0 <= i < s@.len() && !('0' <= s@[i] <= '9') && !(i == 0 && s@[0] == '+') ==> out is None,
        s@.len() == 0 ==> out is None,
{
    crate::text::decimal_reads_back(n as nat);
    let d = decimal(n as nat);
    assert(d[0] != '+') by {
        assert(crate::text::is_digit(d[0]));
    }
    if s@ == seq!['+'] + written@ {
        assert(s@.subrange(1, s@.len() as int) =~= d);
    }
    if 0 <= i < s@.len() && !('0' <= s@[i] <= '9') && !(i == 0 && s@[0] == '+') {
        let body = crate::text::unsigned_body(s@);
        if s@[0] == '+' {
            assert(body[i - 1] == s@[i]);
        } else {
            assert(body[i] == s@[i]);
        }
    }
}

/// The size of the screen is read from a line of its own, the width before the height.
pub proof fn sizes_are_read(stdout: &str, out: Option<(u32, u32)>)
    requires
        call_ensures(get_screen_resolution, (stdout,), out),
    ensures
        out matches Some((w, h)) ==> exists|i: int| #[trigger]
            says_size(split_parts(stdout@, '\n'), i, w, h),
{
    if let Some((w, h)) = out {
        lemma_size(split_parts(stdout@, '\n'), w, h);
    }
}

/// That line `i` tells a width and a height.
pub open spec fn says_size(lines: Seq<Seq<char>>, i: int, w: u32, h: u32) -> bool {
    let parts = words(trimmed(lines[i]));
    let sides = split_parts(parts[1], 'x');
    &&& 0 <= i < lines.len()
    &&& crate::text::stands_at(trimmed(lines[i]), "dimensions:"@, 0)
    &&& parts.len() >= 2
    &&& sides.len() == 2
    &&& parsed_unsigned(sides[0], 0xffff_ffff) == Some(w as nat)
    &&& parsed_unsigned(sides[1], 0xffff_ffff) == Some(h as nat)
}

proof fn lemma_size(lines: Seq<Seq<char>>, w: u32, h: u32)
    requires
        crate::startup::resolution_in(lines) == Some((w, h)),
    ensures
        exists|i: int| #[trigger] says_size(lines, i, w, h),
    decreases lines.len(),
{
    if crate::startup::line_resolution(lines[0]) is Some {
        assert(says_size(lines, 0, w, h));
    } else {
        let rest = lines.subrange(1, lines.len() as int);
        lemma_size(rest, w, h);
        let i = choose|i: int| #[trigger] says_size(rest, i, w, h);
        assert(rest[i] == lines[i + 1]);
        assert(says_size(lines, i + 1, w, h));
    }
}

/// The server listens on every address, on its port.
pub proof fn the_server_listens_on_its_port(port: u16, out: String)
    requires
        call_ensures(listen_addr, (port,), out),
    ensures
        out@ == "0.0.0.0:"@ + decimal(port as nat),
        parsed_unsigned(out@.subrange(8, out@.len() as int), 65535) == Some(port as nat),
{
    reveal_strlit("0.0.0.0:");
    assert("0.0.0.0:"@.len() == 8);
    assert(out@.subrange(8, out@.len() as int) =~= decimal(port as nat));
    crate::text::decimal_reads_back(port as nat);
}

/// An option that is on by default is on unless one of four words switches it off; the detector,
/// which is off, is off unless one of four switches it on.
pub proof fn options_are_switched_by_words(
    value: &str,
    off: bool,
    on: bool,
    unset: bool,
    detect: bool,
    plain: bool,
)
    requires
        call_ensures(off_word, (value,), off),
        call_ensures(enabled_by_default, (Some(value),), on),
        call_ensures(enabled_by_default, (None::<&str>,), unset),
        call_ensures(warp_detect_enabled, (Some(value),), detect),
        call_ensures(warp_detect_enabled, (None::<&str>,), plain),
    ensures
        off <==> value@ == "0"@ || value@ == "false"@ || value@ == "no"@ || value@ == "off"@,
        on == !off,
        unset,
        !plain,
        detect ==> !off,
{
    if off {
        reveal_strlit("0");
        reveal_strlit("false");
        reveal_strlit("no");
        reveal_strlit("off");
        reveal_strlit("1");
        reveal_strlit("true");
        reveal_strlit("yes");
        reveal_strlit("on");
        let v = value@;
        assert(!is_white_space(v[0]) && !is_white_space(v.last()));
        assert(trimmed(v) == v);
        let low = crate::text::lowered(v);
        assert(low.len() == v.len());
        assert(low =~= v) by {
            assert forall|i: int| 0 <= i < v.len() implies low[i] == v[i] by {}
        }
        assert(v[0] == '0' || v[0] == 'f' || v[0] == 'n' || (v[0] == 'o' && v[1] == 'f'));
        assert("1"@[0] == '1' && "true"@[0] == 't' && "yes"@[0] == 'y' && "on"@[0] == 'o'
            && "on"@[1] == 'n');
    }
}

/// A field of a document is the first entry of its name, and nothing in anything but an object.
pub proof fn fields_are_found(node: Json, name: &str, n: Option<u64>, yes: bool, k: int)
    requires
        call_ensures(Json::unsigned_field, (&node, name), n),
        call_ensures(Json::is_true, (&node, name), yes),
    ensures
        !(node is Object) ==> n is None && !yes,
        node matches Json::Object(entries) ==> 0 <= k < entries@.len() && entries@[k].0@ == name@ && (
        forall|j: int| 0 <= j < k ==> (#[trigger] entries@[j]).0@ != name@) ==> {
            &&& entries@[k].1 matches Json::Number(m) ==> n == m
            &&& !(entries@[k].1 is Number) ==> n is None
            &&& yes <==> entries@[k].1 == Json::Bool(true)
        },
{
    if let Json::Object(entries) = node {
        if 0 <= k < entries@.len() && entries@[k].0@ == name@ && (forall|j: int|
            0 <= j < k ==> (#[trigger] entries@[j]).0@ != name@) {
            let tree = node@->Object_0;
            assert(tree.len() == entries@.len());
            assert forall|j: int| 0 <= j < tree.len() implies tree[j] == (
                (#[trigger] entries@[j]).0@,
                entries@[j].1@,
            ) by {}
            assert forall|j: int| 0 <= j < k implies (#[trigger] tree[j]).0 != name@ by {
                assert(entries@[j].0@ != name@);
            }
            lemma_entry(tree, name@, k);
            assert(node@.field(name@) == entries@[k].1@);
        }
    }
}

proof fn lemma_entry(entries: Seq<(Seq<char>, JsonTree)>, name: Seq<char>, k: int)
    requires
        0 <= k < entries.len(),
        entries[k].0 == name,
        forall|j: int| 0 <= j < k ==> (#[trigger] entries[j]).0 != name,
    ensures
        crate::json::entry(entries, name) == entries[k].1,
    decreases k,
{
    if k > 0 {
        assert(entries[0].0 != name);
        let rest = entries.subrange(1, entries.len() as int);
        assert forall|j: int| 0 <= j < k - 1 implies (#[trigger] rest[j]).0 != name by {
            assert(rest[j] == entries[j + 1]);
        }
        lemma_entry(rest, name, k - 1);
    }
}

} // verus!
