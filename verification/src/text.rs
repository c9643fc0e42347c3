//! Text operations: decimal numbers, trimming, splitting, searching, joining.

use vstd::prelude::*;

verus! {

/// `String::push`: the character is appended to the text.
pub assume_specification[ String::push ](s: &mut String, c: char)
    ensures
        final(s)@ == old(s)@.push(c),
;

/// The decimal digit of `d`, for `d` below ten.
pub open spec fn digit_char(d: nat) -> char {
    (48 + d) as char
}

/// The decimal notation of `n`, without leading zeros.
pub open spec fn decimal(n: nat) -> Seq<char>
    decreases n,
{
    if n < 10 {
        seq![digit_char(n)]
    } else {
        decimal(n / 10).push(digit_char(n % 10))
    }
}

/// Writes `n` in decimal.
pub fn decimal_string(n: u64) -> (out: String)
    ensures
        out@ == decimal(n as nat),
    decreases n,
{
    let low: u8 = (n % 10) as u8;
    let c: char = (48 + low) as char;
    if n < 10 {
        let mut out = String::new();
        out.push(c);
        out
    } else {
        let mut out = decimal_string(n / 10);
        out.push(c);
        out
    }
}

/// Reading back a number that was written in decimal gives the number.
pub proof fn decimal_reads_back(n: nat)
    ensures
        all_digits(decimal(n)),
        decimal(n).len() > 0,
        digits_value(decimal(n)) == n,
        parsed_unsigned(decimal(n), n) == Some(n),
    decreases n,
{
    reveal_with_fuel(digits_value, 2);
    if n < 10 {
        assert(decimal(n).drop_last() == Seq::<char>::empty());
        assert(decimal(n).last() as int == 48 + n);
    } else {
        decimal_reads_back(n / 10);
        let head = decimal(n / 10);
        let d = digit_char(n % 10);
        assert(decimal(n) == head.push(d));
        assert(head.push(d).drop_last() == head);
        assert(d as int == 48 + n % 10);
        assert forall|i: int| 0 <= i < decimal(n).len() implies is_digit(#[trigger] decimal(n)[i]) by {
            if i < head.len() {
                assert(is_digit(head[i]));
            }
        }
    }
    assert(is_digit(decimal(n)[0]));
    assert(unsigned_body(decimal(n)) == decimal(n));
}

/// Different numbers are written differently.
pub proof fn decimal_is_injective(a: nat, b: nat)
    requires
        decimal(a) == decimal(b),
    ensures
        a == b,
{
    decimal_reads_back(a);
    decimal_reads_back(b);
}

pub open spec fn is_digit(c: char) -> bool {
    48 <= c as int <= 57
}

/// The number that a run of decimal digits denotes.
pub open spec fn digits_value(s: Seq<char>) -> nat
    decreases s.len(),
{
    if s.len() == 0 {
        0
    } else {
        10 * digits_value(s.drop_last()) + ((s.last() as int - 48) as nat)
    }
}

pub open spec fn all_digits(s: Seq<char>) -> bool {
    forall|i: int| 0 <= i < s.len() ==> is_digit(#[trigger] s[i])
}

/// The text behind one optional leading plus sign.
pub open spec fn unsigned_body(s: Seq<char>) -> Seq<char> {
    if s.len() > 0 && s[0] == '+' {
        s.subrange(1, s.len() as int)
    } else {
        s
    }
}

/// The unsigned number that `s` spells, where it spells one that is at most `max`.
///
/// A number is one or more decimal digits behind an optional plus sign.
pub open spec fn parsed_unsigned(s: Seq<char>, max: nat) -> Option<nat> {
    let body = unsigned_body(s);
    if body.len() > 0 && all_digits(body) && digits_value(body) <= max {
        Some(digits_value(body))
    } else {
        None
    }
}

proof fn lemma_prefix_value(s: Seq<char>, k: int)
    requires
        0 <= k <= s.len(),
        all_digits(s),
    ensures
        digits_value(s.subrange(0, k)) <= digits_value(s),
    decreases s.len() - k,
{
    if k == s.len() {
        assert(s.subrange(0, k) == s);
    } else {
        let longer = s.subrange(0, k + 1);
        assert(longer.drop_last() == s.subrange(0, k));
        assert(is_digit(s[k]));
        lemma_prefix_value(s, k + 1);
    }
}

/// Reads an unsigned decimal number that must not exceed `max`.
pub fn parse_unsigned(s: &str, max: u64) -> (out: Option<u64>)
    ensures
        match out {
            Some(n) => parsed_unsigned(s@, max as nat) == Some(n as nat),
            None => parsed_unsigned(s@, max as nat) is None,
        },
{
    let len: usize = s.unicode_len();
    let ghost body = unsigned_body(s@);
    let mut start: usize = 0;
    if len > 0 && s.get_char(0) == '+' {
        start = 1;
    }
    if start == len {
        return None;
    }
    let mut value: u64 = 0;
    let mut i: usize = start;
    while i < len
        invariant
            start <= i <= len,
            start < len,
            len == s@.len(),
            start == 0 || start == 1,
            body == s@.subrange(start as int, len as int),
            body == unsigned_body(s@),
            all_digits(body.subrange(0, i - start)),
            value == digits_value(body.subrange(0, i - start)),
            value <= max,
        decreases len - i,
    {
        let c: char = s.get_char(i);
        proof {
            assert(c == body[i - start]);
        }
        if !('0' <= c && c <= '9') {
            return None;
        }
        let d: u64 = (c as u32 - 48) as u64;
        proof {
            let ghost longer = body.subrange(0, i - start + 1);
            assert(longer.drop_last() == body.subrange(0, i - start));
            assert(longer.last() == c);
            assert(digits_value(longer) == 10 * value + d);
            if all_digits(body) {
                lemma_prefix_value(body, i - start + 1);
            }
            assert(all_digits(longer)) by {
                assert forall|j: int| 0 <= j < longer.len() implies is_digit(#[trigger] longer[j]) by {
                    if j < i - start {
                        assert(is_digit(body.subrange(0, i - start)[j]));
                    }
                }
            }
        }
        if value > max / 10 || d > max - 10 * value {
            return None;
        }
        value = 10 * value + d;
        i = i + 1;
    }
    proof {
        assert(body.subrange(0, i - start) == body);
    }
    Some(value)
}


/// Whether `c` has the Unicode property White_Space.
pub open spec fn is_white_space(c: char) -> bool {
    let n = c as int;
    ||| 9 <= n <= 13
    ||| n == 0x20
    ||| n == 0x85
    ||| n == 0xa0
    ||| n == 0x1680
    ||| 0x2000 <= n <= 0x200a
    ||| n == 0x2028
    ||| n == 0x2029
    ||| n == 0x202f
    ||| n == 0x205f
    ||| n == 0x3000
}

/// `s` without the whitespace at its end.
pub open spec fn trimmed_end(s: Seq<char>) -> Seq<char>
    decreases s.len(),
{
    if s.len() > 0 && is_white_space(s.last()) {
        trimmed_end(s.drop_last())
    } else {
        s
    }
}

/// `s` without the whitespace at its two ends.
pub open spec fn trimmed(s: Seq<char>) -> Seq<char>
    decreases s.len(),
{
    if s.len() > 0 && is_white_space(s[0]) {
        trimmed(s.subrange(1, s.len() as int))
    } else {
        trimmed_end(s)
    }
}

/// The characters of `s`.
pub fn chars_of(s: &str) -> (out: Vec<char>)
    ensures
        out@ == s@,
{
    let len: usize = s.unicode_len();
    let mut out: Vec<char> = Vec::new();
    let mut i: usize = 0;
    while i < len
        invariant
            len == s@.len(),
            i <= len,
            out@ == s@.subrange(0, i as int),
        decreases len - i,
    {
        out.push(s.get_char(i));
        proof {
            assert(s@.subrange(0, i + 1) == s@.subrange(0, i as int).push(s@[i as int]));
        }
        i = i + 1;
    }
    proof {
        assert(s@.subrange(0, i as int) == s@);
    }
    out
}

/// The text made of `chars[from..to]`.
pub fn string_of(chars: &[char], from: usize, to: usize) -> (out: String)
    requires
        from <= to <= chars@.len(),
    ensures
        out@ == chars@.subrange(from as int, to as int),
{
    let mut out = String::new();
    let mut i: usize = from;
    while i < to
        invariant
            from <= i <= to <= chars@.len(),
            out@ == chars@.subrange(from as int, i as int),
        decreases to - i,
    {
        out.push(chars[i]);
        proof {
            assert(chars@.subrange(from as int, i + 1) == chars@.subrange(
                from as int,
                i as int,
            ).push(chars@[i as int]));
        }
        i = i + 1;
    }
    out
}

fn white_space(c: char) -> (yes: bool)
    ensures
        yes == is_white_space(c),
{
    let n: u32 = c as u32;
    (9 <= n && n <= 13) || n == 0x20 || n == 0x85 || n == 0xa0 || n == 0x1680 || (0x2000 <= n && n
        <= 0x200a) || n == 0x2028 || n == 0x2029 || n == 0x202f || n == 0x205f || n == 0x3000
}

/// `s` without the whitespace at its two ends.
pub fn trim(s: &str) -> (out: String)
    ensures
        out@ == trimmed(s@),
{
    let chars = chars_of(s);
    let len: usize = chars.len();
    let mut from: usize = 0;
    assert(chars@.subrange(0, len as int) == chars@);
    while from < len && white_space(chars[from])
        invariant
            len == chars@.len(),
            from <= len,
            trimmed(chars@) == trimmed(chars@.subrange(from as int, len as int)),
        decreases len - from,
    {
        proof {
            let ghost rest = chars@.subrange(from as int, len as int);
            assert(rest[0] == chars@[from as int]);
            assert(rest.subrange(1, rest.len() as int) == chars@.subrange(from + 1, len as int));
        }
        from = from + 1;
    }
    let mut to: usize = len;
    proof {
        let ghost rest = chars@.subrange(from as int, len as int);
        if from < len {
            assert(rest[0] == chars@[from as int]);
        }
        assert(trimmed(rest) == trimmed_end(rest));
    }
    while from < to && white_space(chars[to - 1])
        invariant
            len == chars@.len(),
            from <= to <= len,
            trimmed(chars@) == trimmed_end(chars@.subrange(from as int, to as int)),
        decreases to - from,
    {
        proof {
            let ghost rest = chars@.subrange(from as int, to as int);
            assert(rest.last() == chars@[to - 1]);
            assert(rest.drop_last() == chars@.subrange(from as int, to - 1));
        }
        to = to - 1;
    }
    proof {
        let ghost rest = chars@.subrange(from as int, to as int);
        if from < to {
            assert(rest.last() == chars@[to - 1]);
        }
    }
    string_of(chars.as_slice(), from, to)
}

/// `c` with an ASCII capital letter replaced by the small one.
pub open spec fn lower_char(c: char) -> char {
    if 65 <= c as int <= 90 {
        (c as int + 32) as char
    } else {
        c
    }
}

/// `s` with its ASCII capital letters replaced by small ones.
pub open spec fn lowered(s: Seq<char>) -> Seq<char> {
    Seq::new(s.len(), |i: int| lower_char(s[i]))
}

/// `s` with its ASCII capital letters replaced by small ones.
pub fn to_ascii_lowercase(s: &str) -> (out: String)
    ensures
        out@ == lowered(s@),
{
    let len: usize = s.unicode_len();
    let mut out = String::new();
    let mut i: usize = 0;
    while i < len
        invariant
            len == s@.len(),
            i <= len,
            out@ == lowered(s@).subrange(0, i as int),
        decreases len - i,
    {
        let c: char = s.get_char(i);
        if 'A' <= c && c <= 'Z' {
            let low: u8 = (c as u32) as u8;
            out.push((low + 32) as char);
        } else {
            out.push(c);
        }
        proof {
            assert(lowered(s@).subrange(0, i + 1) == lowered(s@).subrange(0, i as int).push(
                lowered(s@)[i as int],
            ));
        }
        i = i + 1;
    }
    proof {
        assert(lowered(s@).subrange(0, i as int) == lowered(s@));
    }
    out
}

/// What `str::to_lowercase` makes of a text.
pub uninterp spec fn lowercase(s: Seq<char>) -> Seq<char>;

/// That every character of `s` is an ASCII one.
pub open spec fn is_ascii_text(s: Seq<char>) -> bool {
    forall|i: int| 0 <= i < s.len() ==> (#[trigger] s[i]) as int <= 127
}

/// `str::to_lowercase`: the text in lower case by the rules of Unicode, which depends on
/// the text alone. An ASCII text has its capital letters replaced by small ones.
#[verifier::external_body]
pub(crate) fn to_lowercase(s: &str) -> (out: String)
    ensures
        out@ == lowercase(s@),
        is_ascii_text(s@) ==> out@ == lowered(s@),
{
    s.to_lowercase()
}

/// Whether `part` stands in `s` at position `at`.
pub open spec fn stands_at(s: Seq<char>, part: Seq<char>, at: int) -> bool {
    0 <= at && at + part.len() <= s.len() && s.subrange(at, at + part.len()) == part
}

/// Whether `part` stands somewhere in `s`.
pub open spec fn occurs_in(s: Seq<char>, part: Seq<char>) -> bool {
    exists|at: int| stands_at(s, part, at)
}

/// Whether `part` stands somewhere in `s`.
pub fn contains(s: &str, part: &str) -> (found: bool)
    ensures
        found == occurs_in(s@, part@),
{
    let text = chars_of(s);
    let pattern = chars_of(part);
    let mut at: usize = 0;
    while at <= text.len() && pattern.len() <= text.len() - at
        invariant
            text@ == s@,
            pattern@ == part@,
            at <= text@.len() + 1,
            forall|k: int| 0 <= k < at ==> !stands_at(s@, part@, k),
        decreases text@.len() + 1 - at,
    {
        let mut i: usize = 0;
        while i < pattern.len() && text[at + i] == pattern[i]
            invariant
                i <= pattern@.len(),
                at + pattern@.len() <= text@.len(),
                text@.len() <= usize::MAX,
                forall|k: int| 0 <= k < i ==> text@[at + k] == pattern@[k],
            decreases pattern@.len() - i,
        {
            i = i + 1;
        }
        if i == pattern.len() {
            proof {
                assert(s@.subrange(at as int, at + part@.len()) == part@);
                assert(stands_at(s@, part@, at as int));
            }
            return true;
        }
        proof {
            if stands_at(s@, part@, at as int) {
                assert(s@.subrange(at as int, at + part@.len())[i as int] == part@[i as int]);
            }
        }
        at = at + 1;
    }
    false
}

/// The parts of `s` between the occurrences of `sep`.
pub open spec fn split_parts(s: Seq<char>, sep: char) -> Seq<Seq<char>>
    decreases s.len(),
{
    if s.len() == 0 {
        seq![Seq::<char>::empty()]
    } else if s.last() == sep {
        split_parts(s.drop_last(), sep).push(Seq::<char>::empty())
    } else {
        let parts = split_parts(s.drop_last(), sep);
        parts.update(parts.len() - 1, parts.last().push(s.last()))
    }
}

proof fn lemma_split_nonempty(s: Seq<char>, sep: char)
    ensures
        split_parts(s, sep).len() > 0,
    decreases s.len(),
{
    if s.len() > 0 {
        lemma_split_nonempty(s.drop_last(), sep);
    }
}

/// The texts that a vector of strings holds.
pub open spec fn texts(v: Seq<String>) -> Seq<Seq<char>> {
    Seq::new(v.len(), |i: int| v[i]@)
}

/// The parts of `s` between the occurrences of `sep`.
pub fn split(s: &str, sep: char) -> (out: Vec<String>)
    ensures
        texts(out@) == split_parts(s@, sep),
{
    let len: usize = s.unicode_len();
    let mut out: Vec<String> = Vec::new();
    let mut part = String::new();
    let mut i: usize = 0;
    proof {
        assert(texts(out@).push(part@) == split_parts(s@.subrange(0, 0), sep));
    }
    while i < len
        invariant
            len == s@.len(),
            i <= len,
            texts(out@).push(part@) == split_parts(s@.subrange(0, i as int), sep),
        decreases len - i,
    {
        let c: char = s.get_char(i);
        let ghost before = split_parts(s@.subrange(0, i as int), sep);
        proof {
            lemma_split_nonempty(s@.subrange(0, i as int), sep);
            assert(s@.subrange(0, i + 1).drop_last() == s@.subrange(0, i as int));
            assert(s@.subrange(0, i + 1).last() == c);
        }
        if c == sep {
            out.push(part);
            part = String::new();
            proof {
                assert(texts(out@) == before);
            }
        } else {
            let ghost old_part = part@;
            part.push(c);
            proof {
                assert(before.update(before.len() - 1, before.last().push(c)) == texts(out@).push(
                    part@,
                ));
            }
        }
        i = i + 1;
    }
    out.push(part);
    proof {
        assert(s@.subrange(0, i as int) == s@);
        assert(texts(out@) == split_parts(s@, sep));
    }
    out
}

/// The texts one behind the other, with `sep` between each two.
pub open spec fn joined(parts: Seq<Seq<char>>, sep: Seq<char>) -> Seq<char>
    decreases parts.len(),
{
    if parts.len() == 0 {
        Seq::empty()
    } else if parts.len() == 1 {
        parts[0]
    } else {
        joined(parts.drop_last(), sep) + sep + parts.last()
    }
}

/// The texts one behind the other, with `sep` between each two.
pub fn join(parts: &Vec<String>, sep: &str) -> (out: String)
    ensures
        out@ == joined(texts(parts@), sep@),
{
    let mut out = String::new();
    let mut i: usize = 0;
    while i < parts.len()
        invariant
            i <= parts@.len(),
            out@ == joined(texts(parts@).subrange(0, i as int), sep@),
        decreases parts@.len() - i,
    {
        let ghost done = texts(parts@).subrange(0, i as int);
        let ghost next = texts(parts@).subrange(0, i + 1);
        proof {
            assert(next.drop_last() == done);
            assert(next.last() == parts@[i as int]@);
        }
        if i > 0 {
            out.append(sep);
            out.append(parts[i].as_str());
        } else {
            out.append(parts[i].as_str());
            proof {
                assert(out@ == next[0]);
            }
        }
        i = i + 1;
    }
    proof {
        assert(texts(parts@).subrange(0, i as int) == texts(parts@));
    }
    out
}

/// `a` followed by `b`.
pub fn concat2(a: &str, b: &str) -> (out: String)
    ensures
        out@ == a@ + b@,
{
    let mut out = a.to_owned();
    out.append(b);
    out
}

/// `a`, `b` and `c` one behind the other.
pub fn concat3(a: &str, b: &str, c: &str) -> (out: String)
    ensures
        out@ == a@ + b@ + c@,
{
    let mut out = concat2(a, b);
    out.append(c);
    out
}

/// Whether two texts are the same.
pub fn same_text(a: &str, b: &str) -> (same: bool)
    ensures
        same == (a@ == b@),
{
    a.to_owned() == b.to_owned()
}

/// Whether `s` begins with `part`.
pub fn starts_with(s: &str, part: &str) -> (yes: bool)
    ensures
        yes == stands_at(s@, part@, 0),
{
    let len: usize = part.unicode_len();
    if s.unicode_len() < len {
        return false;
    }
    let mut i: usize = 0;
    while i < len
        invariant
            i <= len,
            len == part@.len(),
            len <= s@.len(),
            forall|k: int| 0 <= k < i ==> s@[k] == part@[k],
        decreases len - i,
    {
        if s.get_char(i) != part.get_char(i) {
            proof {
                if s@.subrange(0, len as int) == part@ {
                    assert(s@.subrange(0, len as int)[i as int] == part@[i as int]);
                }
            }
            return false;
        }
        i = i + 1;
    }
    proof {
        assert(s@.subrange(0, len as int) == part@);
    }
    true
}

/// The words of `s`: its longest runs of characters that are not whitespace.
pub open spec fn words(s: Seq<char>) -> Seq<Seq<char>>
    decreases s.len(),
{
    if s.len() == 0 {
        Seq::empty()
    } else if is_white_space(s.last()) {
        words(s.drop_last())
    } else if s.len() == 1 || is_white_space(s[s.len() - 2]) {
        words(s.drop_last()).push(seq![s.last()])
    } else {
        let before = words(s.drop_last());
        before.update(before.len() - 1, before.last().push(s.last()))
    }
}

/// The words of `s`: its longest runs of characters that are not whitespace.
pub fn split_whitespace(s: &str) -> (out: Vec<String>)
    ensures
        texts(out@) == words(s@),
{
    let len: usize = s.unicode_len();
    let mut out: Vec<String> = Vec::new();
    let mut word = String::new();
    let mut open = false;
    let mut i: usize = 0;
    proof {
        assert(texts(out@) == words(s@.subrange(0, 0)));
    }
    while i < len
        invariant
            len == s@.len(),
            i <= len,
            open == (i > 0 && !is_white_space(s@[i - 1])),
            open ==> texts(out@).push(word@) == words(s@.subrange(0, i as int)),
            !open ==> texts(out@) == words(s@.subrange(0, i as int)) && word@.len() == 0,
        decreases len - i,
    {
        let c: char = s.get_char(i);
        let ghost done = s@.subrange(0, i as int);
        let ghost next = s@.subrange(0, i + 1);
        let ghost before = texts(out@);
        let ghost begun = word@;
        proof {
            assert(next.drop_last() == done);
            assert(next.last() == c);
            if i > 0 {
                assert(next[next.len() - 2] == s@[i - 1]);
            }
        }
        if white_space(c) {
            if open {
                out.push(word);
                word = String::new();
                open = false;
                proof {
                    assert(texts(out@) == before.push(begun));
                }
            }
        } else {
            word.push(c);
            proof {
                if open {
                    assert(before.push(begun).update(
                        before.len() as int,
                        before.push(begun).last().push(c),
                    ) == before.push(begun.push(c)));
                } else {
                    assert(word@ == seq![c]);
                }
            }
            open = true;
        }
        i = i + 1;
    }
    proof {
        assert(s@.subrange(0, len as int) == s@);
    }
    if open {
        let ghost before = texts(out@);
        let ghost begun = word@;
        out.push(word);
        proof {
            assert(texts(out@) == before.push(begun));
        }
    }
    out
}

} // verus!
