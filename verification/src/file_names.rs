//! The names that received files get.

use vstd::prelude::*;
use crate::text::{chars_of, concat2, concat3, decimal, decimal_string, string_of};

verus! {

/// Where the last dot of a name stands; minus one where it has none.
pub open spec fn last_dot(name: Seq<char>) -> int
    decreases name.len(),
{
    if name.len() == 0 {
        -1
    } else if name.last() == '.' {
        name.len() - 1
    } else {
        last_dot(name.drop_last())
    }
}

proof fn lemma_last_dot(name: Seq<char>, k: int)
    requires
        0 <= k <= name.len(),
        forall|i: int| k <= i < name.len() ==> #[trigger] name[i] != '.',
        k > 0 ==> name[k - 1] == '.',
    ensures
        last_dot(name) == k - 1,
    decreases name.len(),
{
    if name.len() > 0 && k < name.len() {
        assert(name.last() != '.');
        let rest = name.drop_last();
        assert forall|i: int| k <= i < rest.len() implies #[trigger] rest[i] != '.' by {
            assert(rest[i] == name[i]);
        }
        lemma_last_dot(rest, k);
    }
}

/// Where a path ends without the separators and the dots for the same place behind its last
/// component.
pub open spec fn path_end(path: Seq<char>) -> nat
    decreases path.len(),
{
    if path.len() == 0 {
        0
    } else if path.last() == '/' || (path.len() > 1 && path.last() == '.' && path[path.len() - 2]
        == '/') {
        path_end(path.drop_last())
    } else {
        path.len()
    }
}

/// Where the last part of a text begins that holds no separator.
pub open spec fn part_start(text: Seq<char>) -> nat
    decreases text.len(),
{
    if text.len() == 0 || text.last() == '/' {
        text.len()
    } else {
        part_start(text.drop_last())
    }
}

/// The last component of a path where it names a file: not for a path that ends in the root, in
/// the place where it starts or in the directory above. Components are parted by slashes.
pub open spec fn file_name(path: Seq<char>) -> Option<Seq<char>> {
    let end = path_end(path) as int;
    let last = path.subrange(part_start(path.subrange(0, end)) as int, end);
    if last.len() == 0 || last == seq!['.'] || last == seq!['.', '.'] {
        None
    } else {
        Some(last)
    }
}

/// The file name of a path without its extension, which is what stands behind a dot that is not
/// the first character; the whole path where it names no file.
pub open spec fn stem(path: Seq<char>) -> Seq<char> {
    match file_name(path) {
        Some(name) => if last_dot(name) > 0 {
            name.subrange(0, last_dot(name))
        } else {
            name
        },
        None => path,
    }
}

/// The dot and the extension of the file name of a path, where it has one.
pub open spec fn suffix(path: Seq<char>) -> Seq<char> {
    match file_name(path) {
        Some(name) => if last_dot(name) > 0 {
            name.subrange(last_dot(name), name.len() as int)
        } else {
            Seq::empty()
        },
        None => Seq::empty(),
    }
}

/// The name to try after `attempt` others are taken: the name itself first, then
/// the stem of its last component with a number behind it, and its extension.
pub open spec fn candidate_name(name: Seq<char>, attempt: nat) -> Seq<char> {
    if attempt == 0 {
        name
    } else {
        stem(name) + "_"@ + decimal(attempt) + suffix(name)
    }
}

proof fn lemma_last_dot_bounds(name: Seq<char>)
    ensures
        -1 <= last_dot(name) < name.len(),
    decreases name.len(),
{
    if name.len() > 0 {
        lemma_last_dot_bounds(name.drop_last());
    }
}

proof fn lemma_path_end(path: Seq<char>, end: int)
    requires
        0 <= end <= path.len(),
        path_end(path.subrange(0, end)) == end,
        forall|i: int|
            end <= i < path.len() ==> #[trigger] path[i] == '/' || (i > 0 && path[i] == '.'
                && path[i - 1] == '/'),
    ensures
        path_end(path) == end,
    decreases path.len(),
{
    if end == path.len() {
        assert(path.subrange(0, end) =~= path);
    } else {
        let rest = path.drop_last();
        assert(path[path.len() - 1] == path.last());
        assert(rest.subrange(0, end) =~= path.subrange(0, end));
        assert forall|i: int| end <= i < rest.len() implies #[trigger] rest[i] == '/' || (i > 0
            && rest[i] == '.' && rest[i - 1] == '/') by {
            assert(rest[i] == path[i]);
        }
        lemma_path_end(rest, end);
    }
}

proof fn lemma_part_start(text: Seq<char>, start: int)
    requires
        0 <= start <= text.len(),
        forall|i: int| start <= i < text.len() ==> #[trigger] text[i] != '/',
        start > 0 ==> text[start - 1] == '/',
    ensures
        part_start(text) == start,
    decreases text.len(),
{
    if start < text.len() {
        let rest = text.drop_last();
        assert(text[text.len() - 1] != '/');
        assert forall|i: int| start <= i < rest.len() implies #[trigger] rest[i] != '/' by {
            assert(rest[i] == text[i]);
        }
        lemma_part_start(rest, start);
    }
}

proof fn lemma_path_bounds(path: Seq<char>)
    ensures
        path_end(path) <= path.len(),
    decreases path.len(),
{
    if path.len() > 0 {
        lemma_path_bounds(path.drop_last());
    }
}

proof fn lemma_part_bounds(text: Seq<char>)
    ensures
        part_start(text) <= text.len(),
        forall|i: int| part_start(text) <= i < text.len() ==> #[trigger] text[i] != '/',
    decreases text.len(),
{
    if text.len() > 0 && text.last() != '/' {
        let rest = text.drop_last();
        lemma_part_bounds(rest);
        assert forall|i: int| part_start(text) <= i < text.len() implies #[trigger] text[i]
            != '/' by {
            if i < rest.len() {
                assert(text[i] == rest[i]);
            }
        }
    }
}

/// A file name holds no separator, and a name without separators is its own file name where it
/// has one.
proof fn lemma_file_name(name: Seq<char>)
    ensures
        file_name(name) matches Some(last) ==> forall|i: int|
            0 <= i < last.len() ==> #[trigger] last[i] != '/',
        (file_name(name) is Some && forall|i: int|
            0 <= i < name.len() ==> #[trigger] name[i] != '/') ==> file_name(name) == Some(name),
{
    let end = path_end(name) as int;
    lemma_path_bounds(name);
    let kept = name.subrange(0, end);
    let start = part_start(kept) as int;
    lemma_part_bounds(kept);
    let last = name.subrange(start, end);
    assert forall|i: int| 0 <= i < last.len() implies #[trigger] last[i] != '/' by {
        assert(last[i] == kept[start + i]);
    }
    if forall|i: int| 0 <= i < name.len() ==> #[trigger] name[i] != '/' {
        if name.len() > 0 {
            assert(name[name.len() - 1] != '/');
            if name.len() > 1 {
                assert(name[name.len() - 2] != '/');
            }
        }
        assert(kept =~= name);
        lemma_part_start(kept, 0);
        assert(last =~= name);
    }
}

/// Where the file name of a path stands.
fn find_file_name(chars: &Vec<char>) -> (out: Option<(usize, usize)>)
    ensures
        match out {
            Some((start, end)) => {
                &&& start <= end <= chars@.len()
                &&& end == path_end(chars@)
                &&& file_name(chars@) == Some(chars@.subrange(start as int, end as int))
            },
            None => file_name(chars@) is None,
        },
{
    let len: usize = chars.len();
    let mut end: usize = len;
    while end > 0 && (chars[end - 1] == '/' || (end > 1 && chars[end - 1] == '.' && chars[end - 2]
        == '/'))
        invariant
            end <= len,
            len == chars@.len(),
            forall|i: int|
                end <= i < len ==> #[trigger] chars@[i] == '/' || (i > 0 && chars@[i] == '.'
                    && chars@[i - 1] == '/'),
        decreases end,
    {
        end = end - 1;
    }
    let ghost kept = chars@.subrange(0, end as int);
    proof {
        lemma_path_end(chars@, end as int);
    }
    let mut start: usize = end;
    while start > 0 && chars[start - 1] != '/'
        invariant
            start <= end <= chars@.len(),
            forall|i: int| start <= i < end ==> #[trigger] chars@[i] != '/',
        decreases start,
    {
        start = start - 1;
    }
    proof {
        assert forall|i: int| start <= i < kept.len() implies #[trigger] kept[i] != '/' by {
            assert(kept[i] == chars@[i]);
        }
        lemma_part_start(kept, start as int);
    }
    let ghost last = chars@.subrange(start as int, end as int);
    let here = end - start == 1 && chars[start] == '.';
    let above = end - start == 2 && chars[start] == '.' && chars[start + 1] == '.';
    proof {
        if here {
            assert(last =~= seq!['.']);
        }
        if above {
            assert(last =~= seq!['.', '.']);
        }
        if last == seq!['.'] {
            assert(last.len() == 1 && last[0] == chars@[start as int]);
        }
        if last == seq!['.', '.'] {
            assert(last.len() == 2 && last[0] == chars@[start as int] && last[1] == chars@[start
                + 1]);
        }
    }
    if start == end || here || above {
        None
    } else {
        Some((start, end))
    }
}

/// The name to try after `attempt` others are taken.
fn candidate(name: &str, attempt: u64) -> (out: String)
    ensures
        out@ == candidate_name(name@, attempt as nat),
{
    if attempt == 0 {
        return name.to_owned();
    }
    let chars = chars_of(name);
    let number = decimal_string(attempt);
    let (start, end): (usize, usize) = match find_file_name(&chars) {
        Some(found) => found,
        None => {
            let out = concat3(name, "_", number.as_str());
            proof {
                assert(out@ =~= candidate_name(name@, attempt as nat));
            }
            return out;
        },
    };
    let ghost last = chars@.subrange(start as int, end as int);
    let mut k: usize = end;
    while k > start && chars[k - 1] != '.'
        invariant
            start <= k <= end <= chars@.len(),
            forall|i: int| k <= i < end ==> #[trigger] chars@[i] != '.',
        decreases k,
    {
        k = k - 1;
    }
    proof {
        assert forall|i: int| k - start <= i < last.len() implies #[trigger] last[i] != '.' by {
            assert(last[i] == chars@[start + i]);
        }
        lemma_last_dot(last, k - start);
    }
    let cut: usize = if k > start + 1 {
        k - 1
    } else {
        end
    };
    let mut out = string_of(chars.as_slice(), start, cut);
    out.append("_");
    out.append(number.as_str());
    out.append(string_of(chars.as_slice(), cut, end).as_str());
    proof {
        assert(stem(name@) =~= chars@.subrange(start as int, cut as int));
        assert(suffix(name@) =~= chars@.subrange(cut as int, end as int));
    }
    out
}

/// How many names are taken before the first that is free, or all of them.
pub open spec fn taken_before(tried: Seq<bool>) -> nat
    decreases tried.len(),
{
    if tried.len() == 0 {
        0
    } else if taken_before(tried.drop_last()) < tried.len() - 1 || !tried.last() {
        taken_before(tried.drop_last())
    } else {
        tried.len()
    }
}

/// What the search for a free name does next.
#[derive(Debug, PartialEq, Eq)]
pub enum DestStep {
    /// See whether there is a file of this name.
    Try(String),
    /// The file gets this name.
    Use(String),
}

/// The next step after it was seen, name by name, which are taken.
pub open spec fn is_dest_step(name: Seq<char>, tried: Seq<bool>, step: DestStep) -> bool {
    let free = candidate_name(name, taken_before(tried));
    match step {
        DestStep::Use(found) => taken_before(tried) < tried.len() && found@ == free,
        DestStep::Try(next) => taken_before(tried) == tried.len() && next@ == free,
    }
}

proof fn lemma_taken_before(tried: Seq<bool>, k: int)
    requires
        0 <= k <= tried.len(),
        forall|i: int| 0 <= i < k ==> #[trigger] tried[i],
        k < tried.len() ==> !tried[k],
    ensures
        taken_before(tried) == k,
    decreases tried.len(),
{
    if tried.len() > 0 {
        let before = tried.drop_last();
        if k < tried.len() {
            lemma_taken_before(before, k);
        } else {
            lemma_taken_before(before, k - 1);
        }
    }
}

proof fn lemma_taken_are_taken(tried: Seq<bool>)
    ensures
        taken_before(tried) <= tried.len(),
        forall|i: int| 0 <= i < taken_before(tried) ==> #[trigger] tried[i],
        taken_before(tried) < tried.len() ==> !tried[taken_before(tried) as int],
    decreases tried.len(),
{
    if tried.len() > 0 {
        let before = tried.drop_last();
        lemma_taken_are_taken(before);
        assert forall|i: int| 0 <= i < taken_before(tried) implies #[trigger] tried[i] by {
            if i < before.len() {
                assert(before[i]);
            }
        }
    }
}

/// Finds a name that is free: `tried` says of the name itself, then of the name with one, two
/// and so on behind its stem, whether there is such a file. The first that is free is used.
pub fn unique_dest_path(name: &str, tried: &Vec<bool>) -> (step: DestStep)
    ensures
        is_dest_step(name@, tried@, step),
{
    let mut k: usize = 0;
    while k < tried.len()
        invariant
            k <= tried@.len(),
            forall|i: int| 0 <= i < k ==> #[trigger] tried@[i],
        decreases tried@.len() - k,
    {
        if !tried[k] {
            proof {
                lemma_taken_before(tried@, k as int);
            }
            return DestStep::Use(candidate(name, k as u64));
        }
        k = k + 1;
    }
    proof {
        lemma_taken_before(tried@, k as int);
    }
    DestStep::Try(candidate(name, k as u64))
}

/// That `tried` says which of the names are taken.
pub open spec fn seen(name: Seq<char>, taken: Set<Seq<char>>, tried: Seq<bool>) -> bool {
    forall|i: int|
        0 <= i < tried.len() ==> #[trigger] tried[i] == taken.contains(
            candidate_name(name, i as nat),
        )
}

/// A file gets a name that no other has, and the first such.
pub proof fn the_first_free_name_is_used(
    name: Seq<char>,
    taken: Set<Seq<char>>,
    tried: Seq<bool>,
    step: DestStep,
)
    requires
        seen(name, taken, tried),
        is_dest_step(name, tried, step),
    ensures
        step matches DestStep::Use(found) ==> !taken.contains(found@) && exists|k: nat|
            #![trigger candidate_name(name, k)]
            found@ == candidate_name(name, k) && forall|i: nat|
                i < k ==> taken.contains(#[trigger] candidate_name(name, i)),
{
    lemma_taken_are_taken(tried);
    if let DestStep::Use(found) = step {
        let k = taken_before(tried);
        assert(!tried[k as int]);
        assert forall|i: nat| i < k implies taken.contains(#[trigger] candidate_name(name, i)) by {
            assert(tried[i as int]);
        }
        assert(found@ == candidate_name(name, k));
    }
}

/// The search ends: of more names than are taken one is free.
pub proof fn a_free_name_is_found(
    name: Seq<char>,
    taken: Set<Seq<char>>,
    tried: Seq<bool>,
    step: DestStep,
)
    requires
        taken.finite(),
        seen(name, taken, tried),
        is_dest_step(name, tried, step),
        tried.len() > taken.len(),
    ensures
        step is Use,
{
    lemma_taken_are_taken(tried);
    if step is Try {
        let names = Seq::new(tried.len(), |i: int| candidate_name(name, i as nat));
        assert(names.no_duplicates()) by {
            assert forall|i: int, j: int| 0 <= i < j < names.len() implies names[i] != names[j] by {
                candidate_names_differ(name, i as nat, j as nat);
            }
        }
        names.unique_seq_to_set();
        assert(names.to_set().subset_of(taken)) by {
            assert forall|x: Seq<char>| names.to_set().contains(x) implies taken.contains(x) by {
                let i = names.index_of(x);
                assert(names[i] == x);
                assert(tried[i]);
            }
        }
        vstd::set_lib::lemma_len_subset(names.to_set(), taken);
    }
}

/// No two attempts try the same name.
pub proof fn candidate_names_differ(name: Seq<char>, a: nat, b: nat)
    requires
        a != b,
    ensures
        candidate_name(name, a) != candidate_name(name, b),
{
    if a == 0 {
        lemma_numbered_differs(name, b);
    } else if b == 0 {
        lemma_numbered_differs(name, a);
    } else if candidate_name(name, a) == candidate_name(name, b) {
        reveal_strlit("_");
        let base = stem(name).len() as int;
        let x = candidate_name(name, a);
        let y = candidate_name(name, b);
        assert(x == stem(name) + "_"@ + decimal(a) + suffix(name));
        assert(y == stem(name) + "_"@ + decimal(b) + suffix(name));
        assert(x.len() == base + 1 + decimal(a).len() + suffix(name).len());
        assert(y.len() == base + 1 + decimal(b).len() + suffix(name).len());
        assert(decimal(a) =~= x.subrange(base + 1, base + 1 + decimal(a).len()));
        assert(decimal(b) =~= y.subrange(base + 1, base + 1 + decimal(b).len()));
        crate::text::decimal_is_injective(a, b);
    }
}

/// A name with a number is not the name itself: it is longer than the last component, and it
/// holds a separator only where the name is no file's.
proof fn lemma_numbered_differs(name: Seq<char>, n: nat)
    requires
        n > 0,
    ensures
        candidate_name(name, n) != name,
{
    reveal_strlit("_");
    lemma_file_name(name);
    crate::text::decimal_reads_back(n);
    let numbered = candidate_name(name, n);
    assert(numbered == stem(name) + "_"@ + decimal(n) + suffix(name));
    if numbered == name && file_name(name) is Some {
        let last = file_name(name).unwrap();
        lemma_last_dot_bounds(last);
        assert(last =~= stem(name) + suffix(name));
        assert forall|i: int| 0 <= i < numbered.len() implies #[trigger] numbered[i] != '/' by {
            let base = stem(name).len() as int;
            let digits = decimal(n).len() as int;
            if i < base {
                assert(numbered[i] == last[i]);
            } else if i == base {
                assert(numbered[i] == '_');
            } else if i < base + 1 + digits {
                assert(numbered[i] == decimal(n)[i - base - 1]);
                assert(crate::text::is_digit(decimal(n)[i - base - 1]));
            } else {
                assert(numbered[i] == last[i - 1 - digits]);
            }
        }
        assert(last == name);
        assert(numbered.len() > last.len());
    }
}

/// The path of the partial file of the file that is received at a path: beside it, with one
/// extension more. A path that names no file stays as it is.
pub open spec fn part_file_path(path: Seq<char>) -> Seq<char> {
    match file_name(path) {
        Some(_) => path.subrange(0, path_end(path) as int) + ".part"@,
        None => path,
    }
}

/// The path of the partial file of a file that is being received at a path.
pub fn part_path(path: &str) -> (out: String)
    ensures
        out@ == part_file_path(path@),
{
    let chars = chars_of(path);
    match find_file_name(&chars) {
        Some((_, end)) => {
            let head = string_of(chars.as_slice(), 0, end);
            concat2(head.as_str(), ".part")
        },
        None => path.to_owned(),
    }
}

} // verus!
