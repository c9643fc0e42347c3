//! Which display is captured on macOS.

use vstd::prelude::*;
use crate::text::{
    concat2, concat3, decimal, decimal_string, digits_value, is_digit, join, joined,
    parse_unsigned, parsed_unsigned, texts, trim, trimmed, unsigned_body,
};
use crate::transport::text_of;

verus! {

/// A display that can be captured.
#[derive(Clone, Copy, Debug, PartialEq, Eq, Structural)]
pub struct DisplayInfo {
    pub id: u32,
    pub width: u32,
    pub height: u32,
}

impl DisplayInfo {
    /// What a display is called.
    pub open spec fn description(self) -> Seq<char> {
        "display "@ + decimal(self.id as nat) + " ("@ + decimal(self.width as nat) + "x"@ + decimal(
            self.height as nat,
        ) + ")"@
    }

    /// The number of pixels.
    pub open spec fn area(self) -> int {
        self.width * self.height
    }

    /// That another display is preferred to this one: it has more pixels, or as many and a
    /// higher number.
    pub open spec fn below(self, other: DisplayInfo) -> bool {
        self.area() < other.area() || (self.area() == other.area() && self.id < other.id)
    }
}

/// What a display is called.
pub fn describe_display(display: DisplayInfo) -> (out: String)
    ensures
        out@ == display.description(),
{
    let id = concat3("display ", decimal_string(display.id as u64).as_str(), " (");
    let width = concat2(decimal_string(display.width as u64).as_str(), "x");
    let height = concat2(decimal_string(display.height as u64).as_str(), ")");
    let out = concat3(id.as_str(), width.as_str(), height.as_str());
    proof {
        assert(out@ =~= display.description());
    }
    out
}

/// What displays are called.
pub open spec fn descriptions(displays: Seq<DisplayInfo>) -> Seq<Seq<char>> {
    displays.map_values(|d: DisplayInfo| d.description())
}

/// What displays are called, one after the other.
pub fn available_displays(displays: &Vec<DisplayInfo>) -> (out: String)
    ensures
        out@ == joined(descriptions(displays@), ", "@),
{
    let mut names: Vec<String> = Vec::new();
    let mut i: usize = 0;
    while i < displays.len()
        invariant
            i <= displays@.len(),
            texts(names@).len() == i,
            forall|k: int| 0 <= k < i ==> #[trigger] texts(names@)[k] == displays@[k].description(),
        decreases displays@.len() - i,
    {
        let name = describe_display(displays[i]);
        let ghost before = texts(names@);
        let ghost text = name@;
        names.push(name);
        proof {
            assert(texts(names@) =~= before.push(text));
        }
        i = i + 1;
    }
    proof {
        assert(texts(names@) =~= descriptions(displays@));
    }
    join(&names, ", ")
}

/// How many digits a text starts with, from `from` on.
pub open spec fn digits_until(s: Seq<char>, from: int) -> int
    decreases s.len() - from,
{
    if from < 0 || from >= s.len() || !is_digit(s[from]) {
        from
    } else {
        digits_until(s, from + 1)
    }
}

/// Why a text is not a display number.
pub open spec fn number_complaint(s: Seq<char>) -> Seq<char> {
    let body = unsigned_body(s);
    if s.len() == 0 {
        "cannot parse integer from empty string"@
    } else if digits_value(body.subrange(0, digits_until(body, 0))) > u32::MAX {
        "number too large to fit in target type"@
    } else {
        "invalid digit found in string"@
    }
}

/// The display that `ST_MACOS_DISPLAY_ID` asks for.
pub open spec fn wanted_display(raw: Option<Seq<char>>) -> Result<Option<nat>, Seq<char>> {
    match raw {
        None => Ok(None),
        Some(value) => match parsed_unsigned(trimmed(value), u32::MAX as nat) {
            Some(id) => Ok(Some(id)),
            None => Err(
                "ST_MACOS_DISPLAY_ID must be a numeric display id: "@ + number_complaint(
                    trimmed(value),
                ),
            ),
        },
    }
}

/// Reads the display number that `ST_MACOS_DISPLAY_ID` asks for.
pub fn requested_display_id(raw: Option<&str>) -> (out: Result<Option<u32>, String>)
    ensures
        match (out, wanted_display(text_of(raw))) {
            (Ok(Some(id)), Ok(Some(n))) => id == n,
            (Ok(None), Ok(None)) => true,
            (Err(e), Err(text)) => e@ == text,
            _ => false,
        },
{
    let value = match raw {
        Some(value) => value,
        None => {
            return Ok(None);
        },
    };
    let text = trim(value);
    match parse_unsigned(text.as_str(), 0xffff_ffff) {
        Some(id) => Ok(Some(id as u32)),
        None => Err(
            concat2(
                "ST_MACOS_DISPLAY_ID must be a numeric display id: ",
                complain(text.as_str()),
            ),
        ),
    }
}

fn complain(s: &str) -> (out: &'static str)
    ensures
        out@ == number_complaint(s@),
{
    let len: usize = s.unicode_len();
    if len == 0 {
        return "cannot parse integer from empty string";
    }
    let mut start: usize = 0;
    if s.get_char(0) == '+' {
        start = 1;
    }
    let ghost body = unsigned_body(s@);
    let mut value: u64 = 0;
    let mut i: usize = start;
    proof {
        assert(body =~= s@.subrange(start as int, len as int));
        assert(body.subrange(0, 0) =~= Seq::<char>::empty());
    }
    while i < len
        invariant_except_break
            start <= i <= len,
            len == s@.len(),
            0 < len,
            body == s@.subrange(start as int, len as int),
            body == unsigned_body(s@),
            digits_until(body, 0) == digits_until(body, i - start),
            value == digits_value(body.subrange(0, i - start)),
            value <= u32::MAX,
        ensures
            value == digits_value(body.subrange(0, digits_until(body, 0))),
            value <= u32::MAX,
        decreases len - i,
    {
        let c: char = s.get_char(i);
        proof {
            assert(c == body[i - start]);
        }
        if !('0' <= c && c <= '9') {
            break;
        }
        let d: u64 = (c as u32 - 48) as u64;
        proof {
            let longer = body.subrange(0, i - start + 1);
            assert(longer.drop_last() =~= body.subrange(0, i - start));
            assert(digits_value(longer) == 10 * value + d);
        }
        value = value * 10 + d;
        i = i + 1;
        if value > 0xffff_ffff {
            proof {
                lemma_prefix_grows(body, i - start);
            }
            return "number too large to fit in target type";
        }
    }
    "invalid digit found in string"
}

proof fn lemma_prefix_grows(s: Seq<char>, k: int)
    requires
        0 <= k <= s.len(),
    ensures
        k <= digits_until(s, k) <= s.len(),
        digits_value(s.subrange(0, k)) <= digits_value(s.subrange(0, digits_until(s, k))),
    decreases s.len() - k,
{
    if k < s.len() && is_digit(s[k]) {
        lemma_prefix_grows(s, k + 1);
        let longer = s.subrange(0, k + 1);
        assert(longer.drop_last() =~= s.subrange(0, k));
        assert(longer.last() == s[k]);
    }
}

/// That `i` is the place of the display that is captured where none is asked for.
pub open spec fn is_preferred(displays: Seq<DisplayInfo>, i: int) -> bool {
    &&& 0 <= i < displays.len()
    &&& forall|j: int| 0 <= j < displays.len() ==> !displays[i].below(#[trigger] displays[j])
    &&& forall|j: int| i < j < displays.len() ==> (#[trigger] displays[j]).below(displays[i])
}

/// That `i` is the place of the first display with a number.
pub open spec fn is_first_with_id(displays: Seq<DisplayInfo>, id: u32, i: int) -> bool {
    &&& 0 <= i < displays.len()
    &&& displays[i].id == id
    &&& forall|j: int| 0 <= j < i ==> (#[trigger] displays[j]).id != id
}

/// Chooses the display to capture: the one that `ST_MACOS_DISPLAY_ID` asks for, or else the
/// one with the most pixels and, among those, the highest number.
pub fn select_capture_display(displays: &Vec<DisplayInfo>, raw: Option<&str>) -> (out: Result<
    usize,
    String,
>)
    ensures
        if displays@.len() == 0 {
            out matches Err(e) && e@ == "No displays found"@
        } else {
            match wanted_display(text_of(raw)) {
                Err(text) => out matches Err(e) && e@ == text,
                Ok(None) => out matches Ok(i) && is_preferred(displays@, i as int),
                Ok(Some(id)) => match out {
                    Ok(i) => is_first_with_id(displays@, id as u32, i as int),
                    Err(e) => (forall|j: int|
                        0 <= j < displays@.len() ==> (#[trigger] displays@[j]).id != id) && e@
                        == "Display "@ + decimal(id)
                        + " requested by ST_MACOS_DISPLAY_ID was not found. Available displays: "@
                        + joined(descriptions(displays@), ", "@),
                },
            }
        },
{
    if displays.len() == 0 {
        return Err("No displays found".to_owned());
    }
    let wanted = match requested_display_id(raw) {
        Ok(wanted) => wanted,
        Err(e) => {
            return Err(e);
        },
    };
    if let Some(id) = wanted {
        let mut i: usize = 0;
        while i < displays.len()
            invariant
                i <= displays@.len(),
                displays@.len() > 0,
                wanted_display(text_of(raw)) == Ok::<Option<nat>, Seq<char>>(Some(id as nat)),
                forall|j: int| 0 <= j < i ==> (#[trigger] displays@[j]).id != id,
            decreases displays@.len() - i,
        {
            if displays[i].id == id {
                return Ok(i);
            }
            i = i + 1;
        }
        let head = concat3(
            "Display ",
            decimal_string(id as u64).as_str(),
            " requested by ST_MACOS_DISPLAY_ID was not found. Available displays: ",
        );
        let out = concat2(head.as_str(), available_displays(displays).as_str());
        return Err(out);
    }
    let mut best: usize = 0;
    let mut i: usize = 1;
    while i < displays.len()
        invariant
            0 <= best < i <= displays@.len(),
            forall|j: int| 0 <= j < i ==> !displays@[best as int].below(#[trigger] displays@[j]),
            forall|j: int|
                best < j < i ==> (#[trigger] displays@[j]).below(displays@[best as int]),
        decreases displays@.len() - i,
    {
        if !is_below(displays[i], displays[best]) {
            best = i;
        }
        i = i + 1;
    }
    Ok(best)
}

fn is_below(a: DisplayInfo, b: DisplayInfo) -> (yes: bool)
    ensures
        yes == a.below(b),
{
    proof {
        assert(0 <= a.area() <= 0xffff_ffff * 0xffff_ffff) by (nonlinear_arith)
            requires
                a.area() == a.width * a.height,
                a.width <= 0xffff_ffff,
                a.height <= 0xffff_ffff,
        ;
        assert(0 <= b.area() <= 0xffff_ffff * 0xffff_ffff) by (nonlinear_arith)
            requires
                b.area() == b.width * b.height,
                b.width <= 0xffff_ffff,
                b.height <= 0xffff_ffff,
        ;
    }
    let x: u64 = a.width as u64 * a.height as u64;
    let y: u64 = b.width as u64 * b.height as u64;
    x < y || (x == y && a.id < b.id)
}

} // verus!
