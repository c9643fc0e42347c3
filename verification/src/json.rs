//! JSON documents as trees of plain values.

use vstd::prelude::*;
use crate::text::same_text;

verus! {

/// A JSON value. Of a number only an unsigned integer is kept.
#[derive(Debug)]
pub enum Json {
    Null,
    Bool(bool),
    Number(Option<u64>),
    Text(String),
    Array(Vec<Json>),
    Object(Vec<(String, Json)>),
}

/// A JSON value as a value of mathematics.
pub ghost enum JsonTree {
    Null,
    Bool(bool),
    Number(Option<u64>),
    Text(Seq<char>),
    Array(Seq<JsonTree>),
    Object(Seq<(Seq<char>, JsonTree)>),
}

impl View for Json {
    type V = JsonTree;

    open spec fn view(&self) -> JsonTree {
        self.tree()
    }
}

impl Json {
    /// The tree of values that this holds.
    pub open spec fn tree(self) -> JsonTree
        decreases self,
    {
        match self {
            Json::Null => JsonTree::Null,
            Json::Bool(b) => JsonTree::Bool(b),
            Json::Number(n) => JsonTree::Number(n),
            Json::Text(s) => JsonTree::Text(s@),
            Json::Array(a) => JsonTree::Array(
                Seq::new(
                    a@.len(),
                    |i: int|
                        if 0 <= i < a@.len() {
                            a@[i].tree()
                        } else {
                            JsonTree::Null
                        },
                ),
            ),
            Json::Object(o) => JsonTree::Object(
                Seq::new(
                    o@.len(),
                    |i: int|
                        if 0 <= i < o@.len() {
                            (o@[i].0@, o@[i].1.tree())
                        } else {
                            (Seq::empty(), JsonTree::Null)
                        },
                ),
            ),
        }
    }

    proof fn lemma_tree(self)
        ensures
            self matches Json::Array(a) ==> self@ matches JsonTree::Array(t) && t.len() == a@.len()
                && forall|i: int| 0 <= i < a@.len() ==> t[i] == (#[trigger] a@[i])@,
            self matches Json::Object(o) ==> self@ matches JsonTree::Object(t) && t.len() == o@.len()
                && forall|i: int|
                0 <= i < o@.len() ==> t[i] == ((#[trigger] o@[i]).0@, o@[i].1@),
    {
    }
}

/// The value behind a name in the first `n` entries of an object: the first one that has
/// the name, and null where none has.
pub open spec fn entry(entries: Seq<(Seq<char>, JsonTree)>, name: Seq<char>) -> JsonTree
    decreases entries.len(),
{
    if entries.len() == 0 {
        JsonTree::Null
    } else if entries[0].0 == name {
        entries[0].1
    } else {
        entry(entries.subrange(1, entries.len() as int), name)
    }
}

impl JsonTree {
    /// The field of an object; null where there is none, and where this is no object.
    pub open spec fn field(self, name: Seq<char>) -> JsonTree {
        match self {
            JsonTree::Object(entries) => entry(entries, name),
            _ => JsonTree::Null,
        }
    }

    /// The elements of an array, and none where this is no array.
    pub open spec fn elements(self) -> Seq<JsonTree> {
        match self {
            JsonTree::Array(a) => a,
            _ => Seq::empty(),
        }
    }

    /// The text, where this is one.
    pub open spec fn text(self) -> Option<Seq<char>> {
        match self {
            JsonTree::Text(s) => Some(s),
            _ => None,
        }
    }

    /// The unsigned integer, where this is one.
    pub open spec fn unsigned(self) -> Option<u64> {
        match self {
            JsonTree::Number(n) => n,
            _ => None,
        }
    }
}

proof fn lemma_entry_is_smaller(entries: Seq<(Seq<char>, JsonTree)>, from: int, name: Seq<char>)
    requires
        0 <= from <= entries.len(),
    ensures
        entry(entries.subrange(from, entries.len() as int), name) == JsonTree::Null || exists|i: int|
            from <= i < entries.len() && entry(
                entries.subrange(from, entries.len() as int),
                name,
            ) == (#[trigger] entries[i]).1,
    decreases entries.len() - from,
{
    let rest = entries.subrange(from, entries.len() as int);
    if rest.len() > 0 {
        assert(rest[0] == entries[from]);
        assert(rest.subrange(1, rest.len() as int) =~= entries.subrange(
            from + 1,
            entries.len() as int,
        ));
        if rest[0].0 != name {
            lemma_entry_is_smaller(entries, from + 1, name);
        }
    }
}

/// An element of an array that is a field of a value is smaller than the value.
pub proof fn element_is_smaller(node: JsonTree, name: Seq<char>, i: int)
    requires
        0 <= i < node.field(name).elements().len(),
    ensures
        decreases_to!(node => node.field(name).elements()[i]),
        decreases_to!(node => node.field(name).elements()),
{
    if let JsonTree::Object(entries) = node {
        assert(entries.subrange(0, entries.len() as int) =~= entries);
        lemma_entry_is_smaller(entries, 0, name);
        let k = choose|k: int|
            0 <= k < entries.len() && entry(entries, name) == (#[trigger] entries[k]).1;
        let value = entries[k].1;
        assert(decreases_to!(node => entries));
        assert(decreases_to!(entries => entries[k]));
        assert(decreases_to!(entries[k] => entries[k].1));
        assert(decreases_to!(node => value));
        if let JsonTree::Array(a) = value {
            assert(decreases_to!(value => a));
            assert(decreases_to!(a => a[i]));
        }
    }
}

impl Json {
    /// The field of an object; `None` where there is none, and where this is no object.
    pub fn get(&self, name: &str) -> (out: Option<&Json>)
        ensures
            match out {
                Some(value) => self@.field(name@) == value@,
                None => self@.field(name@) == JsonTree::Null,
            },
    {
        match self {
            Json::Object(entries) => {
                proof {
                    self.lemma_tree();
                }
                let ghost all = self@->Object_0;
                let mut i: usize = 0;
                proof {
                    assert(all.subrange(0, all.len() as int) =~= all);
                }
                while i < entries.len()
                    invariant
                        *self == Json::Object(*entries),
                        self@ == JsonTree::Object(all),
                        all.len() == entries@.len(),
                        forall|k: int|
                            0 <= k < entries@.len() ==> all[k] == ((#[trigger] entries@[k]).0@, entries@[k].1@),
                        i <= entries@.len(),
                        entry(all, name@) == entry(all.subrange(i as int, all.len() as int), name@),
                    decreases entries@.len() - i,
                {
                    let ghost rest = all.subrange(i as int, all.len() as int);
                    proof {
                        assert(rest[0] == all[i as int]);
                        assert(all[i as int] == (entries@[i as int].0@, entries@[i as int].1@));
                        assert(rest.subrange(1, rest.len() as int) =~= all.subrange(
                            i + 1,
                            all.len() as int,
                        ));
                    }
                    if same_text(entries[i].0.as_str(), name) {
                        return Some(&entries[i].1);
                    }
                    i = i + 1;
                }
                None
            },
            _ => None,
        }
    }

    /// The unsigned integer in a field.
    pub fn unsigned_field(&self, name: &str) -> (out: Option<u64>)
        ensures
            out == self@.field(name@).unsigned(),
    {
        match self.get(name) {
            Some(Json::Number(n)) => *n,
            _ => None,
        }
    }

    /// Whether a field holds `true`.
    pub fn is_true(&self, name: &str) -> (yes: bool)
        ensures
            yes == (self@.field(name@) == JsonTree::Bool(true)),
    {
        match self.get(name) {
            Some(Json::Bool(b)) => *b,
            _ => false,
        }
    }

    /// The text in a field.
    pub fn text_field(&self, name: &str) -> (out: Option<&str>)
        ensures
            match out {
                Some(s) => self@.field(name@).text() == Some(s@),
                None => self@.field(name@).text() is None,
            },
    {
        match self.get(name) {
            Some(Json::Text(s)) => Some(s.as_str()),
            _ => None,
        }
    }

    /// The elements of an array in a field.
    pub fn array_field(&self, name: &str) -> (out: Option<&Vec<Json>>)
        ensures
            match out {
                Some(a) => {
                    &&& self@.field(name@) is Array
                    &&& self@.field(name@).elements().len() == a@.len()
                    &&& forall|i: int|
                        0 <= i < a@.len() ==> self@.field(name@).elements()[i] == (
                        #[trigger] a@[i])@
                },
                None => self@.field(name@) !is Array,
            },
    {
        match self.get(name) {
            Some(Json::Array(a)) => {
                proof {
                    Json::Array(*a).lemma_tree();
                }
                Some(a)
            },
            _ => None,
        }
    }
}

/// A value of the `serde_json` crate.
#[verifier::external_type_specification]
#[verifier::external_body]
pub struct ExJsonValue(serde_json::Value);

/// What a value of the `serde_json` crate holds.
pub uninterp spec fn json_tree(value: serde_json::Value) -> JsonTree;

/// The variants of `serde_json::Value`, one for one: a number is kept where
/// `Number::as_u64` gives one, and the fields of an object in the order in which its map is
/// walked. The plain values hold what the value held.
#[verifier::external_body]
fn plain_json(value: serde_json::Value) -> (out: Json)
    ensures
        out@ == json_tree(value),
{
    match value {
        serde_json::Value::Null => Json::Null,
        serde_json::Value::Bool(b) => Json::Bool(b),
        serde_json::Value::Number(n) => Json::Number(n.as_u64()),
        serde_json::Value::String(s) => Json::Text(s),
        serde_json::Value::Array(a) => Json::Array(a.into_iter().map(plain_json).collect()),
        serde_json::Value::Object(o) => Json::Object(
            o.into_iter().map(|(name, value)| (name, plain_json(value))).collect(),
        ),
    }
}

/// What `serde_json::from_str` makes of a text: a document, or nothing where the text is
/// not one.
pub uninterp spec fn parsed_json(text: Seq<char>) -> Option<JsonTree>;

/// `serde_json::from_str` for any value. The outcome depends on the text alone; which
/// document a text is, is left to that crate. An error is not told from another.
#[verifier::external_body]
fn read_json(text: &str) -> (out: Option<serde_json::Value>)
    ensures
        match out {
            Some(value) => parsed_json(text@) == Some(json_tree(value)),
            None => parsed_json(text@) is None,
        },
{
    serde_json::from_str(text).ok()
}

/// The document that a text is; `None` where it is not one.
pub fn parse_json(text: &str) -> (out: Option<Json>)
    ensures
        match out {
            Some(json) => parsed_json(text@) == Some(json@),
            None => parsed_json(text@) is None,
        },
{
    match read_json(text) {
        Some(value) => Some(plain_json(value)),
        None => None,
    }
}

} // verus!
