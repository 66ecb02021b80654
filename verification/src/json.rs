//! A tree model of JSON documents and the lookups the feed decoders need.

use crate::error::DecodeError;
use crate::text::text_eq;
use vstd::prelude::*;

verus! {

/// One member of a JSON object: a key and the value stored under it.
#[derive(Debug, PartialEq, Eq)]
pub struct Member {
    pub key: String,
    pub value: Json,
}

/// A JSON value as an owned tree.
#[derive(Debug, PartialEq, Eq)]
pub enum Json {
    Null,
    Bool(bool),
    /// A number. The payload is its value when the number is a non-negative
    /// integer below 2^64, the only kind of number the feeds are read for.
    Number(Option<u64>),
    Text(String),
    Array(Vec<Json>),
    Object(Vec<Member>),
}

/// The mathematical value of a [`Json`] tree.
pub enum JsonValue {
    Null,
    Bool(bool),
    Number(Option<u64>),
    Text(Seq<char>),
    Array(Seq<JsonValue>),
    Object(Seq<(Seq<char>, JsonValue)>),
}

impl View for Json {
    type V = JsonValue;

    open spec fn view(&self) -> JsonValue
        decreases self, 0nat,
    {
        match self {
            Json::Null => JsonValue::Null,
            Json::Bool(b) => JsonValue::Bool(*b),
            Json::Number(n) => JsonValue::Number(*n),
            Json::Text(s) => JsonValue::Text(s@),
            Json::Array(items) => JsonValue::Array(items_view(*items, items.len() as nat)),
            Json::Object(members) => JsonValue::Object(
                members_view(*members, members.len() as nat),
            ),
        }
    }
}

/// The values of the first `n` items of an array.
pub open spec fn items_view(items: Vec<Json>, n: nat) -> Seq<JsonValue>
    decreases items, n,
{
    if n == 0 || n > items.len() {
        Seq::empty()
    } else {
        items_view(items, (n - 1) as nat).push(items[n - 1].view())
    }
}

/// The keys and values of the first `n` members of an object.
pub open spec fn members_view(members: Vec<Member>, n: nat) -> Seq<(Seq<char>, JsonValue)>
    decreases members, n,
{
    if n == 0 || n > members.len() {
        Seq::empty()
    } else {
        members_view(members, (n - 1) as nat).push(
            (members[n - 1].key@, members[n - 1].value.view()),
        )
    }
}

/// An array's view has one value for each item, in order.
pub proof fn lemma_items_view(items: Vec<Json>, n: nat)
    requires
        n <= items.len(),
    ensures
        items_view(items, n).len() == n,
        forall|i: int| 0 <= i < n ==> items_view(items, n)[i] == #[trigger] items[i]@,
    decreases n,
{
    if n > 0 {
        lemma_items_view(items, (n - 1) as nat);
        assert(items_view(items, n) == items_view(items, (n - 1) as nat).push(
            items[n - 1].view(),
        ));
    }
}

/// An object's view has one pair for each member, in order.
pub proof fn lemma_members_view(members: Vec<Member>, n: nat)
    requires
        n <= members.len(),
    ensures
        members_view(members, n).len() == n,
        forall|i: int|
            0 <= i < n ==> members_view(members, n)[i] == (
                (#[trigger] members[i]).key@,
                members[i].value@,
            ),
    decreases n,
{
    if n > 0 {
        lemma_members_view(members, (n - 1) as nat);
        assert(members_view(members, n) == members_view(members, (n - 1) as nat).push(
            (members[n - 1].key@, members[n - 1].value.view()),
        ));
    }
}

/// The value stored under `key` in a list of object members: that of the
/// first member with that key.
pub open spec fn lookup(members: Seq<(Seq<char>, JsonValue)>, key: Seq<char>) -> Option<JsonValue>
    decreases members.len(),
{
    if members.len() == 0 {
        None
    } else if members[0].0 == key {
        Some(members[0].1)
    } else {
        lookup(members.drop_first(), key)
    }
}

/// The values of a sequence of trees, item by item.
pub open spec fn views(items: Seq<Json>) -> Seq<JsonValue> {
    Seq::new(items.len(), |i: int| items[i]@)
}

impl JsonValue {
    /// The member `key` of an object; `None` for a missing key and for a
    /// value that is no object.
    pub open spec fn member(self, key: Seq<char>) -> Option<JsonValue> {
        match self {
            JsonValue::Object(members) => lookup(members, key),
            _ => None,
        }
    }

    /// The member `key` where it is present and not `null`.
    pub open spec fn present(self, key: Seq<char>) -> Option<JsonValue> {
        match self.member(key) {
            Some(JsonValue::Null) => None,
            other => other,
        }
    }

    /// The characters of a text value.
    pub open spec fn text(self) -> Option<Seq<char>> {
        match self {
            JsonValue::Text(t) => Some(t),
            _ => None,
        }
    }

    /// The truth value of a boolean.
    pub open spec fn boolean(self) -> Option<bool> {
        match self {
            JsonValue::Bool(b) => Some(b),
            _ => None,
        }
    }

    /// The value of a number that is a count: a non-negative integer that
    /// fits in `usize`.
    pub open spec fn count(self) -> Option<usize> {
        match self {
            JsonValue::Number(Some(n)) => if n <= usize::MAX {
                Some(n as usize)
            } else {
                None
            },
            _ => None,
        }
    }

    /// The items of an array.
    pub open spec fn items(self) -> Option<Seq<JsonValue>> {
        match self {
            JsonValue::Array(items) => Some(items),
            _ => None,
        }
    }

    /// The text stored under `key`, which has to be there.
    pub open spec fn text_at(self, key: Seq<char>) -> Option<Seq<char>> {
        match self.member(key) {
            Some(value) => value.text(),
            None => None,
        }
    }

    /// The boolean stored under `key`, which has to be there.
    pub open spec fn bool_at(self, key: Seq<char>) -> Option<bool> {
        match self.member(key) {
            Some(value) => value.boolean(),
            None => None,
        }
    }

    /// The count stored under `key`, which has to be there.
    pub open spec fn count_at(self, key: Seq<char>) -> Option<usize> {
        match self.member(key) {
            Some(value) => value.count(),
            None => None,
        }
    }

    /// The items of the array stored under `key`, which has to be there.
    pub open spec fn items_at(self, key: Seq<char>) -> Option<Seq<JsonValue>> {
        match self.member(key) {
            Some(value) => value.items(),
            None => None,
        }
    }

    /// The text stored under `key`, which may be missing or `null`:
    /// `Some(None)` then, and `None` where something other than a text
    /// stands there.
    pub open spec fn optional_text_at(self, key: Seq<char>) -> Option<Option<Seq<char>>> {
        match self.present(key) {
            None => Some(None),
            Some(value) => match value.text() {
                Some(t) => Some(Some(t)),
                None => None,
            },
        }
    }

    /// The boolean stored under `key`, which may be missing or `null`.
    pub open spec fn optional_bool_at(self, key: Seq<char>) -> Option<Option<bool>> {
        match self.present(key) {
            None => Some(None),
            Some(value) => match value.boolean() {
                Some(b) => Some(Some(b)),
                None => None,
            },
        }
    }
}

/// `serde_json::Value`, the parser's own tree. Nothing is read off it here
/// but through [`value_tree`].
#[verifier::external_type_specification]
#[verifier::external_body]
pub struct ExValue(serde_json::Value);

/// `serde_json::Error`, which says where a text stopped being JSON. It is
/// carried, never read.
#[verifier::external_type_specification]
#[verifier::external_body]
pub struct ExSyntaxError(serde_json::Error);

/// The document that a text denotes, or `None` where the text is not JSON:
/// what `serde_json::from_str` makes of the text.
pub uninterp spec fn document_of(text: Seq<char>) -> Option<JsonValue>;

/// The tree that a parsed value holds: its contents, variant by variant, with
/// each number reduced to what `Number::as_u64` gives.
pub uninterp spec fn value_tree(value: serde_json::Value) -> JsonValue;

/// How deep a parsed value nests: more than any value inside it.
pub uninterp spec fn value_depth(value: serde_json::Value) -> nat;

/// Parses a text with `serde_json::from_str`. Believed, not proved: the
/// parser reads nothing but the text, so whether it succeeds and the tree it
/// builds are a function of the text, which [`document_of`] names. It nests
/// at most 128 levels deep and refuses a text that goes deeper.
#[verifier::external_body]
fn parse_value(text: &str) -> (parsed: Result<serde_json::Value, serde_json::Error>)
    ensures
        match parsed {
            Ok(value) => document_of(text@) == Some(value_tree(value)),
            Err(_) => document_of(text@) is None,
        },
{
    serde_json::from_str::<serde_json::Value>(text)
}

/// The top of a parsed value, with what lies inside still unopened.
enum Level {
    Null,
    Bool(bool),
    Number(Option<u64>),
    Text(String),
    Array(Vec<serde_json::Value>),
    Object(Vec<(String, serde_json::Value)>),
}

/// The trees of a sequence of parsed values, one by one.
spec fn value_trees(values: Seq<serde_json::Value>) -> Seq<JsonValue> {
    Seq::new(values.len(), |i: int| value_tree(values[i]))
}

/// The keys of a sequence of members, each with the tree of its value.
spec fn member_trees(members: Seq<(String, serde_json::Value)>) -> Seq<(Seq<char>, JsonValue)> {
    Seq::new(members.len(), |i: int| (members[i].0@, value_tree(members[i].1)))
}

/// The tree of a value whose top is `level`.
spec fn level_tree(level: Level) -> JsonValue {
    match level {
        Level::Null => JsonValue::Null,
        Level::Bool(b) => JsonValue::Bool(b),
        Level::Number(n) => JsonValue::Number(n),
        Level::Text(s) => JsonValue::Text(s@),
        Level::Array(items) => JsonValue::Array(value_trees(items@)),
        Level::Object(members) => JsonValue::Object(member_trees(members@)),
    }
}

/// Whether everything inside `level` nests less deep than `depth`.
spec fn level_below(level: Level, depth: nat) -> bool {
    match level {
        Level::Array(items) => forall|i: int|
            0 <= i < items.len() ==> value_depth(#[trigger] items[i]) < depth,
        Level::Object(members) => forall|i: int|
            0 <= i < members.len() ==> value_depth((#[trigger] members[i]).1) < depth,
        _ => true,
    }
}

/// Opens a `serde_json::Value` one level, one arm for each of its variants. A
/// number is read with `Number::as_u64`; the members of an object come in
/// the order in which its map hands them out. Believed, not proved: the tree
/// that [`value_tree`] names is made of this level and of the trees of what
/// lies inside, each of which nests less deep than the value itself.
#[verifier::external_body]
fn open_value(value: serde_json::Value) -> (level: Level)
    ensures
        level_tree(level) == value_tree(value),
        level_below(level, value_depth(value)),
{
    match value {
        serde_json::Value::Null => Level::Null,
        serde_json::Value::Bool(b) => Level::Bool(b),
        serde_json::Value::Number(n) => Level::Number(n.as_u64()),
        serde_json::Value::String(s) => Level::Text(s),
        serde_json::Value::Array(items) => Level::Array(items),
        serde_json::Value::Object(map) => Level::Object(map.into_iter().collect()),
    }
}

/// Moves a parsed value into a tree of the library's own.
fn tree_of_value(value: serde_json::Value) -> (json: Json)
    ensures
        json@ == value_tree(value),
    decreases value_depth(value),
{
    let ghost depth = value_depth(value);
    match open_value(value) {
        Level::Null => Json::Null,
        Level::Bool(b) => Json::Bool(b),
        Level::Number(n) => Json::Number(n),
        Level::Text(s) => Json::Text(s),
        Level::Array(values) => {
            let ghost all = values@;
            let mut items: Vec<Json> = Vec::new();
            for inner in it: values
                invariant
                    it.seq() == all,
                    depth == value_depth(value),
                    forall|i: int| 0 <= i < all.len() ==> value_depth(#[trigger] all[i]) < depth,
                    items.len() == it.index(),
                    forall|i: int|
                        0 <= i < items.len() ==> (#[trigger] items[i])@ == value_tree(all[i]),
            {
                items.push(tree_of_value(inner));
            }
            proof {
                lemma_items_view(items, items.len() as nat);
                assert forall|i: int| 0 <= i < items.len() implies items_view(
                    items,
                    items.len() as nat,
                )[i] == value_trees(all)[i] by {
                    assert(items[i]@ == value_tree(all[i]));
                }
                assert(items_view(items, items.len() as nat) =~= value_trees(all));
            }
            Json::Array(items)
        },
        Level::Object(pairs) => {
            let ghost all = pairs@;
            let mut members: Vec<Member> = Vec::new();
            for pair in it: pairs
                invariant
                    it.seq() == all,
                    depth == value_depth(value),
                    forall|i: int|
                        0 <= i < all.len() ==> value_depth((#[trigger] all[i]).1) < depth,
                    members.len() == it.index(),
                    forall|i: int|
                        0 <= i < members.len() ==> (#[trigger] members[i]).key@ == all[i].0@
                            && members[i].value@ == value_tree(all[i].1),
            {
                let (key, inner) = pair;
                members.push(Member { key, value: tree_of_value(inner) });
            }
            proof {
                lemma_members_view(members, members.len() as nat);
                assert forall|i: int| 0 <= i < members.len() implies members_view(
                    members,
                    members.len() as nat,
                )[i] == member_trees(all)[i] by {
                    assert(members[i].value@ == value_tree(all[i].1));
                }
                assert(members_view(members, members.len() as nat) =~= member_trees(all));
            }
            Json::Object(members)
        },
    }
}

impl Json {
    /// Parses a JSON text.
    pub fn parse(text: &str) -> (parsed: Result<Json, DecodeError>)
        ensures
            match parsed {
                Ok(json) => document_of(text@) == Some(json@),
                Err(e) => e == DecodeError::Syntax && document_of(text@) is None,
            },
    {
        match parse_value(text) {
            Ok(value) => Ok(tree_of_value(value)),
            Err(_) => Err(DecodeError::Syntax),
        }
    }

    /// The member `key` of an object.
    pub fn get(&self, key: &str) -> (found: Option<&Json>)
        ensures
            match found {
                Some(value) => self@.member(key@) == Some(value@),
                None => self@.member(key@) is None,
            },
    {
        match self {
            Json::Object(members) => {
                let ghost all = self@->Object_0;
                proof {
                    lemma_members_view(*members, members.len() as nat);
                    assert(all.skip(0) =~= all);
                }
                let mut i: usize = 0;
                while i < members.len()
                    invariant
                        i <= members.len(),
                        self@ == JsonValue::Object(all),
                        all.len() == members.len(),
                        forall|j: int|
                            0 <= j < members.len() ==> all[j] == (
                                members[j].key@,
                                members[j].value@,
                            ),
                        lookup(all, key@) == lookup(all.skip(i as int), key@),
                    decreases members.len() - i,
                {
                    if text_eq(members[i].key.as_str(), key) {
                        return Some(&members[i].value);
                    }
                    proof {
                        assert(all.skip(i as int).drop_first() =~= all.skip(i as int + 1));
                    }
                    i += 1;
                }
                None
            },
            _ => None,
        }
    }

    /// The member `key` where it is present and not `null`.
    pub fn get_present(&self, key: &str) -> (found: Option<&Json>)
        ensures
            match found {
                Some(value) => self@.present(key@) == Some(value@),
                None => self@.present(key@) is None,
            },
    {
        match self.get(key) {
            Some(Json::Null) => None,
            other => other,
        }
    }

    /// Whether the value is an object.
    pub fn is_object(&self) -> (yes: bool)
        ensures
            yes == (self@ is Object),
    {
        match self {
            Json::Object(_) => true,
            _ => false,
        }
    }

    /// The characters of a text value.
    pub fn as_text(&self) -> (text: Option<&String>)
        ensures
            match text {
                Some(t) => self@.text() == Some(t@),
                None => self@.text() is None,
            },
    {
        match self {
            Json::Text(t) => Some(t),
            _ => None,
        }
    }

    /// The items of an array.
    pub fn as_items(&self) -> (items: Option<&Vec<Json>>)
        ensures
            match items {
                Some(v) => self@.items() == Some(views(v@)),
                None => self@.items() is None,
            },
    {
        match self {
            Json::Array(items) => {
                proof {
                    lemma_items_view(*items, items.len() as nat);
                }
                Some(items)
            },
            _ => None,
        }
    }

    /// The text stored under `key`, which has to be there.
    pub fn text_at(&self, key: &str) -> (text: Result<String, DecodeError>)
        ensures
            match text {
                Ok(t) => self@.text_at(key@) == Some(t@),
                Err(e) => e == DecodeError::Shape && self@.text_at(key@) is None,
            },
    {
        match self.get(key) {
            Some(Json::Text(t)) => Ok(t.clone()),
            _ => Err(DecodeError::Shape),
        }
    }

    /// The boolean stored under `key`, which has to be there.
    pub fn bool_at(&self, key: &str) -> (flag: Result<bool, DecodeError>)
        ensures
            match flag {
                Ok(b) => self@.bool_at(key@) == Some(b),
                Err(e) => e == DecodeError::Shape && self@.bool_at(key@) is None,
            },
    {
        match self.get(key) {
            Some(Json::Bool(b)) => Ok(*b),
            _ => Err(DecodeError::Shape),
        }
    }

    /// The count stored under `key`, which has to be there.
    pub fn count_at(&self, key: &str) -> (count: Result<usize, DecodeError>)
        ensures
            match count {
                Ok(n) => self@.count_at(key@) == Some(n),
                Err(e) => e == DecodeError::Shape && self@.count_at(key@) is None,
            },
    {
        match self.get(key) {
            Some(Json::Number(Some(n))) => {
                if *n <= usize::MAX as u64 {
                    Ok(*n as usize)
                } else {
                    Err(DecodeError::Shape)
                }
            },
            _ => Err(DecodeError::Shape),
        }
    }

    /// The items of the array stored under `key`, which has to be there.
    pub fn items_at(&self, key: &str) -> (items: Result<&Vec<Json>, DecodeError>)
        ensures
            match items {
                Ok(v) => self@.items_at(key@) == Some(views(v@)),
                Err(e) => e == DecodeError::Shape && self@.items_at(key@) is None,
            },
    {
        match self.get(key) {
            Some(value) => match value.as_items() {
                Some(items) => Ok(items),
                None => Err(DecodeError::Shape),
            },
            None => Err(DecodeError::Shape),
        }
    }

    /// The text stored under `key`, which may be missing or `null`.
    pub fn optional_text_at(&self, key: &str) -> (text: Result<Option<String>, DecodeError>)
        ensures
            match text {
                Ok(Some(t)) => self@.optional_text_at(key@) == Some(Some(t@)),
                Ok(None) => self@.optional_text_at(key@) == Some(None::<Seq<char>>),
                Err(e) => e == DecodeError::Shape && self@.optional_text_at(key@) is None,
            },
    {
        match self.get_present(key) {
            None => Ok(None),
            Some(Json::Text(t)) => Ok(Some(t.clone())),
            Some(_) => Err(DecodeError::Shape),
        }
    }

    /// The boolean stored under `key`, which may be missing or `null`.
    pub fn optional_bool_at(&self, key: &str) -> (flag: Result<Option<bool>, DecodeError>)
        ensures
            match flag {
                Ok(b) => self@.optional_bool_at(key@) == Some(b),
                Err(e) => e == DecodeError::Shape && self@.optional_bool_at(key@) is None,
            },
    {
        match self.get_present(key) {
            None => Ok(None),
            Some(Json::Bool(b)) => Ok(Some(*b)),
            Some(_) => Err(DecodeError::Shape),
        }
    }
}

} // verus!
