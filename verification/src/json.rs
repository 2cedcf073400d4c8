//! JSON documents as plain values.
//!
//! Reading bytes into a document is left to `serde_json`; everything that is
//! done with a document afterwards happens on [`Json`], whose mathematical
//! value is a [`JsonView`].

use crate::views::{option_view, views_of};
use vstd::prelude::*;

verus! {

/// One member of a JSON object.
#[derive(Debug, PartialEq, Eq)]
pub struct Member {
    pub name: String,
    pub value: Json,
}

/// A JSON document.
#[derive(Debug, PartialEq, Eq)]
pub enum Json {
    Null,
    Bool(bool),
    /// A number. The payload is its value where that is an integer from 0 to
    /// `u64::MAX`, and `None` for every other number.
    Number(Option<u64>),
    Text(String),
    Array(Vec<Json>),
    /// The members in the order in which they are held. A name that occurs
    /// more than once is read at its first place.
    Object(Vec<Member>),
}

/// The mathematical value of a [`Json`] document.
pub enum JsonView {
    Null,
    Bool(bool),
    Number(Option<u64>),
    Text(Seq<char>),
    Array(Seq<JsonView>),
    Object(Seq<(Seq<char>, JsonView)>),
}

impl View for Member {
    type V = (Seq<char>, JsonView);

    open spec fn view(&self) -> (Seq<char>, JsonView) {
        (self.name@, self.value@)
    }
}

impl View for Json {
    type V = JsonView;

    open spec fn view(&self) -> JsonView
        decreases self,
    {
        match self {
            Json::Null => JsonView::Null,
            Json::Bool(b) => JsonView::Bool(*b),
            Json::Number(n) => JsonView::Number(*n),
            Json::Text(s) => JsonView::Text(s@),
            Json::Array(items) => JsonView::Array(
                Seq::new(
                    items.len() as nat,
                    |i: int|
                        if 0 <= i < items.len() {
                            items[i]@
                        } else {
                            JsonView::Null
                        },
                ),
            ),
            Json::Object(members) => JsonView::Object(
                Seq::new(
                    members.len() as nat,
                    |i: int|
                        if 0 <= i < members.len() {
                            (members[i].name@, members[i].value@)
                        } else {
                            (Seq::empty(), JsonView::Null)
                        },
                ),
            ),
        }
    }
}

/// The value of the first member called `name` at or after index `from`.
pub open spec fn member_from(
    members: Seq<(Seq<char>, JsonView)>,
    name: Seq<char>,
    from: int,
) -> Option<JsonView>
    decreases members.len() - from,
{
    if from < 0 || from >= members.len() {
        None
    } else if members[from].0 == name {
        Some(members[from].1)
    } else {
        member_from(members, name, from + 1)
    }
}

/// Reads every item with `read`; the whole is `None` as soon as one item is.
pub open spec fn read_each<T>(items: Seq<JsonView>, read: spec_fn(JsonView) -> Option<T>) -> Option<
    Seq<T>,
> {
    if forall|i: int| 0 <= i < items.len() ==> (#[trigger] read(items[i])) is Some {
        Some(Seq::new(items.len(), |i: int| read(items[i])->0))
    } else {
        None
    }
}

/// The documents that `write` makes of the items, in order.
pub open spec fn write_each<T>(items: Seq<T>, write: spec_fn(T) -> JsonView) -> Seq<JsonView> {
    Seq::new(items.len(), |i: int| write(items[i]))
}

/// Items that are written and read again are the same items, where that holds
/// of each of them.
pub proof fn lemma_each_round_trip<T>(
    items: Seq<T>,
    write: spec_fn(T) -> JsonView,
    read: spec_fn(JsonView) -> Option<T>,
)
    requires
        forall|i: int| 0 <= i < items.len() ==> read(write(#[trigger] items[i])) == Some(items[i]),
    ensures
        read_each(write_each(items, write), read) == Some(items),
{
    let written = write_each(items, write);
    assert forall|i: int| 0 <= i < written.len() implies (#[trigger] read(written[i])) is Some by {
        assert(read(write(items[i])) == Some(items[i]));
    }
    assert(read_each(written, read)->0 =~= items) by {
        assert forall|i: int| 0 <= i < items.len() implies read_each(written, read)->0[i]
            == items[i] by {
            assert(read(write(items[i])) == Some(items[i]));
        }
    }
}

impl JsonView {
    /// The value of the member called `name`, where this is an object that has one.
    pub open spec fn member(self, name: Seq<char>) -> Option<JsonView> {
        match self {
            JsonView::Object(members) => member_from(members, name, 0),
            _ => None,
        }
    }

    /// The text of this document, where it is a text.
    pub open spec fn text(self) -> Option<Seq<char>> {
        match self {
            JsonView::Text(s) => Some(s),
            _ => None,
        }
    }

    /// The member `name` as an unsigned integer.
    pub open spec fn u64_member(self, name: Seq<char>) -> Option<u64> {
        match self.member(name) {
            Some(JsonView::Number(Some(n))) => Some(n),
            _ => None,
        }
    }

    /// The member `name` as a boolean.
    pub open spec fn bool_member(self, name: Seq<char>) -> Option<bool> {
        match self.member(name) {
            Some(JsonView::Bool(b)) => Some(b),
            _ => None,
        }
    }

    /// The member `name` as a text.
    pub open spec fn text_member(self, name: Seq<char>) -> Option<Seq<char>> {
        match self.member(name) {
            Some(JsonView::Text(s)) => Some(s),
            _ => None,
        }
    }

    /// The member `name` as a text that may be left out: a missing member and
    /// `null` both read as `Some(None)`, a text as `Some(Some(..))`, and
    /// anything else does not read at all.
    pub open spec fn optional_text_member(self, name: Seq<char>) -> Option<Option<Seq<char>>> {
        match self.member(name) {
            None => Some(None),
            Some(JsonView::Null) => Some(None),
            Some(JsonView::Text(s)) => Some(Some(s)),
            Some(_) => None,
        }
    }

    /// The member `name` as an array.
    pub open spec fn array_member(self, name: Seq<char>) -> Option<Seq<JsonView>> {
        match self.member(name) {
            Some(JsonView::Array(items)) => Some(items),
            _ => None,
        }
    }
}

/// `serde_json::Value`, carried as it is: nothing of its inside is assumed
/// here; what it holds is named by [`content`].
#[verifier::external_type_specification]
#[verifier::external_body]
pub struct ExValue(serde_json::Value);

/// `serde_json::Error`, carried as it is and never looked into.
#[verifier::external_type_specification]
#[verifier::external_body]
pub struct ExSyntaxError(serde_json::Error);

/// The document that `serde_json::from_slice` reads from `bytes` as a
/// `serde_json::Value`, and `None` where it reports an error.
pub uninterp spec fn document(bytes: Seq<u8>) -> Option<JsonView>;

/// The document that a `serde_json::Value` holds: its variant, and what its
/// children hold. A number stands for what `Number::as_u64` gives of it, an
/// object for its entries in the order in which `Map::iter` walks them.
pub uninterp spec fn content(value: serde_json::Value) -> JsonView;

/// The outermost layer of a `serde_json::Value`, with its children unread.
enum Layer<'a> {
    Null,
    Bool(bool),
    Number(Option<u64>),
    Text(&'a str),
    Array(&'a Vec<serde_json::Value>),
    Object(Vec<(&'a String, &'a serde_json::Value)>),
}

impl<'a> Layer<'a> {
    /// The document of which this is the outermost layer.
    spec fn whole(self) -> JsonView {
        match self {
            Layer::Null => JsonView::Null,
            Layer::Bool(b) => JsonView::Bool(b),
            Layer::Number(n) => JsonView::Number(n),
            Layer::Text(s) => JsonView::Text(s@),
            Layer::Array(items) => JsonView::Array(
                Seq::new(items.len() as nat, |i: int| content(items[i])),
            ),
            Layer::Object(entries) => JsonView::Object(
                Seq::new(entries.len() as nat, |i: int| (entries[i].0@, content(*entries[i].1))),
            ),
        }
    }
}

/// `serde_json::from_slice`, reading a `serde_json::Value`. The contract
/// claims that the outcome is a function of the bytes alone: the value holds
/// the document that [`document`] names, and an error comes exactly where
/// [`document`] names none.
#[verifier::external_body]
fn read_value(bytes: &[u8]) -> (r: Result<serde_json::Value, serde_json::Error>)
    ensures
        match r {
            Ok(value) => document(bytes@) == Some(content(value)),
            Err(_) => document(bytes@) is None,
        },
{
    serde_json::from_slice(bytes)
}

/// Tells the six variants of `serde_json::Value` apart. The contract claims
/// that what a value holds is its variant together with what its children
/// hold: a number is given by `Number::as_u64`, an array by its vector, an
/// object by the entries that `Map::iter` walks, in that order.
#[verifier::external_body]
fn outer_layer<'a>(value: &'a serde_json::Value) -> (layer: Layer<'a>)
    ensures
        layer.whole() == content(*value),
{
    match value {
        serde_json::Value::Null => Layer::Null,
        serde_json::Value::Bool(b) => Layer::Bool(*b),
        serde_json::Value::Number(n) => Layer::Number(n.as_u64()),
        serde_json::Value::String(s) => Layer::Text(s.as_str()),
        serde_json::Value::Array(items) => Layer::Array(items),
        serde_json::Value::Object(map) => Layer::Object(map.iter().collect()),
    }
}

/// Copies a `serde_json::Value` into a [`Json`] document, layer by layer.
fn json_of(value: &serde_json::Value) -> (json: Json)
    ensures
        json@ == content(*value),
    decreases content(*value),
{
    match outer_layer(value) {
        Layer::Null => Json::Null,
        Layer::Bool(b) => Json::Bool(b),
        Layer::Number(n) => Json::Number(n),
        Layer::Text(s) => Json::Text(s.to_owned()),
        Layer::Array(items) => {
            let ghost all = Seq::new(items.len() as nat, |i: int| content(items[i]));
            let mut out: Vec<Json> = Vec::new();
            let mut i: usize = 0;
            while i < items.len()
                invariant
                    i <= items.len(),
                    out.len() == i,
                    all == Seq::new(items.len() as nat, |i: int| content(items[i])),
                    content(*value) == JsonView::Array(all),
                    forall|k: int| 0 <= k < i ==> (#[trigger] out[k])@ == all[k],
                decreases items.len() - i,
            {
                proof {
                    broadcast use vstd::seq::axiom_seq_index_decreases;

                    assert(all[i as int] == content(items[i as int]));
                    assert(decreases_to!(content(*value) => content(*value)->Array_0));
                    assert(decreases_to!(all => all[i as int]));
                }
                let child = json_of(&items[i]);
                out.push(child);
                i += 1;
            }
            let json = Json::Array(out);
            proof {
                json.lemma_array_view();
                assert(views_of(out@) =~= all);
            }
            json
        },
        Layer::Object(entries) => {
            let ghost all = Seq::new(
                entries.len() as nat,
                |i: int| (entries[i].0@, content(*entries[i].1)),
            );
            let mut out: Vec<Member> = Vec::new();
            let mut i: usize = 0;
            while i < entries.len()
                invariant
                    i <= entries.len(),
                    out.len() == i,
                    all == Seq::new(
                        entries.len() as nat,
                        |i: int| (entries[i].0@, content(*entries[i].1)),
                    ),
                    content(*value) == JsonView::Object(all),
                    forall|k: int| 0 <= k < i ==> (#[trigger] out[k])@ == all[k],
                decreases entries.len() - i,
            {
                proof {
                    broadcast use vstd::seq::axiom_seq_index_decreases;

                    assert(all[i as int] == (entries[i as int].0@, content(*entries[i as int].1)));
                    assert(decreases_to!(content(*value) => content(*value)->Object_0));
                    assert(decreases_to!(all => all[i as int]));
                    assert(decreases_to!(all[i as int] => all[i as int].1));
                }
                let name = entries[i].0.clone();
                let child = json_of(entries[i].1);
                out.push(Member { name, value: child });
                i += 1;
            }
            let json = Json::Object(out);
            proof {
                json.lemma_object_view();
                assert(views_of(out@) =~= all);
            }
            json
        },
    }
}

impl Json {
    /// The view of an array is the array of the views of its items.
    pub proof fn lemma_array_view(self)
        requires
            self is Array,
        ensures
            self@ == JsonView::Array(views_of(self->Array_0@)),
    {
        reveal_with_fuel(<Json as View>::view, 2);
        assert(self@->Array_0 =~= views_of(self->Array_0@));
    }

    /// The view of an object is the object of the views of its members.
    pub proof fn lemma_object_view(self)
        requires
            self is Object,
        ensures
            self@ == JsonView::Object(views_of(self->Object_0@)),
    {
        reveal_with_fuel(<Json as View>::view, 2);
        assert(self@->Object_0 =~= views_of(self->Object_0@));
    }

    /// Reads a document from `bytes`: `Some` exactly where the bytes are one
    /// JSON text, and then the document that the text denotes.
    pub fn parse(bytes: &[u8]) -> (r: Option<Json>)
        ensures
            match document(bytes@) {
                Some(doc) => r matches Some(json) && json@ == doc,
                None => r is None,
            },
    {
        match read_value(bytes) {
            Ok(value) => Some(json_of(&value)),
            Err(_) => None,
        }
    }

    /// The value of the member called `name`.
    pub fn member(&self, name: &str) -> (r: Option<&Json>)
        ensures
            match self@.member(name@) {
                Some(found) => r matches Some(json) && json@ == found,
                None => r is None,
            },
    {
        match self {
            Json::Object(members) => {
                let key = name.to_owned();
                let ghost all = self@->Object_0;
                proof {
                    self.lemma_object_view();
                }
                let mut i: usize = 0;
                while i < members.len()
                    invariant
                        i <= members.len(),
                        key@ == name@,
                        self@ == JsonView::Object(all),
                        all == views_of(members@),
                        member_from(all, name@, 0) == member_from(all, name@, i as int),
                    decreases members.len() - i,
                {
                    if members[i].name == key {
                        return Some(&members[i].value);
                    }
                    i += 1;
                }
                None
            },
            _ => None,
        }
    }

    /// The member `name` as an unsigned integer.
    pub fn u64_member(&self, name: &str) -> (r: Option<u64>)
        ensures
            r == self@.u64_member(name@),
    {
        match self.member(name) {
            Some(Json::Number(Some(n))) => Some(*n),
            _ => None,
        }
    }

    /// The member `name` as a boolean.
    pub fn bool_member(&self, name: &str) -> (r: Option<bool>)
        ensures
            r == self@.bool_member(name@),
    {
        match self.member(name) {
            Some(Json::Bool(b)) => Some(*b),
            _ => None,
        }
    }

    /// The member `name` as a text.
    pub fn text_member(&self, name: &str) -> (r: Option<String>)
        ensures
            match self@.text_member(name@) {
                Some(text) => r matches Some(s) && s@ == text,
                None => r is None,
            },
    {
        match self.member(name) {
            Some(Json::Text(s)) => Some(s.clone()),
            _ => None,
        }
    }

    /// The member `name` as a text that may be left out or be `null`.
    pub fn optional_text_member(&self, name: &str) -> (r: Option<Option<String>>)
        ensures
            match self@.optional_text_member(name@) {
                Some(Some(text)) => r matches Some(Some(s)) && s@ == text,
                Some(None) => r == Some(None::<String>),
                None => r is None,
            },
    {
        match self.member(name) {
            None => Some(None),
            Some(Json::Null) => Some(None),
            Some(Json::Text(s)) => Some(Some(s.clone())),
            Some(_) => None,
        }
    }

    /// The text of this document, where it is a text.
    pub fn text(&self) -> (r: Option<String>)
        ensures
            option_view(r) == self@.text(),
    {
        match self {
            Json::Text(s) => Some(s.clone()),
            _ => None,
        }
    }

    /// The items of this document, where it is an array.
    pub fn items(&self) -> (r: Option<&Vec<Json>>)
        ensures
            match self@ {
                JsonView::Array(items) => r matches Some(v) && views_of(v@) == items,
                _ => r is None,
            },
    {
        match self {
            Json::Array(items) => {
                proof {
                    self.lemma_array_view();
                }
                Some(items)
            },
            _ => None,
        }
    }

    /// The member `name` as an array.
    pub fn array_member(&self, name: &str) -> (r: Option<&Vec<Json>>)
        ensures
            match self@.array_member(name@) {
                Some(items) => r matches Some(v) && views_of(v@) == items,
                None => r is None,
            },
    {
        match self.member(name) {
            Some(found) => found.items(),
            None => None,
        }
    }
}

} // verus!
