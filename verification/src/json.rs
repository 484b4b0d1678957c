//! JSON values as the library reads and writes them.
//!
//! The text of a JSON document is read and written by `serde_json`. What stands between
//! that text and the records of the library is [`Json`], a plain tree, and the two traits
//! [`Decode`] and [`Encode`] by which a record says which trees stand for it.

use serde_json::Value;
use vstd::prelude::*;
use vstd::utf8::valid_utf8;
use crate::text::same_text;

verus! {

/// A JSON value.
///
/// A number that fits an `i64` is an `Int`; any other number is a `Real` and keeps the
/// text that `serde_json` prints for it. An object keeps its entries in a list, in the
/// order in which they were written; where a key stands twice, the later entry counts.
#[derive(Debug)]
pub enum Json {
    Null,
    Bool(bool),
    Int(i64),
    Real(String),
    String(String),
    Array(Vec<Json>),
    Object(Vec<(String, Json)>),
}

/// The mathematical value of a [`Json`].
pub enum JsonView {
    Null,
    Bool(bool),
    Int(i64),
    Real(Seq<char>),
    String(Seq<char>),
    Array(Seq<JsonView>),
    Object(Seq<(Seq<char>, JsonView)>),
}

/// The mathematical value of `value`.
pub open spec fn tree(value: Json) -> JsonView
    decreases value,
{
    match value {
        Json::Null => JsonView::Null,
        Json::Bool(b) => JsonView::Bool(b),
        Json::Int(n) => JsonView::Int(n),
        Json::Real(t) => JsonView::Real(t@),
        Json::String(t) => JsonView::String(t@),
        Json::Array(items) => JsonView::Array(
            Seq::new(
                items@.len(),
                |i: int|
                    if 0 <= i < items@.len() {
                        tree(items@[i])
                    } else {
                        JsonView::Null
                    },
            ),
        ),
        Json::Object(entries) => JsonView::Object(
            Seq::new(
                entries@.len(),
                |i: int|
                    if 0 <= i < entries@.len() {
                        (entries@[i].0@, tree(entries@[i].1))
                    } else {
                        (Seq::empty(), JsonView::Null)
                    },
            ),
        ),
    }
}

impl View for Json {
    type V = JsonView;

    open spec fn view(&self) -> JsonView {
        tree(*self)
    }
}

/// The value of the last entry of `entries` whose key is `name`. Where a key stands
/// twice, the later entry counts, as it does where `serde_json` reads or prints an object.
pub open spec fn last_entry(entries: Seq<(Seq<char>, JsonView)>, name: Seq<char>) -> Option<
    JsonView,
>
    decreases entries.len(),
{
    if entries.len() == 0 {
        None
    } else if entries.last().0 == name {
        Some(entries.last().1)
    } else {
        last_entry(entries.drop_last(), name)
    }
}

/// The entry at `at` is the last under its key where no entry after it has that key.
pub proof fn entry_is_at(entries: Seq<(Seq<char>, JsonView)>, at: int)
    requires
        0 <= at < entries.len(),
        forall|k: int| at < k < entries.len() ==> (#[trigger] entries[k]).0 != entries[at].0,
    ensures
        last_entry(entries, entries[at].0) == Some(entries[at].1),
    decreases entries.len() - at,
{
    if at < entries.len() - 1 {
        let rest = entries.drop_last();
        assert(entries.last() == entries[entries.len() - 1]);
        assert(entries[entries.len() - 1].0 != entries[at].0);
        assert(rest[at] == entries[at]);
        assert forall|k: int| at < k < rest.len() implies (#[trigger] rest[k]).0 != rest[at].0 by {
            assert(rest[k] == entries[k]);
        }
        entry_is_at(rest, at);
    }
}

impl JsonView {
    /// The value kept under `name`, where this is an object with such an entry: that of
    /// the last one.
    pub open spec fn field(self, name: Seq<char>) -> Option<JsonView> {
        match self {
            JsonView::Object(entries) => last_entry(entries, name),
            _ => None,
        }
    }

    /// The value kept under `name`, where this is an object with such an entry and the
    /// value is not `null`.
    pub open spec fn present(self, name: Seq<char>) -> Option<JsonView> {
        match self.field(name) {
            Some(JsonView::Null) => None,
            other => other,
        }
    }

    pub open spec fn text(self) -> Option<Seq<char>> {
        match self {
            JsonView::String(t) => Some(t),
            _ => None,
        }
    }

    pub open spec fn integer(self) -> Option<i64> {
        match self {
            JsonView::Int(n) => Some(n),
            _ => None,
        }
    }

    pub open spec fn boolean(self) -> Option<bool> {
        match self {
            JsonView::Bool(b) => Some(b),
            _ => None,
        }
    }

    pub open spec fn items(self) -> Option<Seq<JsonView>> {
        match self {
            JsonView::Array(items) => Some(items),
            _ => None,
        }
    }

    pub open spec fn entries(self) -> Option<Seq<(Seq<char>, JsonView)>> {
        match self {
            JsonView::Object(entries) => Some(entries),
            _ => None,
        }
    }

    pub open spec fn text_field(self, name: Seq<char>) -> Option<Seq<char>> {
        match self.field(name) {
            Some(value) => value.text(),
            None => None,
        }
    }

    pub open spec fn integer_field(self, name: Seq<char>) -> Option<i64> {
        match self.field(name) {
            Some(value) => value.integer(),
            None => None,
        }
    }

    pub open spec fn bool_field(self, name: Seq<char>) -> Option<bool> {
        match self.field(name) {
            Some(value) => value.boolean(),
            None => None,
        }
    }

    /// The text kept under `name`, if any: `Some(None)` where the entry is missing or
    /// `null`, `None` where it holds something that is no text.
    pub open spec fn optional_text_field(self, name: Seq<char>) -> Option<Option<Seq<char>>> {
        match self.present(name) {
            None => Some(None),
            Some(JsonView::String(t)) => Some(Some(t)),
            Some(_) => None,
        }
    }

    /// The integer kept under `name`, if any: `Some(None)` where the entry is missing or
    /// `null`, `None` where it holds something that is no integer.
    pub open spec fn optional_integer_field(self, name: Seq<char>) -> Option<Option<i64>> {
        match self.present(name) {
            None => Some(None),
            Some(JsonView::Int(n)) => Some(Some(n)),
            Some(_) => None,
        }
    }

    /// The truth value kept under `name`, if any: `Some(None)` where the entry is missing
    /// or `null`, `None` where it holds something that is no truth value.
    pub open spec fn optional_bool_field(self, name: Seq<char>) -> Option<Option<bool>> {
        match self.present(name) {
            None => Some(None),
            Some(JsonView::Bool(b)) => Some(Some(b)),
            Some(_) => None,
        }
    }
}

/// The mathematical value of the entries of an object.
pub open spec fn entries_view(entries: Seq<(String, Json)>) -> Seq<(Seq<char>, JsonView)> {
    Seq::new(entries.len(), |i: int| (entries[i].0@, entries[i].1@))
}

impl Json {
    /// The value kept under `name`, where this is an object with such an entry: that of
    /// the last one.
    pub fn field(&self, name: &str) -> (found: Option<&Json>)
        ensures
            found.deep_view() == self@.field(name@),
    {
        match self {
            Json::Object(entries) => {
                let ghost all = self@.entries().unwrap();
                let mut i: usize = entries.len();
                assert(all.take(i as int) =~= all);
                while i > 0
                    invariant
                        i <= entries@.len(),
                        self@ == JsonView::Object(all),
                        all.len() == entries@.len(),
                        forall|k: int|
                            0 <= k < all.len() ==> all[k] == (
                                #[trigger] entries@[k].0@,
                                entries@[k].1@,
                            ),
                        last_entry(all, name@) == last_entry(all.take(i as int), name@),
                    decreases i,
                {
                    i -= 1;
                    let entry = &entries[i];
                    proof {
                        let upto = all.take(i + 1);
                        assert(upto.last() == all[i as int]);
                        assert(all[i as int] == (entries@[i as int].0@, entries@[i as int].1@));
                        assert(upto.drop_last() =~= all.take(i as int));
                    }
                    if same_text(entry.0.as_str(), name) {
                        return Some(&entry.1);
                    }
                }
                None
            },
            _ => None,
        }
    }

    /// The value kept under `name`, where this is an object with such an entry and the
    /// value is not `null`.
    pub fn present(&self, name: &str) -> (found: Option<&Json>)
        ensures
            found.deep_view() == self@.present(name@),
    {
        match self.field(name) {
            Some(Json::Null) => None,
            other => other,
        }
    }

    /// The entries, where this is an object.
    pub fn entries(&self) -> (found: Option<&Vec<(String, Json)>>)
        ensures
            match found {
                Some(entries) => self@ == JsonView::Object(entries_view(entries@)),
                None => self@.entries() is None,
            },
    {
        match self {
            Json::Object(entries) => {
                assert(self@->Object_0 =~= entries_view(entries@));
                Some(entries)
            },
            _ => None,
        }
    }

    /// A copy of this value.
    pub fn duplicate(&self) -> (copy: Json)
        ensures
            copy@ == self@,
        decreases self,
    {
        match self {
            Json::Null => Json::Null,
            Json::Bool(b) => Json::Bool(*b),
            Json::Int(n) => Json::Int(*n),
            Json::Real(t) => Json::Real(t.clone()),
            Json::String(t) => Json::String(t.clone()),
            Json::Array(items) => {
                let mut copies: Vec<Json> = Vec::new();
                let mut i: usize = 0;
                while i < items.len()
                    invariant
                        i <= items@.len(),
                        copies@.len() == i,
                        *self == Json::Array(*items),
                        forall|k: int| 0 <= k < i ==> (#[trigger] copies@[k])@ == items@[k]@,
                    decreases items@.len() - i,
                {
                    proof {
                        assert(decreases_to!(*self => self->Array_0));
                        assert(decreases_to!(self->Array_0 => self->Array_0@));
                        assert(decreases_to!(self->Array_0@ => self->Array_0@[i as int]));
                    }
                    copies.push(items[i].duplicate());
                    i += 1;
                }
                let copy = Json::Array(copies);
                assert(copy@->Array_0 =~= self@->Array_0);
                copy
            },
            Json::Object(entries) => {
                let mut copies: Vec<(String, Json)> = Vec::new();
                let mut i: usize = 0;
                while i < entries.len()
                    invariant
                        i <= entries@.len(),
                        copies@.len() == i,
                        *self == Json::Object(*entries),
                        forall|k: int|
                            0 <= k < i ==> (#[trigger] copies@[k]).0@ == entries@[k].0@
                                && copies@[k].1@ == entries@[k].1@,
                    decreases entries@.len() - i,
                {
                    proof {
                        assert(decreases_to!(*self => self->Object_0));
                        assert(decreases_to!(self->Object_0 => self->Object_0@));
                        assert(decreases_to!(self->Object_0@ => self->Object_0@[i as int]));
                        assert(decreases_to!(self->Object_0@[i as int] => self->Object_0@[i as int].1));
                    }
                    copies.push((entries[i].0.clone(), entries[i].1.duplicate()));
                    i += 1;
                }
                let copy = Json::Object(copies);
                assert(copy@->Object_0 =~= self@->Object_0);
                copy
            },
        }
    }

    pub fn text(&self) -> (found: Option<&String>)
        ensures
            found.deep_view() == self@.text(),
    {
        match self {
            Json::String(t) => Some(t),
            _ => None,
        }
    }

    pub fn integer(&self) -> (found: Option<i64>)
        ensures
            found == self@.integer(),
    {
        match self {
            Json::Int(n) => Some(*n),
            _ => None,
        }
    }

    pub fn boolean(&self) -> (found: Option<bool>)
        ensures
            found == self@.boolean(),
    {
        match self {
            Json::Bool(b) => Some(*b),
            _ => None,
        }
    }

    pub fn text_field(&self, name: &str) -> (found: Option<String>)
        ensures
            found.deep_view() == self@.text_field(name@),
    {
        match self.field(name) {
            Some(Json::String(t)) => Some(t.clone()),
            _ => None,
        }
    }

    pub fn integer_field(&self, name: &str) -> (found: Option<i64>)
        ensures
            found == self@.integer_field(name@),
    {
        match self.field(name) {
            Some(Json::Int(n)) => Some(*n),
            _ => None,
        }
    }

    pub fn bool_field(&self, name: &str) -> (found: Option<bool>)
        ensures
            found == self@.bool_field(name@),
    {
        match self.field(name) {
            Some(Json::Bool(b)) => Some(*b),
            _ => None,
        }
    }

    pub fn optional_text_field(&self, name: &str) -> (found: Option<Option<String>>)
        ensures
            found.deep_view() == self@.optional_text_field(name@),
    {
        match self.present(name) {
            None => Some(None),
            Some(Json::String(t)) => Some(Some(t.clone())),
            Some(_) => None,
        }
    }

    pub fn optional_integer_field(&self, name: &str) -> (found: Option<Option<i64>>)
        ensures
            found == self@.optional_integer_field(name@),
    {
        match self.present(name) {
            None => Some(None),
            Some(Json::Int(n)) => Some(Some(*n)),
            Some(_) => None,
        }
    }

    pub fn optional_bool_field(&self, name: &str) -> (found: Option<Option<bool>>)
        ensures
            found == self@.optional_bool_field(name@),
    {
        match self.present(name) {
            None => Some(None),
            Some(Json::Bool(b)) => Some(Some(*b)),
            Some(_) => None,
        }
    }
}

/// Starts the entries of an object.
pub fn no_entries() -> (entries: Vec<(String, Json)>)
    ensures
        entries_view(entries@) == Seq::<(Seq<char>, JsonView)>::empty(),
{
    let entries: Vec<(String, Json)> = Vec::new();
    assert(entries_view(entries@) =~= Seq::empty());
    entries
}

/// Adds an entry at the end of the entries of an object.
pub fn put(entries: &mut Vec<(String, Json)>, name: &str, value: Json)
    ensures
        entries_view(final(entries)@) == entries_view(old(entries)@).push((name@, value@)),
{
    entries.push((name.to_owned(), value));
    assert(entries_view(entries@) =~= entries_view(old(entries)@).push((name@, value@)));
}

/// The object with the given entries.
pub fn object(entries: Vec<(String, Json)>) -> (value: Json)
    ensures
        value@ == JsonView::Object(entries_view(entries@)),
{
    let value = Json::Object(entries);
    assert(value@->Object_0 =~= entries_view(entries@));
    value
}

/// A record that can be read from a JSON value.
pub trait Decode: Sized + DeepView {
    /// The record that `value` stands for, if it stands for one.
    spec fn decoded(value: JsonView) -> Option<<Self as DeepView>::V>;

    /// Reads the record that `value` stands for.
    fn decode(value: &Json) -> (record: Option<Self>)
        ensures
            record.deep_view() == Self::decoded(value@),
    ;
}

/// A record that can be written as a JSON value.
pub trait Encode: DeepView {
    /// The value that stands for `record`.
    spec fn encoded(record: <Self as DeepView>::V) -> JsonView;

    /// Writes the value that stands for this record.
    fn encode(&self) -> (value: Json)
        ensures
            value@ == Self::encoded(self.deep_view()),
    ;
}

impl DeepView for Json {
    type V = JsonView;

    open spec fn deep_view(&self) -> JsonView {
        self@
    }
}

/// Any value can be read as itself.
impl Decode for Json {
    open spec fn decoded(value: JsonView) -> Option<JsonView> {
        Some(value)
    }

    fn decode(value: &Json) -> (record: Option<Json>) {
        Some(value.duplicate())
    }
}

/// A value is written as itself.
impl Encode for Json {
    open spec fn encoded(record: JsonView) -> JsonView {
        record
    }

    fn encode(&self) -> (value: Json) {
        self.duplicate()
    }
}

/// A list is read from an array whose every item can be read.
impl<T: Decode> Decode for Vec<T> {
    open spec fn decoded(value: JsonView) -> Option<Seq<<T as DeepView>::V>> {
        match value {
            JsonView::Array(items) => if forall|i: int|
                0 <= i < items.len() ==> (#[trigger] T::decoded(items[i])) is Some {
                Some(Seq::new(items.len(), |i: int| T::decoded(items[i]).unwrap()))
            } else {
                None
            },
            _ => None,
        }
    }

    fn decode(value: &Json) -> (record: Option<Vec<T>>) {
        match value {
            Json::Array(items) => {
                let ghost all = value@.items().unwrap();
                let mut list: Vec<T> = Vec::new();
                let mut i: usize = 0;
                while i < items.len()
                    invariant
                        i <= items@.len(),
                        value@ == JsonView::Array(all),
                        all.len() == items@.len(),
                        forall|k: int| 0 <= k < all.len() ==> all[k] == (#[trigger] items@[k])@,
                        list@.len() == i,
                        forall|k: int|
                            0 <= k < i ==> T::decoded(all[k]) == Some(
                                (#[trigger] list@[k]).deep_view(),
                            ),
                    decreases items@.len() - i,
                {
                    match T::decode(&items[i]) {
                        Some(item) => {
                            list.push(item);
                        },
                        None => {
                            assert(T::decoded(all[i as int]) is None);
                            return None;
                        },
                    }
                    i += 1;
                }
                proof {
                    assert forall|k: int| 0 <= k < all.len() implies (#[trigger] T::decoded(
                        all[k],
                    )) is Some by {
                        assert(T::decoded(all[k]) == Some(list@[k].deep_view()));
                    }
                    let expected = Seq::new(all.len(), |k: int| T::decoded(all[k]).unwrap());
                    assert forall|k: int| 0 <= k < all.len() implies list.deep_view()[k]
                        == expected[k] by {
                        assert(T::decoded(all[k]) == Some(list@[k].deep_view()));
                    }
                    assert(list.deep_view() =~= expected);
                }
                Some(list)
            },
            _ => None,
        }
    }
}

/// The record that `value` keeps under `name`.
pub open spec fn required_field<T: Decode>(value: JsonView, name: Seq<char>) -> Option<
    <T as DeepView>::V,
> {
    match value.field(name) {
        Some(kept) => T::decoded(kept),
        None => None,
    }
}

/// The record that `value` keeps under `name`, if any: `Some(None)` where the entry is
/// missing or `null`, `None` where it holds something that is no such record.
pub open spec fn optional_field<T: Decode>(value: JsonView, name: Seq<char>) -> Option<
    Option<<T as DeepView>::V>,
> {
    match value.present(name) {
        None => Some(None),
        Some(kept) => match T::decoded(kept) {
            Some(record) => Some(Some(record)),
            None => None,
        },
    }
}

/// Reads the record that `value` keeps under `name`.
pub fn read_required<T: Decode>(value: &Json, name: &str) -> (record: Option<T>)
    ensures
        record.deep_view() == required_field::<T>(value@, name@),
{
    match value.field(name) {
        Some(kept) => T::decode(kept),
        None => None,
    }
}

/// Reads the record that `value` keeps under `name`, if any.
pub fn read_optional<T: Decode>(value: &Json, name: &str) -> (record: Option<Option<T>>)
    ensures
        record.deep_view() == optional_field::<T>(value@, name@),
{
    match value.present(name) {
        None => Some(None),
        Some(kept) => match T::decode(kept) {
            Some(record) => Some(Some(record)),
            None => None,
        },
    }
}

/// An integer is written as itself.
impl Encode for i64 {
    open spec fn encoded(record: i64) -> JsonView {
        JsonView::Int(record)
    }

    fn encode(&self) -> (value: Json) {
        Json::Int(*self)
    }
}

/// A truth value is written as itself.
impl Encode for bool {
    open spec fn encoded(record: bool) -> JsonView {
        JsonView::Bool(record)
    }

    fn encode(&self) -> (value: Json) {
        Json::Bool(*self)
    }
}

/// A list is written as the array of its items.
impl<T: Encode> Encode for Vec<T> {
    open spec fn encoded(record: Seq<<T as DeepView>::V>) -> JsonView {
        JsonView::Array(Seq::new(record.len(), |i: int| T::encoded(record[i])))
    }

    fn encode(&self) -> (value: Json) {
        let mut items: Vec<Json> = Vec::new();
        let mut i: usize = 0;
        while i < self.len()
            invariant
                i <= self@.len(),
                items@.len() == i,
                forall|k: int|
                    0 <= k < i ==> (#[trigger] items@[k])@ == T::encoded(self@[k].deep_view()),
            decreases self@.len() - i,
        {
            items.push(self[i].encode());
            i += 1;
        }
        let value = Json::Array(items);
        assert(value@->Array_0 =~= Self::encoded(self.deep_view())->Array_0);
        value
    }
}

/// What may be missing is written as `null` where it is.
impl<T: Encode> Encode for Option<T> {
    open spec fn encoded(record: Option<<T as DeepView>::V>) -> JsonView {
        match record {
            Some(inner) => T::encoded(inner),
            None => JsonView::Null,
        }
    }

    fn encode(&self) -> (value: Json) {
        match self {
            Some(inner) => inner.encode(),
            None => Json::Null,
        }
    }
}

#[verifier::external_type_specification]
#[verifier::external_body]
pub struct ExJsonValue(serde_json::Value);

/// Why a JSON document could not be read or written.
#[derive(Debug, PartialEq, Eq)]
pub enum JsonError {
    /// The bytes are not UTF-8.
    Utf8,
    /// `serde_json` reported an error: this one, in its own words.
    Syntax(String),
    /// The document is JSON, but does not stand for the record that was asked for.
    Shape,
}

/// The mathematical value of a [`JsonError`].
pub enum JsonFault {
    Utf8,
    Syntax(Seq<char>),
    Shape,
}

impl View for JsonError {
    type V = JsonFault;

    open spec fn view(&self) -> JsonFault {
        match self {
            JsonError::Utf8 => JsonFault::Utf8,
            JsonError::Syntax(message) => JsonFault::Syntax(message@),
            JsonError::Shape => JsonFault::Shape,
        }
    }
}

/// What `serde_json::from_slice` makes of `bytes`, read as a `serde_json::Value`: the
/// value, or the error in the words in which `serde_json` prints it.
pub uninterp spec fn json_parse(bytes: Seq<u8>) -> Result<JsonView, Seq<char>>;

/// What `serde_json::to_string` makes of the `serde_json::Value` that stands for `value`:
/// the text, or the error in the words in which `serde_json` prints it. The error may
/// also be that of `serde_json::Number::from_str`, on a `Real` that is no number.
pub uninterp spec fn json_print(value: JsonView) -> Result<Seq<char>, Seq<char>>;

/// Turns a `serde_json::Value` into a [`Json`], variant by variant. A number becomes an
/// `Int` where `serde_json::Number::as_i64` gives one, else a `Real` with the text that
/// the number prints as. The entries of an object come in the order in which its map
/// hands them out, which is that in which they were put in.
#[verifier::external_body]
fn from_value(value: serde_json::Value) -> Json {
    match value {
        serde_json::Value::Null => Json::Null,
        serde_json::Value::Bool(b) => Json::Bool(b),
        serde_json::Value::Number(n) => match n.as_i64() {
            Some(i) => Json::Int(i),
            None => Json::Real(n.to_string()),
        },
        serde_json::Value::String(s) => Json::String(s),
        serde_json::Value::Array(a) => Json::Array(a.into_iter().map(from_value).collect()),
        serde_json::Value::Object(m) => Json::Object(
            m.into_iter().map(|(k, v)| (k, from_value(v))).collect(),
        ),
    }
}

/// Calls `serde_json::Number::from_str` on the text of a `Real`; an error is handed on
/// as the text it prints as.
#[verifier::external_body]
fn to_number(text: &str) -> Result<Value, String> {
    match text.parse::<serde_json::Number>() {
        Ok(number) => Ok(Value::Number(number)),
        Err(e) => Err(e.to_string()),
    }
}

/// Turns a [`Json`] into a `serde_json::Value`, variant by variant. An error in reading
/// the text of a `Real` as a number ends the conversion. The entries of an object are
/// put into its map in their order.
#[verifier::external_body]
fn to_value(value: &Json) -> Result<Value, String> {
    Ok(match value {
        Json::Null => Value::Null,
        Json::Bool(b) => Value::Bool(*b),
        Json::Int(i) => Value::Number((*i).into()),
        Json::Real(t) => to_number(t)?,
        Json::String(s) => Value::String(s.clone()),
        Json::Array(a) => Value::Array(a.iter().map(to_value).collect::<Result<_, _>>()?),
        Json::Object(m) => Value::Object(
            m.iter().map(|(k, v)| Ok((k.clone(), to_value(v)?))).collect::<Result<_, String>>()?,
        ),
    })
}

/// Calls `serde_json::from_slice` for a `serde_json::Value`; an error is handed on as the
/// text it prints as. The contract gives the outcome its name, [`json_parse`], and claims
/// nothing else of it.
#[verifier::external_body]
fn parse(bytes: &[u8]) -> (parsed: Result<Json, String>)
    ensures
        match parsed {
            Ok(value) => json_parse(bytes@) == Ok::<JsonView, Seq<char>>(value@),
            Err(message) => json_parse(bytes@) == Err::<JsonView, Seq<char>>(message@),
        },
{
    match serde_json::from_slice::<serde_json::Value>(bytes) {
        Ok(value) => Ok(from_value(value)),
        Err(e) => Err(e.to_string()),
    }
}

/// Calls `serde_json::to_string` on the `serde_json::Value` that stands for `value`; an
/// error is handed on as the text it prints as. The contract gives the outcome its name,
/// [`json_print`], and claims nothing else of it.
#[verifier::external_body]
fn print(value: &Json) -> (printed: Result<String, String>)
    ensures
        match printed {
            Ok(text) => json_print(value@) == Ok::<Seq<char>, Seq<char>>(text@),
            Err(message) => json_print(value@) == Err::<Seq<char>, Seq<char>>(message@),
        },
{
    serde_json::to_string(&to_value(value)?).map_err(|e| e.to_string())
}

/// Calls `std::str::from_utf8`, which accepts the byte strings that are UTF-8 and no
/// others.
#[verifier::external_body]
fn is_utf8(bytes: &[u8]) -> (valid: bool)
    ensures
        valid == valid_utf8(bytes@),
{
    std::str::from_utf8(bytes).is_ok()
}

/// The record that `value` stands for, or the fault that it stands for none.
pub open spec fn shaped<T: Decode>(value: JsonView) -> Result<<T as DeepView>::V, JsonFault> {
    match T::decoded(value) {
        Some(record) => Ok(record),
        None => Err(JsonFault::Shape),
    }
}

/// What reading `bytes` as a `T` comes to: the record, or why there is none. Bytes that
/// are not UTF-8 are not handed to `serde_json`.
pub open spec fn reading<T: Decode>(bytes: Seq<u8>) -> Result<<T as DeepView>::V, JsonFault> {
    if !valid_utf8(bytes) {
        Err(JsonFault::Utf8)
    } else {
        match json_parse(bytes) {
            Ok(value) => shaped::<T>(value),
            Err(message) => Err(JsonFault::Syntax(message)),
        }
    }
}

/// What writing `record` comes to: the text, or why there is none.
pub open spec fn printing<T: Encode>(record: <T as DeepView>::V) -> Result<Seq<char>, JsonFault> {
    match json_print(T::encoded(record)) {
        Ok(text) => Ok(text),
        Err(message) => Err(JsonFault::Syntax(message)),
    }
}

/// An outcome with the record and the error taken by their values.
pub open spec fn seen<T: DeepView>(outcome: Result<T, JsonError>) -> Result<
    <T as DeepView>::V,
    JsonFault,
> {
    match outcome {
        Ok(record) => Ok(record.deep_view()),
        Err(error) => Err(error@),
    }
}

/// Tells what stands in a parsed document: the record, or why there is none.
pub fn decode_parsed<T: Decode>(parsed: Result<Json, String>) -> (outcome: Result<T, JsonError>)
    ensures
        match parsed {
            Err(message) => outcome == Err::<T, JsonError>(JsonError::Syntax(message)),
            Ok(value) => seen(outcome) == shaped::<T>(value@),
        },
{
    match parsed {
        Err(e) => Err(JsonError::Syntax(e)),
        Ok(value) => match T::decode(&value) {
            None => Err(JsonError::Shape),
            Some(record) => Ok(record),
        },
    }
}

/// Reads a record from the bytes of a JSON document.
pub fn read<T: Decode>(bytes: &[u8]) -> (outcome: Result<T, JsonError>)
    ensures
        seen(outcome) == reading::<T>(bytes@),
{
    if !is_utf8(bytes) {
        return Err(JsonError::Utf8);
    }
    decode_parsed(parse(bytes))
}

/// Writes a record as the text of a JSON document.
pub fn to_text<T: Encode>(record: &T) -> (outcome: Result<String, JsonError>)
    ensures
        seen(outcome) == printing::<T>(record.deep_view()),
{
    let value = record.encode();
    match print(&value) {
        Ok(text) => Ok(text),
        Err(e) => Err(JsonError::Syntax(e)),
    }
}

} // verus!
