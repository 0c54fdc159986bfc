//! JSON values as plain data.
//!
//! Reading and writing JSON text is left to `serde_json`; this module holds
//! the value model that the rest of the library computes on, and the
//! accessors from which the wire schemas are built.

use crate::text::same_text;
use vstd::prelude::*;

verus! {

/// A JSON value.
///
/// A number is held as `Number` where it is a non-negative integer below
/// 2^64, and as `Decimal`, in its text form, otherwise. The fields of an
/// object keep their order.
#[derive(Debug)]
pub enum Json {
    Null,
    Bool(bool),
    Number(u64),
    Decimal(String),
    Str(String),
    Array(Vec<Json>),
    Object(Vec<(String, Json)>),
}

/// The mathematical value of a [`Json`].
pub enum JsonView {
    Null,
    Bool(bool),
    Number(nat),
    Decimal(Seq<char>),
    Str(Seq<char>),
    Array(Seq<JsonView>),
    Object(Seq<(Seq<char>, JsonView)>),
}

/// The mathematical value of `json`.
pub open spec fn json_view(json: Json) -> JsonView
    decreases json,
{
    match json {
        Json::Null => JsonView::Null,
        Json::Bool(b) => JsonView::Bool(b),
        Json::Number(n) => JsonView::Number(n as nat),
        Json::Decimal(text) => JsonView::Decimal(text@),
        Json::Str(text) => JsonView::Str(text@),
        Json::Array(items) => JsonView::Array(
            Seq::new(
                items@.len(),
                |i: int|
                    if 0 <= i < items@.len() {
                        json_view(items@[i])
                    } else {
                        JsonView::Null
                    },
            ),
        ),
        Json::Object(fields) => JsonView::Object(
            Seq::new(
                fields@.len(),
                |i: int|
                    if 0 <= i < fields@.len() {
                        (fields@[i].0@, json_view(fields@[i].1))
                    } else {
                        (Seq::empty(), JsonView::Null)
                    },
            ),
        ),
    }
}

impl DeepView for Json {
    type V = JsonView;

    open spec fn deep_view(&self) -> JsonView {
        json_view(*self)
    }
}

impl View for Json {
    type V = JsonView;

    open spec fn view(&self) -> JsonView {
        self.deep_view()
    }
}

/// The value that `serde_json` reads from `text`, or `None` where it rejects
/// the text.
pub uninterp spec fn json_parse(text: Seq<char>) -> Option<JsonView>;

/// The text that `serde_json` writes for `value`, or `None` where it cannot
/// write one.
pub uninterp spec fn json_print(value: JsonView) -> Option<Seq<char>>;

#[verifier::external_type_specification]
#[verifier::external_body]
pub struct ExJsonValue(serde_json::Value);

/// Converts a `serde_json::Value` into a [`Json`], variant by variant. A
/// number goes to `Number` where `serde_json::Number::as_u64` yields it, and
/// to `Decimal` with the text of its `Display` otherwise.
#[verifier::external_body]
fn from_value(value: &serde_json::Value) -> Json {
    match value {
        serde_json::Value::Null => Json::Null,
        serde_json::Value::Bool(b) => Json::Bool(*b),
        serde_json::Value::Number(n) => match n.as_u64() {
            Some(u) => Json::Number(u),
            None => Json::Decimal(n.to_string()),
        },
        serde_json::Value::String(s) => Json::Str(s.clone()),
        serde_json::Value::Array(items) => Json::Array(items.iter().map(from_value).collect()),
        serde_json::Value::Object(fields) => Json::Object(
            fields.iter().map(|(k, v)| (k.clone(), from_value(v))).collect(),
        ),
    }
}

/// Converts a [`Json`] into a `serde_json::Value`, variant by variant. The
/// text of a `Decimal` is read by `serde_json::Number`'s `FromStr`; where
/// that fails there is no value.
#[verifier::external_body]
fn to_value(json: &Json) -> Option<serde_json::Value> {
    Some(match json {
        Json::Null => serde_json::Value::Null,
        Json::Bool(b) => serde_json::Value::Bool(*b),
        Json::Number(n) => serde_json::Value::Number((*n).into()),
        Json::Decimal(text) => serde_json::Value::Number(text.parse().ok()?),
        Json::Str(s) => serde_json::Value::String(s.clone()),
        Json::Array(items) => serde_json::Value::Array(
            items.iter().map(to_value).collect::<Option<_>>()?,
        ),
        Json::Object(fields) => serde_json::Value::Object(
            fields.iter().map(|(k, v)| Some((k.clone(), to_value(v)?))).collect::<Option<_>>()?,
        ),
    })
}

/// `serde_json::from_str` at type `serde_json::Value`: the value read from
/// `text`, which depends on the text alone, or `None` where the text is
/// rejected.
#[verifier::external_body]
fn read_json(text: &str) -> (json: Option<Json>)
    ensures
        json.deep_view() == json_parse(text@),
{
    match serde_json::from_str::<serde_json::Value>(text) {
        Ok(value) => Some(from_value(&value)),
        Err(_) => None,
    }
}

/// `serde_json::to_string` on the `serde_json::Value` for `json`: the text
/// written, which depends on the value alone, or `None` where no text can
/// be written.
#[verifier::external_body]
fn write_json(json: &Json) -> (text: Option<String>)
    ensures
        text.deep_view() == json_print(json@),
{
    match to_value(json) {
        Some(value) => serde_json::to_string(&value).ok(),
        None => None,
    }
}

/// The first field named `key` among `fields`.
pub open spec fn first_field(fields: Seq<(Seq<char>, JsonView)>, key: Seq<char>) -> Option<
    JsonView,
>
    decreases fields.len(),
{
    if fields.len() == 0 {
        None
    } else if fields[0].0 == key {
        Some(fields[0].1)
    } else {
        first_field(fields.drop_first(), key)
    }
}

impl JsonView {
    /// The field `key` of an object; `None` for an object without it and
    /// for any other value.
    pub open spec fn field(self, key: Seq<char>) -> Option<JsonView> {
        match self {
            JsonView::Object(fields) => first_field(fields, key),
            _ => None,
        }
    }

    /// The field `key` of an object, an explicit `null` counting as absent.
    pub open spec fn present(self, key: Seq<char>) -> Option<JsonView> {
        match self.field(key) {
            Some(JsonView::Null) => None,
            other => other,
        }
    }

    /// The text of a string.
    pub open spec fn text(self) -> Option<Seq<char>> {
        match self {
            JsonView::Str(text) => Some(text),
            _ => None,
        }
    }

    /// The value of a number that fits 16 bits.
    pub open spec fn small(self) -> Option<u16> {
        match self {
            JsonView::Number(n) if n <= u16::MAX => Some(n as u16),
            _ => None,
        }
    }

    /// The value of a boolean.
    pub open spec fn flag(self) -> Option<bool> {
        match self {
            JsonView::Bool(b) => Some(b),
            _ => None,
        }
    }

    /// The items of an array.
    pub open spec fn items(self) -> Option<Seq<JsonView>> {
        match self {
            JsonView::Array(items) => Some(items),
            _ => None,
        }
    }

    /// The text of the string field `key`.
    pub open spec fn text_at(self, key: Seq<char>) -> Option<Seq<char>> {
        match self.field(key) {
            Some(value) => value.text(),
            None => None,
        }
    }

    /// The value of the 16-bit number field `key`.
    pub open spec fn small_at(self, key: Seq<char>) -> Option<u16> {
        match self.field(key) {
            Some(value) => value.small(),
            None => None,
        }
    }

    /// The value of the boolean field `key`.
    pub open spec fn flag_at(self, key: Seq<char>) -> Option<bool> {
        match self.field(key) {
            Some(value) => value.flag(),
            None => None,
        }
    }
}

/// The view of an array is the array of its items' views.
pub proof fn lemma_array_view(items: Vec<Json>)
    ensures
        Json::Array(items)@ == JsonView::Array(items.deep_view()),
{
    let whole = Json::Array(items).deep_view();
    let inner = items.deep_view();
    assert forall|i: int| 0 <= i < items@.len() implies whole->Array_0[i] == inner[i] by {
        assert(inner[i] == items@[i].deep_view());
    }
    assert(whole->Array_0 =~= inner);
}

/// The view of an object is the object of its fields' views.
pub proof fn lemma_object_view(fields: Vec<(String, Json)>)
    ensures
        Json::Object(fields)@ == JsonView::Object(fields.deep_view()),
{
    let whole = Json::Object(fields).deep_view();
    let inner = fields.deep_view();
    assert(inner.len() == fields@.len());
    assert(whole is Object);
    assert(whole->Object_0.len() == fields@.len());
    assert forall|i: int| 0 <= i < fields@.len() implies whole->Object_0[i] == inner[i] by {
        assert(inner[i] == fields@[i].deep_view());
    }
    assert(whole->Object_0 =~= inner);
}

impl Json {
    /// Reads a JSON text.
    pub fn parse(text: &str) -> (json: Option<Json>)
        ensures
            json.deep_view() == json_parse(text@),
    {
        read_json(text)
    }

    /// Writes the value as JSON text.
    pub fn to_text(&self) -> (text: Option<String>)
        ensures
            text.deep_view() == json_print(self@),
    {
        write_json(self)
    }

    /// An array of the given items.
    pub fn array(items: Vec<Json>) -> (json: Json)
        ensures
            json@ == JsonView::Array(items.deep_view()),
    {
        proof {
            lemma_array_view(items);
        }
        Json::Array(items)
    }

    /// An object of the given fields.
    pub fn object(fields: Vec<(String, Json)>) -> (json: Json)
        ensures
            json@ == JsonView::Object(fields.deep_view()),
    {
        proof {
            lemma_object_view(fields);
        }
        Json::Object(fields)
    }

    /// A string.
    pub fn string(text: &str) -> (json: Json)
        ensures
            json@ == JsonView::Str(text@),
    {
        Json::Str(text.to_owned())
    }

    /// The field `key` of an object.
    pub fn field(&self, key: &str) -> (found: Option<&Json>)
        ensures
            found.deep_view() == self@.field(key@),
    {
        match self {
            Json::Object(fields) => {
                proof {
                    lemma_object_view(*fields);
                }
                let ghost all = fields.deep_view();
                assert(all.skip(0) =~= all);
                let mut i: usize = 0;
                while i < fields.len()
                    invariant
                        i <= fields.len(),
                        all == fields.deep_view(),
                        self@ == JsonView::Object(all),
                        first_field(all, key@) == first_field(all.skip(i as int), key@),
                    decreases fields.len() - i,
                {
                    assert(all.skip(i as int)[0] == all[i as int]);
                    assert(all.skip(i as int).drop_first() =~= all.skip(i + 1));
                    assert(all[i as int] == fields@[i as int].deep_view());
                    if same_text(fields[i].0.as_str(), key) {
                        return Some(&fields[i].1);
                    }
                    i += 1;
                }
                None
            },
            _ => None,
        }
    }

    /// The field `key` of an object, an explicit `null` counting as absent.
    pub fn present(&self, key: &str) -> (found: Option<&Json>)
        ensures
            found.deep_view() == self@.present(key@),
    {
        match self.field(key) {
            Some(Json::Null) => None,
            other => other,
        }
    }

    /// The text of a string.
    pub fn text(&self) -> (text: Option<String>)
        ensures
            text.deep_view() == self@.text(),
    {
        match self {
            Json::Str(text) => Some(text.clone()),
            _ => None,
        }
    }

    /// The value of a number that fits 16 bits.
    pub fn small(&self) -> (n: Option<u16>)
        ensures
            n == self@.small(),
    {
        match self {
            Json::Number(n) => if *n <= 0xffff {
                Some(*n as u16)
            } else {
                None
            },
            _ => None,
        }
    }

    /// The value of a boolean.
    pub fn flag(&self) -> (b: Option<bool>)
        ensures
            b == self@.flag(),
    {
        match self {
            Json::Bool(b) => Some(*b),
            _ => None,
        }
    }

    /// The text of the string field `key`.
    pub fn text_at(&self, key: &str) -> (text: Option<String>)
        ensures
            text.deep_view() == self@.text_at(key@),
    {
        match self.field(key) {
            Some(value) => value.text(),
            None => None,
        }
    }

    /// The value of the 16-bit number field `key`.
    pub fn small_at(&self, key: &str) -> (n: Option<u16>)
        ensures
            n == self@.small_at(key@),
    {
        match self.field(key) {
            Some(value) => value.small(),
            None => None,
        }
    }

    /// The value of the boolean field `key`.
    pub fn flag_at(&self, key: &str) -> (b: Option<bool>)
        ensures
            b == self@.flag_at(key@),
    {
        match self.field(key) {
            Some(value) => value.flag(),
            None => None,
        }
    }

    /// The items of an array.
    pub fn items(&self) -> (items: Option<&Vec<Json>>)
        ensures
            items.deep_view() == self@.items(),
    {
        match self {
            Json::Array(items) => {
                proof {
                    lemma_array_view(*items);
                }
                Some(items)
            },
            _ => None,
        }
    }
}

/// A type that has a JSON form.
pub trait ToJson: DeepView {
    /// The JSON form of a value.
    spec fn encoded(value: Self::V) -> JsonView;

    /// The JSON form of `self`.
    fn to_json(&self) -> (json: Json)
        ensures
            json@ == Self::encoded(self.deep_view()),
    ;
}

/// A type that can be read from JSON.
pub trait FromJson: DeepView + Sized {
    /// The value that `json` stands for, or `None` where `json` does not have
    /// the shape of the type.
    spec fn decoded(json: JsonView) -> Option<Self::V>;

    /// Reads a value from `json`.
    fn from_json(json: &Json) -> (value: Option<Self>)
        ensures
            value.deep_view() == Self::decoded(json@),
    ;
}

/// `fields` with the field `key` added if there is a value for it.
pub open spec fn with_optional(
    fields: Seq<(Seq<char>, JsonView)>,
    key: Seq<char>,
    value: Option<JsonView>,
) -> Seq<(Seq<char>, JsonView)> {
    match value {
        Some(value) => fields.push((key, value)),
        None => fields,
    }
}

/// The JSON form of an optional string: the string, or `null`.
pub open spec fn optional_text(text: Option<Seq<char>>) -> JsonView {
    match text {
        Some(text) => JsonView::Str(text),
        None => JsonView::Null,
    }
}

/// The JSON form of an optional 16-bit number: the number, or `null`.
pub open spec fn optional_small(n: Option<u16>) -> JsonView {
    match n {
        Some(n) => JsonView::Number(n as nat),
        None => JsonView::Null,
    }
}

/// The JSON form of a list of strings.
pub open spec fn text_list(texts: Seq<Seq<char>>) -> JsonView {
    JsonView::Array(Seq::new(texts.len(), |i: int| JsonView::Str(texts[i])))
}

/// The JSON form of a list of optional strings.
pub open spec fn optional_text_list(texts: Seq<Option<Seq<char>>>) -> JsonView {
    JsonView::Array(Seq::new(texts.len(), |i: int| optional_text(texts[i])))
}

/// The JSON form of a list of bytes.
pub open spec fn byte_list(bytes: Seq<u8>) -> JsonView {
    JsonView::Array(Seq::new(bytes.len(), |i: int| JsonView::Number(bytes[i] as nat)))
}

/// The JSON form of a list of values.
pub open spec fn value_list<T: ToJson>(values: Seq<T::V>) -> JsonView {
    JsonView::Array(Seq::new(values.len(), |i: int| T::encoded(values[i])))
}

/// The JSON form of a mapping from names to strings, given as pairs.
pub open spec fn text_object(pairs: Seq<(Seq<char>, Seq<char>)>) -> JsonView {
    JsonView::Object(Seq::new(pairs.len(), |i: int| (pairs[i].0, JsonView::Str(pairs[i].1))))
}

/// The strings of an array of strings.
pub open spec fn texts_of(json: JsonView) -> Option<Seq<Seq<char>>> {
    match json {
        JsonView::Array(items) if forall|i: int| 0 <= i < items.len() ==> (#[trigger] items[i]) is Str => Some(
            Seq::new(items.len(), |i: int| items[i]->Str_0),
        ),
        _ => None,
    }
}

/// The entries of an array whose items are each a string or `null`.
pub open spec fn optional_texts_of(json: JsonView) -> Option<Seq<Option<Seq<char>>>> {
    match json {
        JsonView::Array(items) if forall|i: int|
            0 <= i < items.len() ==> (#[trigger] items[i]) is Str || items[i] is Null => Some(
            Seq::new(items.len(), |i: int| items[i].text()),
        ),
        _ => None,
    }
}

/// The values of an array whose every item reads as a `T`.
pub open spec fn values_of<T: FromJson>(json: JsonView) -> Option<Seq<T::V>> {
    match json {
        JsonView::Array(items) if forall|i: int|
            0 <= i < items.len() ==> T::decoded(#[trigger] items[i]) is Some => Some(
            Seq::new(items.len(), |i: int| T::decoded(items[i])->0),
        ),
        _ => None,
    }
}

impl JsonView {
    /// The string field `key` where it may be absent or `null`: `None`
    /// where the field holds anything but a string.
    pub open spec fn optional_text_at(self, key: Seq<char>) -> Option<Option<Seq<char>>> {
        match self.present(key) {
            Some(value) => match value.text() {
                Some(text) => Some(Some(text)),
                None => None,
            },
            None => Some(None),
        }
    }

    /// The 16-bit number field `key` where it may be absent or `null`.
    pub open spec fn optional_small_at(self, key: Seq<char>) -> Option<Option<u16>> {
        match self.present(key) {
            Some(value) => match value.small() {
                Some(n) => Some(Some(n)),
                None => None,
            },
            None => Some(None),
        }
    }

    /// The strings of the field `key`, an array of strings.
    pub open spec fn texts_at(self, key: Seq<char>) -> Option<Seq<Seq<char>>> {
        match self.field(key) {
            Some(value) => texts_of(value),
            None => None,
        }
    }

    /// The entries of the field `key`, an array of strings and `null`s,
    /// where the field may be absent or `null`.
    pub open spec fn optional_texts_at(self, key: Seq<char>) -> Option<
        Option<Seq<Option<Seq<char>>>>,
    > {
        match self.present(key) {
            Some(value) => match optional_texts_of(value) {
                Some(texts) => Some(Some(texts)),
                None => None,
            },
            None => Some(None),
        }
    }

    /// The value of the field `key`, read as a `T`.
    pub open spec fn value_at<T: FromJson>(self, key: Seq<char>) -> Option<T::V> {
        match self.field(key) {
            Some(value) => T::decoded(value),
            None => None,
        }
    }

    /// The values of the field `key`, an array of `T`.
    pub open spec fn values_at<T: FromJson>(self, key: Seq<char>) -> Option<Seq<T::V>> {
        match self.field(key) {
            Some(value) => values_of::<T>(value),
            None => None,
        }
    }
}

/// Adds the field `key` with `value` at the end of `fields`.
pub fn put(fields: &mut Vec<(String, Json)>, key: &str, value: Json)
    ensures
        final(fields).deep_view() == old(fields).deep_view().push((key@, value@)),
{
    fields.push((key.to_owned(), value));
    assert(fields.deep_view() =~= old(fields).deep_view().push((key@, value@)));
}

/// Adds the field `key` at the end of `fields` if there is a value for it.
pub fn put_optional(fields: &mut Vec<(String, Json)>, key: &str, value: Option<Json>)
    ensures
        final(fields).deep_view() == with_optional(
            old(fields).deep_view(),
            key@,
            value.deep_view(),
        ),
{
    match value {
        Some(value) => put(fields, key, value),
        None => {},
    }
}

/// An empty list of fields.
pub fn no_fields() -> (fields: Vec<(String, Json)>)
    ensures
        fields.deep_view() == Seq::<(Seq<char>, JsonView)>::empty(),
{
    let fields: Vec<(String, Json)> = Vec::new();
    assert(fields.deep_view() =~= Seq::<(Seq<char>, JsonView)>::empty());
    fields
}

impl Json {
    /// The JSON form of an optional string.
    pub fn optional_text(text: &Option<String>) -> (json: Json)
        ensures
            json@ == optional_text(text.deep_view()),
    {
        match text {
            Some(text) => Json::Str(text.clone()),
            None => Json::Null,
        }
    }

    /// The JSON form of an optional 16-bit number.
    pub fn optional_small(n: Option<u16>) -> (json: Json)
        ensures
            json@ == optional_small(n),
    {
        match n {
            Some(n) => Json::Number(n as u64),
            None => Json::Null,
        }
    }

    /// The JSON form of a list of strings.
    pub fn text_list(texts: &Vec<String>) -> (json: Json)
        ensures
            json@ == text_list(texts.deep_view()),
    {
        let mut items: Vec<Json> = Vec::new();
        let mut i: usize = 0;
        while i < texts.len()
            invariant
                i <= texts.len(),
                items.len() == i,
                forall|j: int| 0 <= j < i ==> (#[trigger] items[j])@ == JsonView::Str(texts[j]@),
            decreases texts.len() - i,
        {
            items.push(Json::Str(texts[i].clone()));
            i += 1;
        }
        proof {
            lemma_array_view(items);
            assert(items.deep_view() =~= text_list(texts.deep_view())->Array_0);
        }
        Json::Array(items)
    }

    /// The JSON form of a list of optional strings.
    pub fn optional_text_list(texts: &Vec<Option<String>>) -> (json: Json)
        ensures
            json@ == optional_text_list(texts.deep_view()),
    {
        let mut items: Vec<Json> = Vec::new();
        let mut i: usize = 0;
        while i < texts.len()
            invariant
                i <= texts.len(),
                items.len() == i,
                forall|j: int|
                    0 <= j < i ==> (#[trigger] items[j])@ == optional_text(texts[j].deep_view()),
            decreases texts.len() - i,
        {
            items.push(Json::optional_text(&texts[i]));
            i += 1;
        }
        proof {
            lemma_array_view(items);
            assert(items.deep_view() =~= optional_text_list(texts.deep_view())->Array_0);
        }
        Json::Array(items)
    }

    /// The JSON form of a list of bytes.
    pub fn byte_list(bytes: &Vec<u8>) -> (json: Json)
        ensures
            json@ == byte_list(bytes@),
    {
        let mut items: Vec<Json> = Vec::new();
        let mut i: usize = 0;
        while i < bytes.len()
            invariant
                i <= bytes.len(),
                items.len() == i,
                forall|j: int|
                    0 <= j < i ==> (#[trigger] items[j])@ == JsonView::Number(bytes[j] as nat),
            decreases bytes.len() - i,
        {
            items.push(Json::Number(bytes[i] as u64));
            i += 1;
        }
        proof {
            lemma_array_view(items);
            assert(items.deep_view() =~= byte_list(bytes@)->Array_0);
        }
        Json::Array(items)
    }

    /// The JSON form of a list of values.
    pub fn value_list<T: ToJson>(values: &Vec<T>) -> (json: Json)
        ensures
            json@ == value_list::<T>(values.deep_view()),
    {
        let mut items: Vec<Json> = Vec::new();
        let mut i: usize = 0;
        while i < values.len()
            invariant
                i <= values.len(),
                items.len() == i,
                forall|j: int|
                    0 <= j < i ==> (#[trigger] items[j])@ == T::encoded(values[j].deep_view()),
            decreases values.len() - i,
        {
            items.push(values[i].to_json());
            i += 1;
        }
        proof {
            lemma_array_view(items);
            assert(items.deep_view() =~= value_list::<T>(values.deep_view())->Array_0);
        }
        Json::Array(items)
    }

    /// The JSON form of a mapping from names to strings, given as pairs.
    pub fn text_object(pairs: &Vec<(String, String)>) -> (json: Json)
        ensures
            json@ == text_object(pairs.deep_view()),
    {
        let mut fields: Vec<(String, Json)> = Vec::new();
        let mut i: usize = 0;
        while i < pairs.len()
            invariant
                i <= pairs.len(),
                fields.len() == i,
                forall|j: int|
                    0 <= j < i ==> (#[trigger] fields[j]).deep_view() == (
                        pairs[j].0@,
                        JsonView::Str(pairs[j].1@),
                    ),
            decreases pairs.len() - i,
        {
            fields.push((pairs[i].0.clone(), Json::Str(pairs[i].1.clone())));
            i += 1;
        }
        proof {
            lemma_object_view(fields);
            assert(fields.deep_view() =~= text_object(pairs.deep_view())->Object_0);
        }
        Json::Object(fields)
    }

    /// The strings of an array of strings.
    pub fn texts(&self) -> (texts: Option<Vec<String>>)
        ensures
            texts.deep_view() == texts_of(self@),
    {
        let items = match self.items() {
            Some(items) => items,
            None => { return None; },
        };
        let mut texts: Vec<String> = Vec::new();
        let mut i: usize = 0;
        while i < items.len()
            invariant
                i <= items.len(),
                texts.len() == i,
                self@ == JsonView::Array(items.deep_view()),
                forall|j: int|
                    0 <= j < i ==> (#[trigger] items.deep_view()[j]) == JsonView::Str(texts[j]@),
            decreases items.len() - i,
        {
            match &items[i] {
                Json::Str(text) => {
                    assert(items.deep_view()[i as int] == JsonView::Str(text@));
                    texts.push(text.clone());
                },
                _ => {
                    assert(!(items.deep_view()[i as int] is Str));
                    return None;
                },
            }
            i += 1;
        }
        assert(texts.deep_view() =~= texts_of(self@)->0);
        Some(texts)
    }

    /// The entries of an array whose items are each a string or `null`.
    pub fn optional_texts(&self) -> (texts: Option<Vec<Option<String>>>)
        ensures
            texts.deep_view() == optional_texts_of(self@),
    {
        let items = match self.items() {
            Some(items) => items,
            None => { return None; },
        };
        let mut texts: Vec<Option<String>> = Vec::new();
        let mut i: usize = 0;
        while i < items.len()
            invariant
                i <= items.len(),
                texts.len() == i,
                self@ == JsonView::Array(items.deep_view()),
                forall|j: int|
                    0 <= j < i ==> ((#[trigger] items.deep_view()[j]) is Str
                        || items.deep_view()[j] is Null) && items.deep_view()[j].text()
                        == texts[j].deep_view(),
            decreases items.len() - i,
        {
            match &items[i] {
                Json::Str(text) => {
                    assert(items.deep_view()[i as int] == JsonView::Str(text@));
                    texts.push(Some(text.clone()));
                },
                Json::Null => {
                    assert(items.deep_view()[i as int] == JsonView::Null);
                    texts.push(None);
                },
                _ => {
                    assert(!(items.deep_view()[i as int] is Str));
                    assert(!(items.deep_view()[i as int] is Null));
                    return None;
                },
            }
            i += 1;
        }
        assert(texts.deep_view() =~= optional_texts_of(self@)->0);
        Some(texts)
    }

    /// The values of an array whose every item reads as a `T`.
    pub fn values<T: FromJson>(&self) -> (values: Option<Vec<T>>)
        ensures
            values.deep_view() == values_of::<T>(self@),
    {
        let items = match self.items() {
            Some(items) => items,
            None => { return None; },
        };
        let mut values: Vec<T> = Vec::new();
        let mut i: usize = 0;
        while i < items.len()
            invariant
                i <= items.len(),
                values.len() == i,
                self@ == JsonView::Array(items.deep_view()),
                forall|j: int|
                    0 <= j < i ==> T::decoded(#[trigger] items.deep_view()[j]) == Some(
                        values[j].deep_view(),
                    ),
            decreases items.len() - i,
        {
            assert(items.deep_view()[i as int] == items[i as int]@);
            match T::from_json(&items[i]) {
                Some(value) => {
                    values.push(value);
                },
                None => {
                    return None;
                },
            }
            i += 1;
        }
        assert(values.deep_view() =~= values_of::<T>(self@)->0);
        Some(values)
    }

    /// The string field `key` where it may be absent or `null`.
    pub fn optional_text_at(&self, key: &str) -> (text: Option<Option<String>>)
        ensures
            text.deep_view() == self@.optional_text_at(key@),
    {
        match self.present(key) {
            Some(value) => match value.text() {
                Some(text) => Some(Some(text)),
                None => None,
            },
            None => Some(None),
        }
    }

    /// The 16-bit number field `key` where it may be absent or `null`.
    pub fn optional_small_at(&self, key: &str) -> (n: Option<Option<u16>>)
        ensures
            n == self@.optional_small_at(key@),
    {
        match self.present(key) {
            Some(value) => match value.small() {
                Some(n) => Some(Some(n)),
                None => None,
            },
            None => Some(None),
        }
    }

    /// The strings of the field `key`, an array of strings.
    pub fn texts_at(&self, key: &str) -> (texts: Option<Vec<String>>)
        ensures
            texts.deep_view() == self@.texts_at(key@),
    {
        match self.field(key) {
            Some(value) => value.texts(),
            None => None,
        }
    }

    /// The entries of the field `key`, an array of strings and `null`s,
    /// where the field may be absent or `null`.
    pub fn optional_texts_at(&self, key: &str) -> (texts: Option<Option<Vec<Option<String>>>>)
        ensures
            texts.deep_view() == self@.optional_texts_at(key@),
    {
        match self.present(key) {
            Some(value) => match value.optional_texts() {
                Some(texts) => Some(Some(texts)),
                None => None,
            },
            None => Some(None),
        }
    }

    /// The value of the field `key`, read as a `T`.
    pub fn value_at<T: FromJson>(&self, key: &str) -> (value: Option<T>)
        ensures
            value.deep_view() == self@.value_at::<T>(key@),
    {
        match self.field(key) {
            Some(value) => T::from_json(value),
            None => None,
        }
    }

    /// The values of the field `key`, an array of `T`.
    pub fn values_at<T: FromJson>(&self, key: &str) -> (values: Option<Vec<T>>)
        ensures
            values.deep_view() == self@.values_at::<T>(key@),
    {
        match self.field(key) {
            Some(value) => value.values(),
            None => None,
        }
    }
}

impl Json {
    /// A copy of the value.
    pub fn duplicate(&self) -> (copy: Json)
        ensures
            copy@ == self@,
        decreases self,
    {
        match self {
            Json::Null => Json::Null,
            Json::Bool(b) => Json::Bool(*b),
            Json::Number(n) => Json::Number(*n),
            Json::Decimal(text) => Json::Decimal(text.clone()),
            Json::Str(text) => Json::Str(text.clone()),
            Json::Array(items) => {
                let mut copies: Vec<Json> = Vec::new();
                let mut i: usize = 0;
                while i < items.len()
                    invariant
                        i <= items.len(),
                        copies.len() == i,
                        *self is Array,
                        self->Array_0 == *items,
                        forall|j: int| 0 <= j < i ==> (#[trigger] copies[j])@ == items[j]@,
                    decreases items.len() - i,
                {
                    proof {
                        vstd::std_specs::vec::axiom_vec_index_decreases(self->Array_0, i as int);
                        assert(decreases_to!(*self => self->Array_0[i as int]));
                    }
                    copies.push(items[i].duplicate());
                    i += 1;
                }
                proof {
                    lemma_array_view(*items);
                    lemma_array_view(copies);
                    assert(copies.deep_view() =~= items.deep_view());
                }
                Json::Array(copies)
            },
            Json::Object(fields) => {
                let mut copies: Vec<(String, Json)> = Vec::new();
                let mut i: usize = 0;
                while i < fields.len()
                    invariant
                        i <= fields.len(),
                        copies.len() == i,
                        *self is Object,
                        self->Object_0 == *fields,
                        forall|j: int|
                            0 <= j < i ==> (#[trigger] copies[j]).deep_view()
                                == fields[j].deep_view(),
                    decreases fields.len() - i,
                {
                    proof {
                        vstd::std_specs::vec::axiom_vec_index_decreases(self->Object_0, i as int);
                        assert(decreases_to!(*self => self->Object_0[i as int].1));
                    }
                    copies.push((fields[i].0.clone(), fields[i].1.duplicate()));
                    i += 1;
                }
                proof {
                    lemma_object_view(*fields);
                    lemma_object_view(copies);
                    assert(copies.deep_view() =~= fields.deep_view());
                }
                Json::Object(copies)
            },
        }
    }
}

impl ToJson for Json {
    /// A JSON value is its own JSON form.
    open spec fn encoded(value: JsonView) -> JsonView {
        value
    }

    fn to_json(&self) -> (json: Json) {
        self.duplicate()
    }
}

impl FromJson for Json {
    /// Every JSON value reads as itself.
    open spec fn decoded(json: JsonView) -> Option<JsonView> {
        Some(json)
    }

    fn from_json(json: &Json) -> (value: Option<Json>) {
        Some(json.duplicate())
    }
}


/// Among fields none of which before the `i`-th has its name, looking up
/// the name of the `i`-th field finds its value.
pub proof fn lemma_first_field_at(fields: Seq<(Seq<char>, JsonView)>, i: int)
    requires
        0 <= i < fields.len(),
        forall|j: int| 0 <= j < i ==> (#[trigger] fields[j]).0 != fields[i].0,
    ensures
        first_field(fields, fields[i].0) == Some(fields[i].1),
    decreases i,
{
    if i > 0 {
        let rest = fields.drop_first();
        assert(rest[i - 1] == fields[i]);
        assert forall|j: int| 0 <= j < i - 1 implies (#[trigger] rest[j]).0 != rest[i - 1].0 by {
            assert(rest[j] == fields[j + 1]);
        }
        lemma_first_field_at(rest, i - 1);
        assert(fields[0].0 != fields[i].0);
    }
}

/// Reading the JSON form of a list of strings gives the list.
pub proof fn lemma_text_list_reads_back(texts: Seq<Seq<char>>)
    ensures
        texts_of(text_list(texts)) == Some(texts),
{
    assert(texts_of(text_list(texts))->0 =~= texts);
}

/// Reading the JSON form of a list of optional strings gives the list.
pub proof fn lemma_optional_text_list_reads_back(texts: Seq<Option<Seq<char>>>)
    ensures
        optional_texts_of(optional_text_list(texts)) == Some(texts),
{
    let items = optional_text_list(texts)->Array_0;
    assert forall|i: int| 0 <= i < items.len() implies (#[trigger] items[i]) is Str || items[i] is Null by {
        assert(items[i] == optional_text(texts[i]));
    }
    assert forall|i: int| 0 <= i < items.len() implies (#[trigger] items[i]).text() == texts[i] by {
        assert(items[i] == optional_text(texts[i]));
    }
    assert(optional_texts_of(optional_text_list(texts))->0 =~= texts);
}

/// Reading the JSON form of a list of values gives the list, where
/// reading the JSON form of each value gives the value.
pub proof fn lemma_value_list_reads_back<T: ToJson + FromJson>(values: Seq<T::V>)
    requires
        forall|i: int|
            0 <= i < values.len() ==> <T as FromJson>::decoded(
                <T as ToJson>::encoded(#[trigger] values[i]),
            ) == Some(values[i]),
    ensures
        values_of::<T>(value_list::<T>(values)) == Some(values),
{
    let items = value_list::<T>(values)->Array_0;
    assert forall|i: int| 0 <= i < items.len() implies <T as FromJson>::decoded(
        #[trigger] items[i],
    ) == Some(values[i]) by {
        assert(items[i] == <T as ToJson>::encoded(values[i]));
    }
    assert(values_of::<T>(value_list::<T>(values))->0 =~= values);
}

} // verus!
