//! A JSON document as plain data, with its mathematical model, and the two
//! calls into `serde_json` that read and print one.

use crate::error::DecodeError;
use crate::text::str_eq;
use serde_json::Value;
use vstd::prelude::*;

verus! {

/// A JSON document.
///
/// Integers that fit `i64` are held as `Int`; every other number keeps the
/// text it is written with, so that a document read and handed on loses
/// nothing.
#[derive(Debug)]
pub enum JsonValue {
    Null,
    Bool(bool),
    Int(i64),
    Number(String),
    Str(String),
    Array(Vec<JsonValue>),
    Object(Vec<JsonField>),
}

/// One named member of a JSON object.
#[derive(Debug)]
pub struct JsonField {
    pub name: String,
    pub value: JsonValue,
}

/// The mathematical content of a [`JsonValue`].
pub enum JsonModel {
    Null,
    Bool(bool),
    Int(int),
    Number(Seq<char>),
    Str(Seq<char>),
    Array(Seq<JsonModel>),
    Object(Seq<(Seq<char>, JsonModel)>),
}

/// The content of a document: each node by its kind, arrays and objects
/// item by item.
pub open spec fn model_of(doc: JsonValue) -> JsonModel
    decreases doc,
{
    match doc {
        JsonValue::Null => JsonModel::Null,
        JsonValue::Bool(b) => JsonModel::Bool(b),
        JsonValue::Int(i) => JsonModel::Int(i as int),
        JsonValue::Number(t) => JsonModel::Number(t@),
        JsonValue::Str(s) => JsonModel::Str(s@),
        JsonValue::Array(items) => JsonModel::Array(
            Seq::new(
                items.len() as nat,
                |i: int|
                    if 0 <= i < items.len() {
                        proof {
                            vstd::std_specs::vec::axiom_vec_index_decreases(items, i);
                        }
                        model_of(items[i])
                    } else {
                        JsonModel::Null
                    },
            ),
        ),
        JsonValue::Object(fields) => JsonModel::Object(
            Seq::new(
                fields.len() as nat,
                |i: int|
                    if 0 <= i < fields.len() {
                        proof {
                            vstd::std_specs::vec::axiom_vec_index_decreases(fields, i);
                        }
                        (fields[i].name@, model_of(fields[i].value))
                    } else {
                        (Seq::empty(), JsonModel::Null)
                    },
            ),
        ),
    }
}

impl View for JsonValue {
    type V = JsonModel;

    open spec fn view(&self) -> JsonModel {
        model_of(*self)
    }
}

impl Clone for JsonValue {
    #[verifier::loop_isolation(false)]
    fn clone(&self) -> (copy: JsonValue)
        ensures
            copy@ == self@,
        decreases self,
    {
        match self {
            JsonValue::Null => JsonValue::Null,
            JsonValue::Bool(b) => JsonValue::Bool(*b),
            JsonValue::Int(i) => JsonValue::Int(*i),
            JsonValue::Number(t) => JsonValue::Number(t.clone()),
            JsonValue::Str(s) => JsonValue::Str(s.clone()),
            JsonValue::Array(items) => {
                let mut copies: Vec<JsonValue> = Vec::new();
                let mut i: usize = 0;
                while i < items.len()
                    invariant
                        i <= items.len(),
                        copies@.len() == i,
                        forall|k: int| 0 <= k < i ==> copies@[k]@ == items@[k]@,
                    decreases items.len() - i,
                {
                    proof {
                        vstd::std_specs::vec::axiom_vec_index_decreases(*items, i as int);
                    }
                    copies.push(items[i].clone());
                    i += 1;
                }
                proof {
                    lemma_array_model(*items);
                    lemma_array_model(copies);
                    assert(items_model(copies@) =~= items_model(items@));
                }
                JsonValue::Array(copies)
            },
            JsonValue::Object(fields) => {
                let mut copies: Vec<JsonField> = Vec::new();
                let mut i: usize = 0;
                while i < fields.len()
                    invariant
                        i <= fields.len(),
                        copies@.len() == i,
                        forall|k: int|
                            0 <= k < i ==> copies@[k].name@ == fields@[k].name@ && copies@[k].value@
                                == fields@[k].value@,
                    decreases fields.len() - i,
                {
                    proof {
                        vstd::std_specs::vec::axiom_vec_index_decreases(*fields, i as int);
                    }
                    copies.push(
                        JsonField { name: fields[i].name.clone(), value: fields[i].value.clone() },
                    );
                    i += 1;
                }
                proof {
                    lemma_object_model(*fields);
                    lemma_object_model(copies);
                    assert(fields_model(copies@) =~= fields_model(fields@));
                }
                JsonValue::Object(copies)
            },
        }
    }
}

/// The models of a run of documents, in order.
pub open spec fn items_model(items: Seq<JsonValue>) -> Seq<JsonModel> {
    items.map_values(|v: JsonValue| v@)
}

/// The models of a run of named documents, in order.
pub open spec fn fields_model(fields: Seq<JsonField>) -> Seq<(Seq<char>, JsonModel)> {
    fields.map_values(|f: JsonField| (f.name@, f.value@))
}

/// The value under the first field named `key`, if any field has that name.
pub open spec fn lookup(fields: Seq<(Seq<char>, JsonModel)>, key: Seq<char>) -> Option<JsonModel>
    decreases fields.len(),
{
    if fields.len() == 0 {
        None
    } else if fields[0].0 == key {
        Some(fields[0].1)
    } else {
        lookup(fields.drop_first(), key)
    }
}

impl JsonModel {
    /// The member named `key` of an object; `None` for a missing member and
    /// for anything that is not an object.
    pub open spec fn member(self, key: Seq<char>) -> Option<JsonModel> {
        match self {
            JsonModel::Object(fields) => lookup(fields, key),
            _ => None,
        }
    }
}

/// An array's model is the sequence of its items' models.
pub proof fn lemma_array_model(items: Vec<JsonValue>)
    ensures
        JsonValue::Array(items)@ == JsonModel::Array(items_model(items@)),
{
    assert(JsonValue::Array(items)@->Array_0 =~= items_model(items@));
}

/// An object's model is the sequence of its fields' models.
pub proof fn lemma_object_model(fields: Vec<JsonField>)
    ensures
        JsonValue::Object(fields)@ == JsonModel::Object(fields_model(fields@)),
{
    assert(JsonValue::Object(fields)@->Object_0 =~= fields_model(fields@));
}

/// Looking `key` up from position `from` on is looking it up in what is left.
proof fn lemma_lookup_skip(fields: Seq<(Seq<char>, JsonModel)>, key: Seq<char>, from: int)
    requires
        0 <= from <= fields.len(),
        forall|k: int| 0 <= k < from ==> fields[k].0 != key,
    ensures
        lookup(fields, key) == lookup(fields.skip(from), key),
    decreases from,
{
    if from == 0 {
        assert(fields.skip(0) =~= fields);
    } else {
        lemma_lookup_skip(fields, key, from - 1);
        let rest = fields.skip(from - 1);
        assert(rest.drop_first() =~= fields.skip(from));
    }
}

impl JsonValue {
    /// Builds an array from its items.
    pub fn array(items: Vec<JsonValue>) -> (doc: JsonValue)
        ensures
            doc@ == JsonModel::Array(items_model(items@)),
    {
        proof {
            lemma_array_model(items);
        }
        JsonValue::Array(items)
    }

    /// Builds an object from its fields.
    pub fn object(fields: Vec<JsonField>) -> (doc: JsonValue)
        ensures
            doc@ == JsonModel::Object(fields_model(fields@)),
    {
        proof {
            lemma_object_model(fields);
        }
        JsonValue::Object(fields)
    }

    /// Builds a string document, or `null` for no string.
    pub fn opt_text(s: &Option<String>) -> (doc: JsonValue)
        ensures
            doc@ == opt_text_json(opt_text(*s)),
    {
        match s {
            Some(t) => JsonValue::text(t.as_str()),
            None => JsonValue::Null,
        }
    }

    /// Builds a string document from a slice.
    pub fn text(s: &str) -> (doc: JsonValue)
        ensures
            doc@ == JsonModel::Str(s@),
    {
        JsonValue::Str(s.to_owned())
    }

    /// The member named `key`, where this is an object that has one.
    pub fn get(&self, key: &str) -> (found: Option<&JsonValue>)
        ensures
            match found {
                Some(v) => self@.member(key@) == Some(v@),
                None => self@.member(key@) is None,
            },
    {
        match self {
            JsonValue::Object(fields) => {
                proof {
                    lemma_object_model(*fields);
                }
                let ghost model = fields_model(fields@);
                let mut i: usize = 0;
                while i < fields.len()
                    invariant
                        i <= fields.len(),
                        model == fields_model(fields@),
                        self@ == JsonModel::Object(model),
                        forall|k: int| 0 <= k < i ==> model[k].0 != key@,
                    decreases fields.len() - i,
                {
                    if str_eq(fields[i].name.as_str(), key) {
                        proof {
                            lemma_lookup_skip(model, key@, i as int);
                        }
                        return Some(&fields[i].value);
                    }
                    i += 1;
                }
                proof {
                    lemma_lookup_skip(model, key@, model.len() as int);
                }
                None
            },
            _ => None,
        }
    }

    /// The integer held, where this is an integer.
    pub fn as_int(&self) -> (n: Option<i64>)
        ensures
            match n {
                Some(i) => self@ == JsonModel::Int(i as int),
                None => !(self@ is Int),
            },
    {
        match self {
            JsonValue::Int(i) => Some(*i),
            _ => None,
        }
    }

    /// The truth value held, where this is one.
    pub fn as_bool(&self) -> (b: Option<bool>)
        ensures
            match b {
                Some(x) => self@ == JsonModel::Bool(x),
                None => !(self@ is Bool),
            },
    {
        match self {
            JsonValue::Bool(b) => Some(*b),
            _ => None,
        }
    }

    /// The string held, where this is a string.
    pub fn as_text(&self) -> (s: Option<&String>)
        ensures
            match s {
                Some(t) => self@ == JsonModel::Str(t@),
                None => !(self@ is Str),
            },
    {
        match self {
            JsonValue::Str(s) => Some(s),
            _ => None,
        }
    }

    /// The items held, where this is an array.
    pub fn as_items(&self) -> (a: Option<&Vec<JsonValue>>)
        ensures
            match a {
                Some(items) => self@ == JsonModel::Array(items_model(items@)),
                None => !(self@ is Array),
            },
    {
        match self {
            JsonValue::Array(items) => {
                proof {
                    lemma_array_model(*items);
                }
                Some(items)
            },
            _ => None,
        }
    }

    /// Whether this is `null`.
    pub fn is_null(&self) -> (b: bool)
        ensures
            b == (self@ is Null),
    {
        match self {
            JsonValue::Null => true,
            _ => false,
        }
    }
}

/// Whether a document holds no number but integers: none that is kept as
/// text.
pub open spec fn plain(doc: JsonModel) -> bool
    decreases doc,
{
    match doc {
        JsonModel::Number(_) => false,
        JsonModel::Array(items) => plain_items(items),
        JsonModel::Object(fields) => plain_fields(fields),
        _ => true,
    }
}

/// Whether every document of a run is plain.
pub open spec fn plain_items(items: Seq<JsonModel>) -> bool
    decreases items,
{
    forall|i: int| 0 <= i < items.len() ==> plain(#[trigger] items[i])
}

/// Whether every field of a run holds a plain document.
pub open spec fn plain_fields(fields: Seq<(Seq<char>, JsonModel)>) -> bool
    decreases fields,
{
    forall|i: int| 0 <= i < fields.len() ==> plain((#[trigger] fields[i]).1)
}

/// A run of fields is plain where it is so without its last field and the
/// last field holds a plain document.
pub broadcast proof fn lemma_plain_push(
    fields: Seq<(Seq<char>, JsonModel)>,
    name: Seq<char>,
    value: JsonModel,
)
    ensures
        #[trigger] plain_fields(fields.push((name, value))) == (plain_fields(fields) && plain(
            value,
        )),
{
    let more = fields.push((name, value));
    if plain_fields(fields) && plain(value) {
        assert forall|i: int| 0 <= i < more.len() implies plain((#[trigger] more[i]).1) by {
            if i < fields.len() {
                assert(more[i] == fields[i]);
            }
        }
    }
    if plain_fields(more) {
        assert(more[fields.len() as int].1 == value);
        assert forall|i: int| 0 <= i < fields.len() implies plain((#[trigger] fields[i]).1) by {
            assert(more[i] == fields[i]);
        }
    }
}

/// A run of documents is plain where it is so without its last document
/// and the last document is plain.
pub broadcast proof fn lemma_plain_items(items: Seq<JsonModel>, item: JsonModel)
    ensures
        #[trigger] plain_items(items.push(item)) == (plain_items(items) && plain(item)),
{
    let more = items.push(item);
    if plain_items(items) && plain(item) {
        assert forall|i: int| 0 <= i < more.len() implies plain(#[trigger] more[i]) by {
            if i < items.len() {
                assert(more[i] == items[i]);
            }
        }
    }
    if plain_items(more) {
        assert(more[items.len() as int] == item);
        assert forall|i: int| 0 <= i < items.len() implies plain(#[trigger] items[i]) by {
            assert(more[i] == items[i]);
        }
    }
}

/// Looking a key up after one more field is added: what was found before is
/// still found, and the new field is found where nothing was.
pub broadcast proof fn lemma_lookup_push(
    fields: Seq<(Seq<char>, JsonModel)>,
    name: Seq<char>,
    value: JsonModel,
    key: Seq<char>,
)
    ensures
        #[trigger] lookup(fields.push((name, value)), key) == match lookup(fields, key) {
            Some(found) => Some(found),
            None => if name == key {
                Some(value)
            } else {
                None
            },
        },
    decreases fields.len(),
{
    let more = fields.push((name, value));
    if fields.len() == 0 {
        assert(more.drop_first() =~= fields);
    } else {
        assert(more.drop_first() =~= fields.drop_first().push((name, value)));
        lemma_lookup_push(fields.drop_first(), name, value, key);
    }
}

/// Nothing is found in an object without fields.
pub broadcast proof fn lemma_lookup_empty(key: Seq<char>)
    ensures
        #[trigger] lookup(Seq::<(Seq<char>, JsonModel)>::empty(), key) is None,
{
}

/// `fields`, and after them the field `key` where `value` holds one.
pub open spec fn with_optional(
    fields: Seq<(Seq<char>, JsonModel)>,
    key: Seq<char>,
    value: Option<JsonModel>,
) -> Seq<(Seq<char>, JsonModel)> {
    match value {
        Some(v) => fields.push((key, v)),
        None => fields,
    }
}

/// The JSON value for a string that may be absent: `null` where it is.
pub open spec fn opt_text_json(text: Option<Seq<char>>) -> JsonModel {
    match text {
        Some(s) => JsonModel::Str(s),
        None => JsonModel::Null,
    }
}

/// The JSON value for a truth value that may be absent, if it is there.
pub open spec fn opt_bool_json(b: Option<bool>) -> Option<JsonModel> {
    match b {
        Some(x) => Some(JsonModel::Bool(x)),
        None => None,
    }
}

/// The characters of a string that may be absent.
pub open spec fn opt_text(text: Option<String>) -> Option<Seq<char>> {
    match text {
        Some(s) => Some(s@),
        None => None,
    }
}

/// The fields of a JSON object, gathered one at a time.
pub struct ObjectBuilder {
    fields: Vec<JsonField>,
}

impl ObjectBuilder {
    /// The fields gathered so far.
    pub closed spec fn model(&self) -> Seq<(Seq<char>, JsonModel)> {
        fields_model(self.fields@)
    }

    /// A builder that holds no field yet.
    pub fn new() -> (builder: Self)
        ensures
            builder.model() == Seq::<(Seq<char>, JsonModel)>::empty(),
    {
        let builder = ObjectBuilder { fields: Vec::new() };
        builder
    }

    /// Adds the field `key` after those already there.
    pub fn put(&mut self, key: &str, value: JsonValue)
        ensures
            final(self).model() == old(self).model().push((key@, value@)),
    {
        self.fields.push(JsonField { name: key.to_owned(), value });
    }

    /// The object that holds the fields gathered.
    pub fn finish(self) -> (doc: JsonValue)
        ensures
            doc@ == JsonModel::Object(self.model()),
    {
        JsonValue::object(self.fields)
    }
}

/// The member `key` of `doc`, which must be there.
pub open spec fn required(doc: JsonModel, key: &'static str) -> Result<JsonModel, DecodeError> {
    match doc.member(key@) {
        Some(v) => Ok(v),
        None => Err(DecodeError::MissingField(key)),
    }
}

/// The member `key` of `doc`, where it is there and not `null`.
pub open spec fn optional(doc: JsonModel, key: &'static str) -> Option<JsonModel> {
    match doc.member(key@) {
        Some(JsonModel::Null) => None,
        other => other,
    }
}

/// An integer between `lo` and `hi`, read from `value`, which came from the
/// member `key`.
pub open spec fn int_in(value: JsonModel, key: &'static str, lo: int, hi: int) -> Result<
    int,
    DecodeError,
> {
    match value {
        JsonModel::Int(i) => if lo <= i <= hi {
            Ok(i)
        } else {
            Err(DecodeError::InvalidField(key))
        },
        _ => Err(DecodeError::InvalidField(key)),
    }
}

/// A string, read from `value`, which came from the member `key`.
pub open spec fn text_in(value: JsonModel, key: &'static str) -> Result<Seq<char>, DecodeError> {
    match value {
        JsonModel::Str(s) => Ok(s),
        _ => Err(DecodeError::InvalidField(key)),
    }
}

/// A truth value, read from `value`, which came from the member `key`.
pub open spec fn bool_in(value: JsonModel, key: &'static str) -> Result<bool, DecodeError> {
    match value {
        JsonModel::Bool(b) => Ok(b),
        _ => Err(DecodeError::InvalidField(key)),
    }
}

/// The integer member `key` of `doc`, between `lo` and `hi`.
pub open spec fn int_member(doc: JsonModel, key: &'static str, lo: int, hi: int) -> Result<
    int,
    DecodeError,
> {
    match required(doc, key) {
        Ok(v) => int_in(v, key, lo, hi),
        Err(e) => Err(e),
    }
}

/// The integer member `key` of `doc`, between `lo` and `hi`, where there is
/// one.
pub open spec fn opt_int_member(doc: JsonModel, key: &'static str, lo: int, hi: int) -> Result<
    Option<int>,
    DecodeError,
> {
    match optional(doc, key) {
        Some(v) => match int_in(v, key, lo, hi) {
            Ok(i) => Ok(Some(i)),
            Err(e) => Err(e),
        },
        None => Ok(None),
    }
}

/// The string member `key` of `doc`.
pub open spec fn text_member(doc: JsonModel, key: &'static str) -> Result<Seq<char>, DecodeError> {
    match required(doc, key) {
        Ok(v) => text_in(v, key),
        Err(e) => Err(e),
    }
}

/// The string member `key` of `doc`, where there is one.
pub open spec fn opt_text_member(doc: JsonModel, key: &'static str) -> Result<
    Option<Seq<char>>,
    DecodeError,
> {
    match optional(doc, key) {
        Some(v) => match text_in(v, key) {
            Ok(s) => Ok(Some(s)),
            Err(e) => Err(e),
        },
        None => Ok(None),
    }
}

/// The truth-value member `key` of `doc`, where there is one.
pub open spec fn opt_bool_member(doc: JsonModel, key: &'static str) -> Result<
    Option<bool>,
    DecodeError,
> {
    match optional(doc, key) {
        Some(v) => match bool_in(v, key) {
            Ok(b) => Ok(Some(b)),
            Err(e) => Err(e),
        },
        None => Ok(None),
    }
}

impl JsonValue {
    /// The member `key`, or the error that says it is missing.
    pub fn require(&self, key: &'static str) -> (found: Result<&JsonValue, DecodeError>)
        ensures
            match found {
                Ok(v) => required(self@, key) == Ok::<JsonModel, DecodeError>(v@),
                Err(e) => required(self@, key) == Err::<JsonModel, DecodeError>(e),
            },
    {
        match self.get(key) {
            Some(v) => Ok(v),
            None => Err(DecodeError::MissingField(key)),
        }
    }

    /// The member `key`, where it is there and not `null`.
    pub fn maybe(&self, key: &'static str) -> (found: Option<&JsonValue>)
        ensures
            match found {
                Some(v) => optional(self@, key) == Some(v@),
                None => optional(self@, key) is None,
            },
    {
        match self.get(key) {
            Some(v) => if v.is_null() {
                None
            } else {
                Some(v)
            },
            None => None,
        }
    }

    /// This value as an integer between `lo` and `hi`.
    pub fn int_between(&self, key: &'static str, lo: i64, hi: i64) -> (n: Result<i64, DecodeError>)
        ensures
            match n {
                Ok(i) => int_in(self@, key, lo as int, hi as int) == Ok::<int, DecodeError>(i as int),
                Err(e) => int_in(self@, key, lo as int, hi as int) == Err::<int, DecodeError>(e),
            },
    {
        match self.as_int() {
            Some(i) => if lo <= i && i <= hi {
                Ok(i)
            } else {
                Err(DecodeError::InvalidField(key))
            },
            None => Err(DecodeError::InvalidField(key)),
        }
    }

    /// This value as a string.
    pub fn string(&self, key: &'static str) -> (s: Result<String, DecodeError>)
        ensures
            match s {
                Ok(t) => text_in(self@, key) == Ok::<Seq<char>, DecodeError>(t@),
                Err(e) => text_in(self@, key) == Err::<Seq<char>, DecodeError>(e),
            },
    {
        match self.as_text() {
            Some(t) => Ok(t.clone()),
            None => Err(DecodeError::InvalidField(key)),
        }
    }

    /// This value as a truth value.
    pub fn boolean(&self, key: &'static str) -> (b: Result<bool, DecodeError>)
        ensures
            b == bool_in(self@, key),
    {
        match self.as_bool() {
            Some(b) => Ok(b),
            None => Err(DecodeError::InvalidField(key)),
        }
    }

    /// The integer member `key`, between `lo` and `hi`.
    pub fn int_field(&self, key: &'static str, lo: i64, hi: i64) -> (n: Result<i64, DecodeError>)
        ensures
            match n {
                Ok(i) => int_member(self@, key, lo as int, hi as int) == Ok::<int, DecodeError>(
                    i as int,
                ),
                Err(e) => int_member(self@, key, lo as int, hi as int) == Err::<int, DecodeError>(e),
            },
    {
        self.require(key)?.int_between(key, lo, hi)
    }

    /// The integer member `key`, between `lo` and `hi`, where there is one.
    pub fn opt_int_field(&self, key: &'static str, lo: i64, hi: i64) -> (n: Result<
        Option<i64>,
        DecodeError,
    >)
        ensures
            match n {
                Ok(Some(i)) => opt_int_member(self@, key, lo as int, hi as int) == Ok::<
                    Option<int>,
                    DecodeError,
                >(Some(i as int)),
                Ok(None) => opt_int_member(self@, key, lo as int, hi as int) == Ok::<
                    Option<int>,
                    DecodeError,
                >(None),
                Err(e) => opt_int_member(self@, key, lo as int, hi as int) == Err::<
                    Option<int>,
                    DecodeError,
                >(e),
            },
    {
        match self.maybe(key) {
            Some(v) => Ok(Some(v.int_between(key, lo, hi)?)),
            None => Ok(None),
        }
    }

    /// The string member `key`.
    pub fn text_field(&self, key: &'static str) -> (s: Result<String, DecodeError>)
        ensures
            match s {
                Ok(t) => text_member(self@, key) == Ok::<Seq<char>, DecodeError>(t@),
                Err(e) => text_member(self@, key) == Err::<Seq<char>, DecodeError>(e),
            },
    {
        self.require(key)?.string(key)
    }

    /// The string member `key`, where there is one.
    pub fn opt_text_field(&self, key: &'static str) -> (s: Result<Option<String>, DecodeError>)
        ensures
            match s {
                Ok(Some(t)) => opt_text_member(self@, key) == Ok::<Option<Seq<char>>, DecodeError>(
                    Some(t@),
                ),
                Ok(None) => opt_text_member(self@, key) == Ok::<Option<Seq<char>>, DecodeError>(
                    None,
                ),
                Err(e) => opt_text_member(self@, key) == Err::<Option<Seq<char>>, DecodeError>(e),
            },
    {
        match self.maybe(key) {
            Some(v) => Ok(Some(v.string(key)?)),
            None => Ok(None),
        }
    }

    /// The truth-value member `key`, where there is one.
    pub fn opt_bool_field(&self, key: &'static str) -> (b: Result<Option<bool>, DecodeError>)
        ensures
            b == opt_bool_member(self@, key),
    {
        match self.maybe(key) {
            Some(v) => Ok(Some(v.boolean(key)?)),
            None => Ok(None),
        }
    }
}

/// `serde_json::Value`, which verified code hands on and never looks
/// into.
#[verifier::external_type_specification]
#[verifier::external_body]
pub struct ExValue(Value);

/// What `serde_json::from_str` reads from a text as a document: `None` where
/// it rejects the text.
pub uninterp spec fn json_parse(text: Seq<char>) -> Option<JsonModel>;

/// What `serde_json::to_string` prints for a document: `None` where the
/// document holds a `Number` whose text `serde_json` does not read as a
/// number.
pub uninterp spec fn json_print(doc: JsonModel) -> Option<Seq<char>>;

/// Turns a `serde_json::Value` into a [`JsonValue`], variant by variant. A
/// number that `Number::as_i64` yields becomes `Int`; any other number keeps
/// the text that `Number`'s `Display` gives it. Nothing is claimed of the
/// result here: the claim is made once, of reading a whole text.
#[verifier::external_body]
fn lift(doc: Value) -> JsonValue {
    match doc {
        Value::Null => JsonValue::Null,
        Value::Bool(b) => JsonValue::Bool(b),
        Value::Number(n) => match n.as_i64() {
            Some(i) => JsonValue::Int(i),
            None => JsonValue::Number(n.to_string()),
        },
        Value::String(s) => JsonValue::Str(s),
        Value::Array(a) => JsonValue::Array(a.into_iter().map(lift).collect()),
        Value::Object(o) => JsonValue::Object(o.into_iter().map(|(k, v)| JsonField { name: k, value: lift(v) }).collect()),
    }
}

/// Turns a [`JsonValue`] into a `serde_json::Value`, variant by variant; the
/// text of a `Number` goes through `Number`'s `FromStr`, and the whole is
/// `None` where that fails. Nothing is claimed of the result here.
#[verifier::external_body]
fn lower(doc: &JsonValue) -> Option<Value> {
    Some(match doc {
        JsonValue::Null => Value::Null,
        JsonValue::Bool(b) => Value::Bool(*b),
        JsonValue::Int(i) => Value::Number((*i).into()),
        JsonValue::Number(t) => Value::Number(t.parse().ok()?),
        JsonValue::Str(s) => Value::String(s.clone()),
        JsonValue::Array(a) => Value::Array(a.iter().map(lower).collect::<Option<_>>()?),
        JsonValue::Object(o) => Value::Object(
            o.iter().map(|f| Some((f.name.clone(), lower(&f.value)?))).collect::<Option<_>>()?,
        ),
    })
}

/// Calls `serde_json::from_str` for a `serde_json::Value`. The contract
/// claims only that the document returned is a function of the text: the
/// same text gives the same document, or is rejected, every time.
#[verifier::external_body]
pub(crate) fn read_document(text: &str) -> (doc: Option<JsonValue>)
    ensures
        match doc {
            Some(v) => json_parse(text@) == Some(v@),
            None => json_parse(text@) is None,
        },
{
    serde_json::from_str::<Value>(text).ok().map(lift)
}

/// Calls `serde_json::to_string` on the document as a `serde_json::Value`.
/// The contract claims that the text returned is a function of the
/// document's content, and that there is a text for every document that
/// holds no `Number`: `to_string` does not fail on a `Value`, so that only
/// the text of a `Number` can stand in the way.
#[verifier::external_body]
pub(crate) fn print_document(doc: &JsonValue) -> (text: Option<String>)
    ensures
        match text {
            Some(s) => json_print(doc@) == Some(s@),
            None => json_print(doc@) is None,
        },
        plain(doc@) ==> text is Some,
{
    serde_json::to_string(&lower(doc)?).ok()
}

} // verus!
