//! The structured values that travel to and from the remote platform.

use crate::error::Error;
use vstd::prelude::*;

verus! {

/// A confidence as an algorithm reported it: a single-precision number, held by its
/// bit pattern. The library never computes with it; it carries it through unchanged.
#[derive(Clone, Copy, Debug, PartialEq, Eq, Structural)]
pub struct Score {
    pub bits: u32,
}

/// A JSON-like value.
///
/// Numbers come in two kinds, and the library converts neither into the other. A count
/// that the library writes into a request is an `Integer`. A number that it reads from a
/// reply is a `Number`: whoever turns the bytes of a reply into a `Json` hands every
/// number over in single precision, whether it was written with a fraction or without.
#[derive(Debug, PartialEq)]
pub enum Json {
    Null,
    Bool(bool),
    /// A non-negative whole number, such as a count.
    Integer(u64),
    /// A number in single precision.
    Number(Score),
    Text(String),
    Array(Vec<Json>),
    /// The fields of an object, in the order in which they were written. Where two
    /// fields have the same name, a reader takes the first.
    Object(Vec<(String, Json)>),
}

/// The mathematical value of a [`Json`].
pub enum JsonValue {
    Null,
    Bool(bool),
    Integer(u64),
    Number(Score),
    Text(Seq<char>),
    Array(Seq<JsonValue>),
    Object(Seq<(Seq<char>, JsonValue)>),
}

impl Json {
    /// The mathematical value of `self`.
    pub open spec fn value(&self) -> JsonValue
        decreases self,
    {
        match self {
            Json::Null => JsonValue::Null,
            Json::Bool(b) => JsonValue::Bool(*b),
            Json::Integer(n) => JsonValue::Integer(*n),
            Json::Number(x) => JsonValue::Number(*x),
            Json::Text(s) => JsonValue::Text(s@),
            Json::Array(items) => JsonValue::Array(
                Seq::new(
                    items@.len(),
                    |i: int|
                        if 0 <= i < items@.len() {
                            items@[i].value()
                        } else {
                            JsonValue::Null
                        },
                ),
            ),
            Json::Object(fields) => JsonValue::Object(
                Seq::new(
                    fields@.len(),
                    |i: int|
                        if 0 <= i < fields@.len() {
                            (fields@[i].0@, fields@[i].1.value())
                        } else {
                            (Seq::empty(), JsonValue::Null)
                        },
                ),
            ),
        }
    }
}

impl DeepView for Json {
    type V = JsonValue;

    open spec fn deep_view(&self) -> JsonValue {
        self.value()
    }
}

impl DeepView for Score {
    type V = Score;

    open spec fn deep_view(&self) -> Score {
        *self
    }
}

impl Score {
    /// The score with the given bit pattern.
    pub fn from_bits(bits: u32) -> (s: Score)
        ensures
            s.bits == bits,
    {
        Score { bits }
    }

    /// The bit pattern of the score.
    pub fn to_bits(self) -> (bits: u32)
        ensures
            bits == self.bits,
    {
        self.bits
    }
}

/// The value of the first of `fields` that is named `key`.
pub open spec fn lookup(fields: Seq<(Seq<char>, JsonValue)>, key: Seq<char>) -> Option<JsonValue>
    decreases fields.len(),
{
    if fields.len() == 0 {
        None
    } else if fields[0].0 == key {
        Some(fields[0].1)
    } else {
        lookup(fields.drop_first(), key)
    }
}

impl JsonValue {
    /// The value of the field `key`, where `self` is an object that has such a field.
    pub open spec fn field(self, key: Seq<char>) -> Option<JsonValue> {
        match self {
            JsonValue::Object(fields) => lookup(fields, key),
            _ => None,
        }
    }

    /// The characters of a text.
    pub open spec fn text(self) -> Option<Seq<char>> {
        match self {
            JsonValue::Text(s) => Some(s),
            _ => None,
        }
    }

    /// The score that a number holds.
    pub open spec fn number(self) -> Option<Score> {
        match self {
            JsonValue::Number(x) => Some(x),
            _ => None,
        }
    }

    /// The whole number that an integer holds.
    pub open spec fn integer(self) -> Option<u64> {
        match self {
            JsonValue::Integer(n) => Some(n),
            _ => None,
        }
    }

    /// The items of an array.
    pub open spec fn items(self) -> Option<Seq<JsonValue>> {
        match self {
            JsonValue::Array(items) => Some(items),
            _ => None,
        }
    }

    /// The fields of an object.
    pub open spec fn fields(self) -> Option<Seq<(Seq<char>, JsonValue)>> {
        match self {
            JsonValue::Object(fields) => Some(fields),
            _ => None,
        }
    }
}

/// The view of an array is the array of its items' views.
pub proof fn lemma_array_view(items: Vec<Json>)
    ensures
        Json::Array(items).deep_view() == JsonValue::Array(items.deep_view()),
{
    assert(Json::Array(items).deep_view()->Array_0 =~= items.deep_view());
}

/// The view of an object is the sequence of its fields' views.
pub proof fn lemma_object_view(fields: Vec<(String, Json)>)
    ensures
        Json::Object(fields).deep_view() == JsonValue::Object(fields.deep_view()),
{
    assert(Json::Object(fields).deep_view()->Object_0 =~= fields.deep_view());
}

impl Json {
    /// The first field named `key`, where `self` is an object that has such a field.
    pub fn get(&self, key: &str) -> (r: Option<&Json>)
        ensures
            r.deep_view() == self.deep_view().field(key@),
    {
        match self {
            Json::Object(fields) => {
                proof {
                    lemma_object_view(*fields);
                }
                let wanted = key.to_owned();
                let mut i: usize = 0;
                assert(fields.deep_view().skip(0) =~= fields.deep_view());
                while i < fields.len()
                    invariant
                        i <= fields.len(),
                        wanted@ == key@,
                        self.deep_view().field(key@) == lookup(fields.deep_view(), key@),
                        lookup(fields.deep_view(), key@) == lookup(
                            fields.deep_view().skip(i as int),
                            key@,
                        ),
                    decreases fields.len() - i,
                {
                    let ghost rest = fields.deep_view().skip(i as int);
                    assert(rest[0] == fields.deep_view()[i as int]);
                    assert(rest.drop_first() == fields.deep_view().skip(i + 1));
                    if fields[i].0 == wanted {
                        assert(rest[0].0 == fields[i as int].0@);
                        assert(rest[0].1 == fields[i as int].1.deep_view());
                        assert(lookup(rest, key@) == Some(rest[0].1));
                        let found = Some(&fields[i].1);
                        assert(found.deep_view() == Some(fields[i as int].1.deep_view()));
                        return found;
                    }
                    i += 1;
                }
                None
            },
            _ => None,
        }
    }

    /// The text, where `self` is one.
    pub fn as_text(&self) -> (r: Option<&String>)
        ensures
            r.deep_view() == self.deep_view().text(),
    {
        match self {
            Json::Text(s) => Some(s),
            _ => None,
        }
    }

    /// The score, where `self` is a number.
    pub fn as_number(&self) -> (r: Option<Score>)
        ensures
            r == self.deep_view().number(),
    {
        match self {
            Json::Number(x) => Some(*x),
            _ => None,
        }
    }

    /// The whole number, where `self` is an integer.
    pub fn as_integer(&self) -> (r: Option<u64>)
        ensures
            r == self.deep_view().integer(),
    {
        match self {
            Json::Integer(n) => Some(*n),
            _ => None,
        }
    }

    /// The items, where `self` is an array.
    pub fn as_array(&self) -> (r: Option<&Vec<Json>>)
        ensures
            r.deep_view() == self.deep_view().items(),
    {
        match self {
            Json::Array(items) => {
                proof {
                    lemma_array_view(*items);
                }
                Some(items)
            },
            _ => None,
        }
    }

    /// The fields, where `self` is an object.
    pub fn as_object(&self) -> (r: Option<&Vec<(String, Json)>>)
        ensures
            r.deep_view() == self.deep_view().fields(),
    {
        match self {
            Json::Object(fields) => {
                proof {
                    lemma_object_view(*fields);
                }
                Some(fields)
            },
            _ => None,
        }
    }
}

/// A type that is written to the wire as a [`Json`].
pub trait Encode: DeepView {
    /// The value that stands for `v` on the wire.
    spec fn wire(v: Self::V) -> JsonValue;

    fn encode(&self) -> (j: Json)
        ensures
            j.deep_view() == Self::wire(self.deep_view()),
    ;
}

/// A type that is read from a [`Json`] of the right shape.
pub trait Decode: DeepView + Sized {
    /// What `j` holds, where it has the shape that the type expects.
    spec fn parse(j: JsonValue) -> Option<Self::V>;

    fn decode(j: &Json) -> (r: Result<Self, Error>)
        ensures
            decoded(r, Self::parse(j.deep_view())),
    ;
}

/// `r` is what a decoder owes for a value that holds `expected`: the value itself, or a
/// decoding failure where there is none.
pub open spec fn decoded<T: DeepView>(r: Result<T, Error>, expected: Option<T::V>) -> bool {
    match r {
        Ok(v) => expected == Some(v.deep_view()),
        Err(e) => e is Decode && expected is None,
    }
}

/// What the items hold, where each of them has the shape that `T` expects.
pub open spec fn parse_all<T: Decode>(items: Seq<JsonValue>) -> Option<Seq<T::V>> {
    if forall|i: int| 0 <= i < items.len() ==> (#[trigger] T::parse(items[i])) is Some {
        Some(Seq::new(items.len(), |i: int| T::parse(items[i]).unwrap()))
    } else {
        None
    }
}

/// The value of each of `items` on the wire.
pub open spec fn wire_all<T: Encode>(items: Seq<T::V>) -> Seq<JsonValue> {
    Seq::new(items.len(), |i: int| T::wire(items[i]))
}

impl Encode for String {
    open spec fn wire(v: Seq<char>) -> JsonValue {
        JsonValue::Text(v)
    }

    fn encode(&self) -> (j: Json) {
        Json::Text(self.clone())
    }
}

impl<T: Encode> Encode for Vec<T> {
    open spec fn wire(v: Seq<T::V>) -> JsonValue {
        JsonValue::Array(wire_all::<T>(v))
    }

    fn encode(&self) -> (j: Json) {
        let mut items: Vec<Json> = Vec::new();
        let mut i: usize = 0;
        while i < self.len()
            invariant
                i <= self.len(),
                items.len() == i,
                forall|k: int|
                    0 <= k < i ==> (#[trigger] items@[k]).deep_view() == T::wire(
                        self@[k].deep_view(),
                    ),
            decreases self.len() - i,
        {
            items.push(self[i].encode());
            i += 1;
        }
        proof {
            lemma_array_view(items);
            assert(items.deep_view() =~= wire_all::<T>(self.deep_view()));
        }
        Json::Array(items)
    }
}

impl Decode for String {
    open spec fn parse(j: JsonValue) -> Option<Seq<char>> {
        j.text()
    }

    fn decode(j: &Json) -> (r: Result<String, Error>) {
        match j.as_text() {
            Some(s) => Ok(s.clone()),
            None => Err(Error::decode("expected a string")),
        }
    }
}

impl Decode for Score {
    open spec fn parse(j: JsonValue) -> Option<Score> {
        j.number()
    }

    fn decode(j: &Json) -> (r: Result<Score, Error>) {
        match j.as_number() {
            Some(x) => Ok(x),
            None => Err(Error::decode("expected a number")),
        }
    }
}

impl Decode for u32 {
    /// An integer that is small enough.
    open spec fn parse(j: JsonValue) -> Option<u32> {
        match j.integer() {
            Some(n) => if n <= u32::MAX {
                Some(n as u32)
            } else {
                None
            },
            None => None,
        }
    }

    fn decode(j: &Json) -> (r: Result<u32, Error>) {
        match j.as_integer() {
            Some(n) => if n <= 0xffff_ffff {
                Ok(n as u32)
            } else {
                Err(Error::decode("the number is too large"))
            },
            None => Err(Error::decode("expected a whole number")),
        }
    }
}

impl<T: Decode> Decode for Vec<T> {
    open spec fn parse(j: JsonValue) -> Option<Seq<T::V>> {
        match j {
            JsonValue::Array(items) => parse_all::<T>(items),
            _ => None,
        }
    }

    fn decode(j: &Json) -> (r: Result<Vec<T>, Error>) {
        match j.as_array() {
            Some(items) => {
                let mut out: Vec<T> = Vec::new();
                let mut i: usize = 0;
                while i < items.len()
                    invariant
                        i <= items.len(),
                        out.len() == i,
                        j.deep_view().items() == Some(items.deep_view()),
                        forall|k: int|
                            0 <= k < i ==> T::parse(#[trigger] items.deep_view()[k]) == Some(
                                out@[k].deep_view(),
                            ),
                    decreases items.len() - i,
                {
                    match T::decode(&items[i]) {
                        Ok(v) => {
                            assert(items.deep_view()[i as int] == items@[i as int].deep_view());
                            out.push(v);
                        },
                        Err(e) => {
                            assert(items.deep_view()[i as int] == items@[i as int].deep_view());
                            assert(T::parse(items.deep_view()[i as int]) is None);
                            return Err(e);
                        },
                    }
                    i += 1;
                }
                proof {
                    assert(parse_all::<T>(items.deep_view()).unwrap() =~= out.deep_view());
                }
                Ok(out)
            },
            None => Err(Error::decode("expected an array")),
        }
    }
}

/// A list of strings that is written and read again is the same list.
pub proof fn lemma_strings_round_trip(v: Seq<Seq<char>>)
    ensures
        <Vec<String> as Decode>::parse(<Vec<String> as Encode>::wire(v)) == Some(v),
{
    let items = wire_all::<String>(v);
    assert forall|i: int| 0 <= i < items.len() implies (#[trigger] <String as Decode>::parse(
        items[i],
    )) == Some(v[i]) by {}
    assert(parse_all::<String>(items).unwrap() =~= v);
}

/// The field `key` of `j`, which a decoder cannot do without.
pub fn required<'a>(j: &'a Json, key: &str) -> (r: Result<&'a Json, Error>)
    ensures
        match r {
            Ok(v) => j.deep_view().field(key@) == Some(v.deep_view()),
            Err(e) => e is Decode && j.deep_view().field(key@) is None,
        },
{
    match j.get(key) {
        Some(v) => Ok(v),
        None => Err(Error::decode("a field is missing")),
    }
}

/// What the field `key` of `j` holds, read as a `T`.
pub open spec fn field_as<T: Decode>(j: JsonValue, key: Seq<char>) -> Option<T::V> {
    match j.field(key) {
        Some(v) => T::parse(v),
        None => None,
    }
}

/// Reads the field `key` of `j` as a `T`.
pub fn read_field<T: Decode>(j: &Json, key: &str) -> (r: Result<T, Error>)
    ensures
        decoded(r, field_as::<T>(j.deep_view(), key@)),
{
    match required(j, key) {
        Ok(v) => T::decode(v),
        Err(e) => Err(e),
    }
}

/// What the field `key` of `j` holds, read as a `T`, where the field may be left out or
/// hold nothing.
pub open spec fn optional_field_as<T: Decode>(j: JsonValue, key: Seq<char>) -> Option<
    Option<T::V>,
> {
    match j.field(key) {
        None => Some(None),
        Some(JsonValue::Null) => Some(None),
        Some(v) => match T::parse(v) {
            Some(x) => Some(Some(x)),
            None => None,
        },
    }
}

/// Reads the field `key` of `j` as a `T`, where the field may be left out or hold
/// nothing.
pub fn read_optional_field<T: Decode>(j: &Json, key: &str) -> (r: Result<Option<T>, Error>)
    ensures
        decoded(r, optional_field_as::<T>(j.deep_view(), key@)),
{
    match j.get(key) {
        None => Ok(None),
        Some(Json::Null) => Ok(None),
        Some(v) => match T::decode(v) {
            Ok(x) => Ok(Some(x)),
            Err(e) => Err(e),
        },
    }
}

/// What is sent to an algorithm.
#[derive(Debug, PartialEq)]
pub enum Payload {
    /// Plain text.
    Text(String),
    /// A structured value.
    Json(Json),
}

/// The mathematical value of a [`Payload`].
pub enum PayloadView {
    Text(Seq<char>),
    Json(JsonValue),
}

impl DeepView for Payload {
    type V = PayloadView;

    open spec fn deep_view(&self) -> PayloadView {
        match self {
            Payload::Text(s) => PayloadView::Text(s@),
            Payload::Json(j) => PayloadView::Json(j.deep_view()),
        }
    }
}

/// One call of a remote algorithm: which algorithm, and what it is given.
#[derive(Debug, PartialEq)]
pub struct Request {
    /// The algorithm's identifier and version.
    pub algo: String,
    pub input: Payload,
}

/// The mathematical value of a [`Request`].
pub struct RequestView {
    pub algo: Seq<char>,
    pub input: PayloadView,
}

impl DeepView for Request {
    type V = RequestView;

    open spec fn deep_view(&self) -> RequestView {
        RequestView { algo: self.algo@, input: self.input.deep_view() }
    }
}

/// What an algorithm answered.
#[derive(Debug, PartialEq)]
pub enum Reply {
    /// Plain text.
    Text(String),
    /// A structured value.
    Json(Json),
    /// Raw bytes.
    Binary(Vec<u8>),
}

/// The mathematical value of a [`Reply`].
pub enum ReplyView {
    Text(Seq<char>),
    Json(JsonValue),
    Binary(Seq<u8>),
}

impl ReplyView {
    /// The text of a plain-text reply.
    pub open spec fn text(self) -> Option<Seq<char>> {
        match self {
            ReplyView::Text(s) => Some(s),
            _ => None,
        }
    }

    /// The structured value that a decoder reads from the reply: the value itself, or
    /// the text as a string. Raw bytes hold none.
    pub open spec fn json(self) -> Option<JsonValue> {
        match self {
            ReplyView::Json(j) => Some(j),
            ReplyView::Text(s) => Some(JsonValue::Text(s)),
            ReplyView::Binary(_) => None,
        }
    }

    /// What the reply holds, read as a `T`.
    pub open spec fn parse<T: Decode>(self) -> Option<T::V> {
        match self.json() {
            Some(j) => T::parse(j),
            None => None,
        }
    }
}

impl DeepView for Reply {
    type V = ReplyView;

    open spec fn deep_view(&self) -> ReplyView {
        match self {
            Reply::Text(s) => ReplyView::Text(s@),
            Reply::Json(j) => ReplyView::Json(j.deep_view()),
            Reply::Binary(b) => ReplyView::Binary(b@),
        }
    }
}

impl Reply {
    /// The text of the reply, where it is plain text.
    pub fn into_string(self) -> (r: Option<String>)
        ensures
            r.deep_view() == self.deep_view().text(),
    {
        match self {
            Reply::Text(s) => Some(s),
            _ => None,
        }
    }

    /// Reads the reply as a `T`.
    pub fn decode<T: Decode>(&self) -> (r: Result<T, Error>)
        ensures
            decoded(r, self.deep_view().parse::<T>()),
    {
        match self {
            Reply::Json(j) => T::decode(j),
            Reply::Text(s) => {
                let j = Json::Text(s.clone());
                T::decode(&j)
            },
            Reply::Binary(_) => Err(Error::decode("the reply is neither JSON nor text")),
        }
    }
}

} // verus!
