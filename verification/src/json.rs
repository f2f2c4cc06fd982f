//! JSON documents as plain values, and typed reads of their fields.

use vstd::prelude::*;
use vstd::string::*;

use crate::text::str_eq;

verus! {

/// A JSON number: its value as an unsigned and as a signed 64-bit integer,
/// where it has one, and its text.
#[derive(Clone, Debug)]
pub struct Number {
    pub unsigned: Option<u64>,
    pub signed: Option<i64>,
    pub text: String,
}

/// A JSON document.
#[derive(Debug)]
pub enum Json {
    Null,
    Bool(bool),
    Number(Number),
    Str(String),
    Array(Vec<Json>),
    Object(Vec<(String, Json)>),
}

/// A JSON document as mathematics sees it.
pub enum JsonValue {
    Null,
    Bool(bool),
    Number { unsigned: Option<u64>, signed: Option<i64>, text: Seq<char> },
    Str(Seq<char>),
    Array(Seq<JsonValue>),
    Object(Seq<(Seq<char>, JsonValue)>),
}

impl View for Json {
    type V = JsonValue;

    open spec fn view(&self) -> JsonValue
        decreases self,
    {
        match self {
            Json::Null => JsonValue::Null,
            Json::Bool(b) => JsonValue::Bool(*b),
            Json::Number(n) => JsonValue::Number {
                unsigned: n.unsigned,
                signed: n.signed,
                text: n.text@,
            },
            Json::Str(s) => JsonValue::Str(s@),
            Json::Array(items) => JsonValue::Array(item_values(items@)),
            Json::Object(members) => JsonValue::Object(member_values(members@)),
        }
    }
}

/// The documents of a list, one by one.
pub open spec fn item_values(items: Seq<Json>) -> Seq<JsonValue>
    decreases items,
{
    if items.len() == 0 {
        Seq::empty()
    } else {
        item_values(items.drop_last()).push(items.last()@)
    }
}

/// The members of an object, one by one.
pub open spec fn member_values(members: Seq<(String, Json)>) -> Seq<(Seq<char>, JsonValue)>
    decreases members,
{
    if members.len() == 0 {
        Seq::empty()
    } else {
        member_values(members.drop_last()).push((members.last().0@, members.last().1@))
    }
}

/// `item_values` keeps the length and maps each document to its value.
pub proof fn lemma_item_values(items: Seq<Json>)
    ensures
        item_values(items).len() == items.len(),
        forall|i: int| 0 <= i < items.len() ==> item_values(items)[i] == (#[trigger] items[i])@,
    decreases items.len(),
{
    reveal_with_fuel(item_values, 2);
    if items.len() > 0 {
        let front = items.drop_last();
        lemma_item_values(front);
        assert forall|i: int| 0 <= i < items.len() implies item_values(items)[i] == (
            #[trigger] items[i])@ by {
            if i < front.len() {
                assert(front[i] == items[i]);
            }
        }
    }
}

/// `member_values` keeps the length and maps each member to its key and value.
pub proof fn lemma_member_values(members: Seq<(String, Json)>)
    ensures
        member_values(members).len() == members.len(),
        forall|i: int|
            0 <= i < members.len() ==> member_values(members)[i] == (
                (#[trigger] members[i]).0@,
                members[i].1@,
            ),
    decreases members.len(),
{
    reveal_with_fuel(member_values, 2);
    if members.len() > 0 {
        let front = members.drop_last();
        lemma_member_values(front);
        assert forall|i: int| 0 <= i < members.len() implies member_values(members)[i] == (
            (#[trigger] members[i]).0@,
            members[i].1@,
        ) by {
            if i < front.len() {
                assert(front[i] == members[i]);
            }
        }
    }
}

/// The first value that `members` holds under `key`, looking from position
/// `from` on.
pub open spec fn member_from(members: Seq<(Seq<char>, JsonValue)>, key: Seq<char>, from: int)
    -> Option<JsonValue>
    decreases members.len() - from,
{
    if from < 0 || from >= members.len() {
        None
    } else if members[from].0 == key {
        Some(members[from].1)
    } else {
        member_from(members, key, from + 1)
    }
}

impl JsonValue {
    /// The member `key` of an object; `None` for a missing member and for
    /// anything but an object.
    pub open spec fn field(self, key: Seq<char>) -> Option<JsonValue> {
        match self {
            JsonValue::Object(members) => member_from(members, key, 0),
            _ => None,
        }
    }

    pub open spec fn as_str(self) -> Option<Seq<char>> {
        match self {
            JsonValue::Str(s) => Some(s),
            _ => None,
        }
    }

    pub open spec fn as_bool(self) -> Option<bool> {
        match self {
            JsonValue::Bool(b) => Some(b),
            _ => None,
        }
    }

    pub open spec fn as_u64(self) -> Option<u64> {
        match self {
            JsonValue::Number { unsigned, .. } => unsigned,
            _ => None,
        }
    }

    pub open spec fn as_i64(self) -> Option<i64> {
        match self {
            JsonValue::Number { signed, .. } => signed,
            _ => None,
        }
    }

    /// The text of a number, whatever its size.
    pub open spec fn as_number_text(self) -> Option<Seq<char>> {
        match self {
            JsonValue::Number { text, .. } => Some(text),
            _ => None,
        }
    }

    pub open spec fn as_array(self) -> Option<Seq<JsonValue>> {
        match self {
            JsonValue::Array(items) => Some(items),
            _ => None,
        }
    }
}

#[verifier::external_type_specification]
#[verifier::external_body]
pub struct ExValue(serde_json::Value);

/// The document that a `serde_json::Value` holds.
pub uninterp spec fn value_of(v: serde_json::Value) -> JsonValue;

/// What `serde_json::from_str` makes of a text: the document it parses to,
/// or `None` where it reports an error.
pub uninterp spec fn json_of_text(text: Seq<char>) -> Option<JsonValue>;

/// What `serde_json::from_slice` makes of a byte string: the document it
/// parses to, or `None` where it reports an error.
pub uninterp spec fn json_of_bytes(bytes: Seq<u8>) -> Option<JsonValue>;

/// The document of an optional `serde_json::Value`.
pub open spec fn optional_value_of(v: Option<serde_json::Value>) -> Option<JsonValue> {
    match v {
        Some(v) => Some(value_of(v)),
        None => None,
    }
}

/// The value of an optional document.
pub open spec fn optional_view(j: Option<Json>) -> Option<JsonValue> {
    match j {
        Some(j) => Some(j@),
        None => None,
    }
}

/// Calls `serde_json::from_str` for a `serde_json::Value`. The result is a
/// function of the text alone, named `json_of_text`; an error becomes `None`.
#[verifier::external_body]
fn value_from_str(text: &str) -> (r: Option<serde_json::Value>)
    ensures
        optional_value_of(r) == json_of_text(text@),
{
    serde_json::from_str::<serde_json::Value>(text).ok()
}

/// Calls `serde_json::from_slice` for a `serde_json::Value`. The result is a
/// function of the bytes alone, named `json_of_bytes`; an error becomes `None`.
#[verifier::external_body]
fn value_from_slice(bytes: &[u8]) -> (r: Option<serde_json::Value>)
    ensures
        optional_value_of(r) == json_of_bytes(bytes@),
{
    serde_json::from_slice::<serde_json::Value>(bytes).ok()
}

/// Copies a `serde_json::Value` into a `Json`, variant by variant. Of a
/// number it keeps `as_u64`, `as_i64` and its text; of an object its members
/// in the order in which `serde_json` walks them.
#[verifier::external_body]
fn json_from_value(v: &serde_json::Value) -> (r: Json)
    ensures
        r@ == value_of(*v),
{
    match v {
        serde_json::Value::Null => Json::Null,
        serde_json::Value::Bool(b) => Json::Bool(*b),
        serde_json::Value::Number(n) => Json::Number(
            Number { unsigned: n.as_u64(), signed: n.as_i64(), text: n.to_string() },
        ),
        serde_json::Value::String(s) => Json::Str(s.clone()),
        serde_json::Value::Array(a) => Json::Array(a.iter().map(json_from_value).collect()),
        serde_json::Value::Object(m) => Json::Object(
            m.iter().map(|(k, v)| (k.clone(), json_from_value(v))).collect(),
        ),
    }
}

impl Json {
    /// Parses a text as JSON: the document that `serde_json` reads from it,
    /// or `None` where it reads none.
    pub fn parse(text: &str) -> (r: Option<Json>)
        ensures
            optional_view(r) == json_of_text(text@),
    {
        match value_from_str(text) {
            Some(v) => Some(json_from_value(&v)),
            None => None,
        }
    }

    /// Parses a byte string as JSON: the document that `serde_json` reads
    /// from it, or `None` where it reads none.
    pub fn parse_bytes(bytes: &[u8]) -> (r: Option<Json>)
        ensures
            optional_view(r) == json_of_bytes(bytes@),
    {
        match value_from_slice(bytes) {
            Some(v) => Some(json_from_value(&v)),
            None => None,
        }
    }

    /// The member `key` of an object.
    pub fn get(&self, key: &str) -> (r: Option<&Json>)
        ensures
            r is Some <==> self@.field(key@) is Some,
            r matches Some(j) ==> self@.field(key@) == Some(j@),
    {
        match self {
            Json::Object(members) => {
                let n = members.len();
                let mut i: usize = 0;
                proof {
                    lemma_member_values(members@);
                }
                while i < n
                    invariant
                        n == members@.len(),
                        i <= n,
                        self@.field(key@) == member_from(member_values(members@), key@, i as int),
                        member_values(members@).len() == n,
                        forall|k: int|
                            0 <= k < n ==> member_values(members@)[k] == (
                                (#[trigger] members@[k]).0@,
                                members@[k].1@,
                            ),
                    decreases n - i,
                {
                    if str_eq(members[i].0.as_str(), key) {
                        return Some(&members[i].1);
                    }
                    i += 1;
                }
                None
            },
            _ => None,
        }
    }

    pub fn is_object(&self) -> (r: bool)
        ensures
            r == (self@ is Object),
    {
        match self {
            Json::Object(_) => true,
            _ => false,
        }
    }

    pub fn as_str(&self) -> (r: Option<&String>)
        ensures
            r is Some <==> self@.as_str() is Some,
            r matches Some(s) ==> self@.as_str() == Some(s@),
    {
        match self {
            Json::Str(s) => Some(s),
            _ => None,
        }
    }

    pub fn as_bool(&self) -> (r: Option<bool>)
        ensures
            r == self@.as_bool(),
    {
        match self {
            Json::Bool(b) => Some(*b),
            _ => None,
        }
    }

    pub fn as_u64(&self) -> (r: Option<u64>)
        ensures
            r == self@.as_u64(),
    {
        match self {
            Json::Number(n) => n.unsigned,
            _ => None,
        }
    }

    pub fn as_i64(&self) -> (r: Option<i64>)
        ensures
            r == self@.as_i64(),
    {
        match self {
            Json::Number(n) => n.signed,
            _ => None,
        }
    }

    pub fn as_number_text(&self) -> (r: Option<&String>)
        ensures
            r is Some <==> self@.as_number_text() is Some,
            r matches Some(s) ==> self@.as_number_text() == Some(s@),
    {
        match self {
            Json::Number(n) => Some(&n.text),
            _ => None,
        }
    }

    pub fn as_array(&self) -> (r: Option<&Vec<Json>>)
        ensures
            r is Some <==> self@.as_array() is Some,
            r matches Some(items) ==> self@.as_array() == Some(item_values(items@)),
    {
        match self {
            Json::Array(items) => Some(items),
            _ => None,
        }
    }
}

/// A type whose values can be read from a JSON document.
pub trait FromJson: Sized {
    /// Whether the document has the form of a value of this type.
    spec fn accepts(j: JsonValue) -> bool;

    /// Whether `self` holds exactly what the document says.
    spec fn holds(&self, j: JsonValue) -> bool;

    /// Reads a value from a document; `None` where the document does not
    /// have the form.
    fn from_json(j: &Json) -> (r: Option<Self>)
        ensures
            r is Some <==> Self::accepts(j@),
            r matches Some(v) ==> v.holds(j@),
    ;
}

impl FromJson for String {
    open spec fn accepts(j: JsonValue) -> bool {
        j is Str
    }

    open spec fn holds(&self, j: JsonValue) -> bool {
        j == JsonValue::Str(self@)
    }

    fn from_json(j: &Json) -> (r: Option<String>) {
        match j {
            Json::Str(s) => Some(s.clone()),
            _ => None,
        }
    }
}

impl FromJson for bool {
    open spec fn accepts(j: JsonValue) -> bool {
        j is Bool
    }

    open spec fn holds(&self, j: JsonValue) -> bool {
        j == JsonValue::Bool(*self)
    }

    fn from_json(j: &Json) -> (r: Option<bool>) {
        match j {
            Json::Bool(b) => Some(*b),
            _ => None,
        }
    }
}

impl FromJson for u64 {
    open spec fn accepts(j: JsonValue) -> bool {
        j.as_u64() is Some
    }

    open spec fn holds(&self, j: JsonValue) -> bool {
        j.as_u64() == Some(*self)
    }

    fn from_json(j: &Json) -> (r: Option<u64>) {
        j.as_u64()
    }
}

impl FromJson for i64 {
    open spec fn accepts(j: JsonValue) -> bool {
        j.as_i64() is Some
    }

    open spec fn holds(&self, j: JsonValue) -> bool {
        j.as_i64() == Some(*self)
    }

    fn from_json(j: &Json) -> (r: Option<i64>) {
        j.as_i64()
    }
}

impl FromJson for u16 {
    open spec fn accepts(j: JsonValue) -> bool {
        j.as_u64() matches Some(n) && n <= u16::MAX
    }

    open spec fn holds(&self, j: JsonValue) -> bool {
        j.as_u64() == Some(*self as u64)
    }

    fn from_json(j: &Json) -> (r: Option<u16>) {
        match j.as_u64() {
            Some(n) => if n <= 0xffff {
                Some(n as u16)
            } else {
                None
            },
            None => None,
        }
    }
}

impl FromJson for i16 {
    open spec fn accepts(j: JsonValue) -> bool {
        j.as_i64() matches Some(n) && i16::MIN <= n <= i16::MAX
    }

    open spec fn holds(&self, j: JsonValue) -> bool {
        j.as_i64() == Some(*self as i64)
    }

    fn from_json(j: &Json) -> (r: Option<i16>) {
        match j.as_i64() {
            Some(n) => if -0x8000 <= n && n <= 0x7fff {
                Some(n as i16)
            } else {
                None
            },
            None => None,
        }
    }
}

impl FromJson for u128 {
    open spec fn accepts(j: JsonValue) -> bool {
        j.as_u64() is Some
    }

    open spec fn holds(&self, j: JsonValue) -> bool {
        j.as_u64() matches Some(n) && n == *self
    }

    fn from_json(j: &Json) -> (r: Option<u128>) {
        match j.as_u64() {
            Some(n) => Some(n as u128),
            None => None,
        }
    }
}

/// A number kept as the text in which `serde_json` renders it, whatever its
/// size or precision.
#[derive(Clone, Debug, PartialEq, Eq)]
pub struct NumberText {
    pub text: String,
}

impl FromJson for NumberText {
    open spec fn accepts(j: JsonValue) -> bool {
        j is Number
    }

    open spec fn holds(&self, j: JsonValue) -> bool {
        j.as_number_text() == Some(self.text@)
    }

    fn from_json(j: &Json) -> (r: Option<NumberText>) {
        match j.as_number_text() {
            Some(text) => Some(NumberText { text: text.clone() }),
            None => None,
        }
    }
}

impl<T: FromJson> FromJson for Vec<T> {
    /// A list is read from an array whose every item has the form.
    open spec fn accepts(j: JsonValue) -> bool {
        j matches JsonValue::Array(items) && forall|i: int|
            0 <= i < items.len() ==> T::accepts(#[trigger] items[i])
    }

    open spec fn holds(&self, j: JsonValue) -> bool {
        j matches JsonValue::Array(items) && items.len() == self@.len() && forall|i: int|
            0 <= i < items.len() ==> (#[trigger] self@[i]).holds(items[i])
    }

    fn from_json(j: &Json) -> (r: Option<Vec<T>>) {
        match j.as_array() {
            Some(items) => {
                let n = items.len();
                let mut out: Vec<T> = Vec::new();
                let mut i: usize = 0;
                proof {
                    lemma_item_values(items@);
                }
                while i < n
                    invariant
                        n == items@.len(),
                        i <= n,
                        out@.len() == i,
                        j@ matches JsonValue::Array(vs) && vs.len() == n && (forall|k: int|
                            0 <= k < n ==> vs[k] == (#[trigger] items@[k])@) && (forall|k: int|
                            0 <= k < i ==> T::accepts(#[trigger] vs[k])) && (forall|k: int|
                            0 <= k < i ==> (#[trigger] out@[k]).holds(vs[k])),
                    decreases n - i,
                {
                    match T::from_json(&items[i]) {
                        Some(v) => {
                            out.push(v);
                        },
                        None => {
                            return None;
                        },
                    }
                    i += 1;
                }
                Some(out)
            },
            None => None,
        }
    }
}

/// Whether the member `key` of `j` is there and has the form of a `T`.
pub open spec fn member_accepts<T: FromJson>(j: JsonValue, key: Seq<char>) -> bool {
    j.field(key) matches Some(v) && T::accepts(v)
}

/// Whether `value` holds what the member `key` of `j` says.
pub open spec fn member_holds<T: FromJson>(value: T, j: JsonValue, key: Seq<char>) -> bool {
    j.field(key) matches Some(v) && value.holds(v)
}

/// Reads the member `key` of `j`, which must be there.
pub fn member<T: FromJson>(j: &Json, key: &str) -> (r: Option<T>)
    ensures
        r is Some <==> member_accepts::<T>(j@, key@),
        r matches Some(v) ==> member_holds(v, j@, key@),
{
    match j.get(key) {
        Some(v) => T::from_json(v),
        None => None,
    }
}

/// Whether the member `key` of `j` is missing, null, or has the form of a
/// `T`.
pub open spec fn optional_accepts<T: FromJson>(j: JsonValue, key: Seq<char>) -> bool {
    match j.field(key) {
        None => true,
        Some(JsonValue::Null) => true,
        Some(v) => T::accepts(v),
    }
}

/// Whether `value` holds what the member `key` of `j` says: nothing for a
/// missing or null member.
pub open spec fn optional_holds<T: FromJson>(value: Option<T>, j: JsonValue, key: Seq<char>)
    -> bool {
    match j.field(key) {
        None => value is None,
        Some(JsonValue::Null) => value is None,
        Some(v) => value matches Some(x) && x.holds(v),
    }
}

/// Reads the member `key` of `j`, which may be missing or null.
pub fn optional_member<T: FromJson>(j: &Json, key: &str) -> (r: Option<Option<T>>)
    ensures
        r is Some <==> optional_accepts::<T>(j@, key@),
        r matches Some(v) ==> optional_holds(v, j@, key@),
{
    match j.get(key) {
        None => Some(None),
        Some(Json::Null) => Some(None),
        Some(v) => match T::from_json(v) {
            Some(x) => Some(Some(x)),
            None => None,
        },
    }
}

} // verus!
