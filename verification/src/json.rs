//! JSON values as plain data: what the assistant reads from and writes to
//! the language model, the tool arguments and the web services.
use vstd::prelude::*;
use crate::text::{decimal, decimal_string, join, str_eq};

verus! {

/// The mathematical model of a JSON value.
#[verifier::ext_equal]
pub enum Json {
    Null,
    Bool(bool),
    /// An integer that fits in `i64`.
    Int(i64),
    /// A positive integer above `i64::MAX`.
    UInt(u64),
    /// Any other number, by its JSON text.
    Float(Seq<char>),
    Str(Seq<char>),
    Array(Seq<Json>),
    /// Members in order; a key occurs at most once in values read from JSON text.
    Object(Seq<(Seq<char>, Json)>),
}

/// A JSON value.
#[derive(Debug)]
pub enum JsonValue {
    Null,
    Bool(bool),
    /// An integer that fits in `i64`.
    Int(i64),
    /// A positive integer above `i64::MAX`.
    UInt(u64),
    /// Any other number, by its JSON text.
    Float(String),
    Str(String),
    Array(Vec<JsonValue>),
    /// Members in order; a key occurs at most once in values read from JSON text.
    Object(Vec<(String, JsonValue)>),
}

/// The model of a JSON value.
pub open spec fn json_view(v: JsonValue) -> Json
    decreases v,
{
    match v {
        JsonValue::Null => Json::Null,
        JsonValue::Bool(b) => Json::Bool(b),
        JsonValue::Int(i) => Json::Int(i),
        JsonValue::UInt(u) => Json::UInt(u),
        JsonValue::Float(t) => Json::Float(t@),
        JsonValue::Str(s) => Json::Str(s@),
        JsonValue::Array(a) => Json::Array(
            Seq::new(
                a.len() as nat,
                |i: int|
                    if 0 <= i < a.len() {
                        json_view(a@[i])
                    } else {
                        Json::Null
                    },
            ),
        ),
        JsonValue::Object(m) => Json::Object(
            Seq::new(
                m.len() as nat,
                |i: int|
                    if 0 <= i < m.len() {
                        (m@[i].0@, json_view(m@[i].1))
                    } else {
                        (Seq::empty(), Json::Null)
                    },
            ),
        ),
    }
}

impl View for JsonValue {
    type V = Json;

    open spec fn view(&self) -> Json {
        json_view(*self)
    }
}

/// The value of the first member named `key`.
pub open spec fn find_member(m: Seq<(Seq<char>, Json)>, key: Seq<char>) -> Option<Json>
    decreases m.len(),
{
    if m.len() == 0 {
        None
    } else if m[0].0 == key {
        Some(m[0].1)
    } else {
        find_member(m.drop_first(), key)
    }
}

impl Json {
    /// The member `key` of an object (`Value::get` with a string key).
    pub open spec fn member(self, key: Seq<char>) -> Option<Json> {
        match self {
            Json::Object(m) => find_member(m, key),
            _ => None,
        }
    }

    /// `value[key]`: the member `key`, or null when there is none.
    pub open spec fn field(self, key: Seq<char>) -> Json {
        match self.member(key) {
            Some(v) => v,
            None => Json::Null,
        }
    }

    /// The element `i` of an array (`Value::get` with an index).
    pub open spec fn element(self, i: int) -> Option<Json> {
        match self {
            Json::Array(a) => if 0 <= i < a.len() {
                Some(a[i])
            } else {
                None
            },
            _ => None,
        }
    }

    /// `value[i]`: the element `i`, or null when there is none.
    pub open spec fn item(self, i: int) -> Json {
        match self.element(i) {
            Some(v) => v,
            None => Json::Null,
        }
    }

    /// The text of a string value.
    pub open spec fn as_str(self) -> Option<Seq<char>> {
        match self {
            Json::Str(s) => Some(s),
            _ => None,
        }
    }

    /// The value of an integer that fits in `i64`.
    pub open spec fn as_i64(self) -> Option<i64> {
        match self {
            Json::Int(i) => Some(i),
            Json::UInt(u) => if u <= i64::MAX {
                Some(u as i64)
            } else {
                None
            },
            _ => None,
        }
    }

    /// The elements of an array.
    pub open spec fn as_array(self) -> Option<Seq<Json>> {
        match self {
            Json::Array(a) => Some(a),
            _ => None,
        }
    }
}

impl JsonValue {
    /// A copy of the value.
    pub fn duplicate(&self) -> (r: JsonValue)
        ensures
            r@ == self@,
        decreases self,
    {
        match self {
            JsonValue::Null => JsonValue::Null,
            JsonValue::Bool(b) => JsonValue::Bool(*b),
            JsonValue::Int(i) => JsonValue::Int(*i),
            JsonValue::UInt(u) => JsonValue::UInt(*u),
            JsonValue::Float(t) => JsonValue::Float(t.clone()),
            JsonValue::Str(s) => JsonValue::Str(s.clone()),
            JsonValue::Array(a) => {
                let mut out: Vec<JsonValue> = Vec::new();
                let mut i: usize = 0;
                while i < a.len()
                    invariant
                        i <= a.len(),
                        out.len() == i,
                        forall|k: int| 0 <= k < i ==> out@[k]@ == a@[k]@,
                        *self == JsonValue::Array(*a),
                    decreases a.len() - i,
                {
                    proof {
                        assert(decreases_to!(*self => self->Array_0));
                        assert(decreases_to!(*a => a@));
                        assert(decreases_to!(a@ => a@[i as int]));
                    }
                    out.push(a[i].duplicate());
                    i = i + 1;
                }
                let r = JsonValue::Array(out);
                assert(r@->Array_0 =~= self@->Array_0);
                r
            },
            JsonValue::Object(m) => {
                let mut out: Vec<(String, JsonValue)> = Vec::new();
                let mut i: usize = 0;
                while i < m.len()
                    invariant
                        i <= m.len(),
                        out.len() == i,
                        forall|k: int|
                            0 <= k < i ==> out@[k].0@ == m@[k].0@ && out@[k].1@ == m@[k].1@,
                        *self == JsonValue::Object(*m),
                    decreases m.len() - i,
                {
                    proof {
                        assert(decreases_to!(*self => self->Object_0));
                        assert(decreases_to!(*m => m@));
                        assert(decreases_to!(m@ => m@[i as int]));
                        assert(decreases_to!(m@[i as int] => m@[i as int].1));
                    }
                    let v = m[i].1.duplicate();
                    out.push((m[i].0.clone(), v));
                    i = i + 1;
                }
                let r = JsonValue::Object(out);
                assert(r@->Object_0 =~= self@->Object_0);
                r
            },
        }
    }

    /// The member `key` of an object.
    pub fn get(&self, key: &str) -> (r: Option<&JsonValue>)
        ensures
            r is None <==> self@.member(key@) is None,
            r matches Some(v) ==> self@.member(key@) == Some(v@),
    {
        match self {
            JsonValue::Object(m) => {
                let ghost ms = self@->Object_0;
                let mut i: usize = 0;
                assert(ms.skip(0) =~= ms);
                while i < m.len()
                    invariant
                        i <= m.len(),
                        ms == self@->Object_0,
                        *self == JsonValue::Object(*m),
                        ms.len() == m.len(),
                        find_member(ms, key@) == find_member(ms.skip(i as int), key@),
                    decreases m.len() - i,
                {
                    assert(ms.skip(i as int)[0] == ms[i as int]);
                    if str_eq(m[i].0.as_str(), key) {
                        return Some(&m[i].1);
                    }
                    assert(ms.skip(i as int).drop_first() =~= ms.skip(i + 1));
                    i = i + 1;
                }
                None
            },
            _ => None,
        }
    }

    /// The element `i` of an array.
    pub fn get_index(&self, i: usize) -> (r: Option<&JsonValue>)
        ensures
            r is None <==> self@.element(i as int) is None,
            r matches Some(v) ==> self@.element(i as int) == Some(v@),
    {
        match self {
            JsonValue::Array(a) => if i < a.len() {
                Some(&a[i])
            } else {
                None
            },
            _ => None,
        }
    }

    /// The text of a string value.
    pub fn as_str(&self) -> (r: Option<&str>)
        ensures
            r is None <==> self@.as_str() is None,
            r matches Some(s) ==> self@.as_str() == Some(s@),
    {
        match self {
            JsonValue::Str(s) => Some(s.as_str()),
            _ => None,
        }
    }

    /// The value of an integer that fits in `i64`.
    pub fn as_i64(&self) -> (r: Option<i64>)
        ensures
            r == self@.as_i64(),
    {
        match self {
            JsonValue::Int(i) => Some(*i),
            JsonValue::UInt(u) => if *u <= 9223372036854775807u64 {
                Some(*u as i64)
            } else {
                None
            },
            _ => None,
        }
    }

    /// The elements of an array.
    pub fn as_array(&self) -> (r: Option<&Vec<JsonValue>>)
        ensures
            r is None <==> self@.as_array() is None,
            r matches Some(a) ==> self@.as_array() == Some(a@.map_values(|v: JsonValue| v@)),
    {
        match self {
            JsonValue::Array(a) => {
                assert(self@->Array_0 =~= a@.map_values(|v: JsonValue| v@));
                Some(a)
            },
            _ => None,
        }
    }

    /// Whether the value is null.
    pub fn is_null(&self) -> (r: bool)
        ensures
            r == (self@ == Json::Null),
    {
        match self {
            JsonValue::Null => true,
            _ => false,
        }
    }

    /// The text of the string member `key` (`value[key].as_str()`).
    pub fn get_str(&self, key: &str) -> (r: Option<&str>)
        ensures
            r is None <==> self@.field(key@).as_str() is None,
            r matches Some(s) ==> self@.field(key@).as_str() == Some(s@),
    {
        match self.get(key) {
            Some(v) => v.as_str(),
            None => None,
        }
    }

    /// The integer member `key` (`value[key].as_i64()`).
    pub fn get_i64(&self, key: &str) -> (r: Option<i64>)
        ensures
            r == self@.field(key@).as_i64(),
    {
        match self.get(key) {
            Some(v) => v.as_i64(),
            None => None,
        }
    }

    /// A string value holding a copy of `s`.
    pub fn from_str(s: &str) -> (r: JsonValue)
        ensures
            r@ == Json::Str(s@),
    {
        JsonValue::Str(s.to_owned())
    }
}

/// An object member named `key`.
pub fn member(key: &str, value: JsonValue) -> (r: (String, JsonValue))
    ensures
        r.0@ == key@,
        r.1@ == value@,
{
    (key.to_owned(), value)
}

/// An object with the given members, in order.
pub fn object(members: Vec<(String, JsonValue)>) -> (r: JsonValue)
    ensures
        r@ == Json::Object(members@.map_values(|m: (String, JsonValue)| (m.0@, m.1@))),
{
    let r = JsonValue::Object(members);
    assert(r@->Object_0 =~= members@.map_values(|m: (String, JsonValue)| (m.0@, m.1@)));
    r
}

/// An array with the given elements, in order.
pub fn array(items: Vec<JsonValue>) -> (r: JsonValue)
    ensures
        r@ == Json::Array(items@.map_values(|v: JsonValue| v@)),
{
    let r = JsonValue::Array(items);
    assert(r@->Array_0 =~= items@.map_values(|v: JsonValue| v@));
    r
}

/// `{k1: v1}`.
pub fn obj1(k1: &str, v1: JsonValue) -> (r: JsonValue)
    ensures
        r@ == Json::Object(seq![(k1@, v1@)]),
{
    let r = object(vec![member(k1, v1)]);
    assert(r@->Object_0 =~= seq![(k1@, v1@)]);
    r
}

/// `{k1: v1, k2: v2}`.
pub fn obj2(k1: &str, v1: JsonValue, k2: &str, v2: JsonValue) -> (r: JsonValue)
    ensures
        r@ == Json::Object(seq![(k1@, v1@), (k2@, v2@)]),
{
    let r = object(vec![member(k1, v1), member(k2, v2)]);
    assert(r@->Object_0 =~= seq![(k1@, v1@), (k2@, v2@)]);
    r
}

/// `{k1: v1, k2: v2, k3: v3}`.
pub fn obj3(k1: &str, v1: JsonValue, k2: &str, v2: JsonValue, k3: &str, v3: JsonValue) -> (r:
    JsonValue)
    ensures
        r@ == Json::Object(seq![(k1@, v1@), (k2@, v2@), (k3@, v3@)]),
{
    let r = object(vec![member(k1, v1), member(k2, v2), member(k3, v3)]);
    assert(r@->Object_0 =~= seq![(k1@, v1@), (k2@, v2@), (k3@, v3@)]);
    r
}

/// `{k1: v1, k2: v2, k3: v3, k4: v4}`.
pub fn obj4(
    k1: &str,
    v1: JsonValue,
    k2: &str,
    v2: JsonValue,
    k3: &str,
    v3: JsonValue,
    k4: &str,
    v4: JsonValue,
) -> (r: JsonValue)
    ensures
        r@ == Json::Object(seq![(k1@, v1@), (k2@, v2@), (k3@, v3@), (k4@, v4@)]),
{
    let r = object(vec![member(k1, v1), member(k2, v2), member(k3, v3), member(k4, v4)]);
    assert(r@->Object_0 =~= seq![(k1@, v1@), (k2@, v2@), (k3@, v3@), (k4@, v4@)]);
    r
}

/// An array of strings.
pub fn str_array(items: &[&str]) -> (r: JsonValue)
    ensures
        r@ == Json::Array(items@.map_values(|s: &str| Json::Str(s@))),
{
    let mut out: Vec<JsonValue> = Vec::new();
    let mut i: usize = 0;
    while i < items.len()
        invariant
            i <= items@.len(),
            out.len() == i,
            forall|k: int| 0 <= k < i ==> out@[k]@ == Json::Str(items@[k]@),
        decreases items@.len() - i,
    {
        out.push(JsonValue::from_str(items[i]));
        i = i + 1;
    }
    let r = array(out);
    assert(r@->Array_0 =~= items@.map_values(|s: &str| Json::Str(s@)));
    r
}

/// An empty object.
pub fn empty_object() -> (r: JsonValue)
    ensures
        r@ == Json::Object(Seq::empty()),
{
    let r = object(Vec::new());
    assert(r@->Object_0 =~= Seq::<(Seq<char>, Json)>::empty());
    r
}

// ------------------------------------------------------------ JSON text

/// The JSON string literal that serde_json writes for the text `s`.
pub uninterp spec fn json_string_text(s: Seq<char>) -> Seq<char>;

/// `s` as a JSON string literal, as serde_json writes it: the `Display` of
/// `serde_json::Value::String`. Its result is stated as `json_string_text`
/// of `s` and nothing more: how serde_json quotes and escapes is left to it.
#[verifier::external_body]
fn string_literal(s: &str) -> (r: String)
    ensures
        r@ == json_string_text(s@),
{
    serde_json::Value::String(s.to_owned()).to_string()
}

/// The decimal numeral of a signed integer.
pub open spec fn int_text(i: i64) -> Seq<char> {
    if i < 0 {
        seq!['-'] + decimal((0 - i) as nat)
    } else {
        decimal(i as nat)
    }
}

/// The compact JSON text of a value: strings as serde_json writes them,
/// numbers in decimal, arrays and objects with their items in order,
/// separated by commas, with no spaces.
pub open spec fn json_text(j: Json) -> Seq<char>
    decreases j,
{
    match j {
        Json::Null => "null"@,
        Json::Bool(b) => if b {
            "true"@
        } else {
            "false"@
        },
        Json::Int(i) => int_text(i),
        Json::UInt(u) => decimal(u as nat),
        Json::Float(t) => t,
        Json::Str(s) => json_string_text(s),
        Json::Array(a) => "["@ + join(items_text(a), ","@) + "]"@,
        Json::Object(m) => "{"@ + join(members_text(m), ","@) + "}"@,
    }
}

/// The JSON texts of the elements of an array.
pub open spec fn items_text(a: Seq<Json>) -> Seq<Seq<char>>
    decreases a,
{
    Seq::new(
        a.len(),
        |i: int|
            if 0 <= i < a.len() {
                json_text(a[i])
            } else {
                Seq::empty()
            },
    )
}

/// The JSON texts `"key":value` of the members of an object.
pub open spec fn members_text(m: Seq<(Seq<char>, Json)>) -> Seq<Seq<char>>
    decreases m,
{
    Seq::new(
        m.len(),
        |i: int|
            if 0 <= i < m.len() {
                json_string_text(m[i].0) + ":"@ + json_text(m[i].1)
            } else {
                Seq::empty()
            },
    )
}

/// The decimal numeral of a signed integer.
pub fn int_string(i: i64) -> (r: String)
    ensures
        r@ == int_text(i),
{
    if i < 0 {
        proof {
            reveal_strlit("-");
        }
        let magnitude: u64 = (-(i + 1)) as u64 + 1;
        let mut r = String::from_str("-");
        let d = decimal_string(magnitude);
        r.append(d.as_str());
        assert(r@ =~= int_text(i));
        r
    } else {
        decimal_string(i as u64)
    }
}

impl JsonValue {
    /// The compact JSON text of the value.
    pub fn to_json_text(&self) -> (r: String)
        ensures
            r@ == json_text(self@),
        decreases self,
    {
        match self {
            JsonValue::Null => String::from_str("null"),
            JsonValue::Bool(b) => if *b {
                String::from_str("true")
            } else {
                String::from_str("false")
            },
            JsonValue::Int(i) => int_string(*i),
            JsonValue::UInt(u) => decimal_string(*u),
            JsonValue::Float(t) => t.clone(),
            JsonValue::Str(s) => string_literal(s.as_str()),
            JsonValue::Array(a) => {
                let ghost items = Seq::new(
                    a@.len(),
                    |k: int|
                        if 0 <= k < a@.len() {
                            json_text(a@[k]@)
                        } else {
                            Seq::empty()
                        },
                );
                let mut r = String::from_str("[");
                let mut i: usize = 0;
                while i < a.len()
                    invariant
                        i <= a.len(),
                        *self == JsonValue::Array(*a),
                        items.len() == a@.len(),
                        forall|k: int| 0 <= k < a@.len() ==> items[k] == json_text(a@[k]@),
                        r@ == "["@ + join(items.take(i as int), ","@),
                    decreases a.len() - i,
                {
                    proof {
                        assert(decreases_to!(*self => self->Array_0));
                        assert(decreases_to!(*a => a@));
                        assert(decreases_to!(a@ => a@[i as int]));
                    }
                    if i > 0 {
                        r.append(",");
                    }
                    let part = a[i].to_json_text();
                    r.append(part.as_str());
                    proof {
                        assert(items.take(i + 1).drop_last() =~= items.take(i as int));
                        if i == 0 {
                            assert(join(items.take(1), ","@) == items.take(1)[0]);
                        }
                    }
                    i = i + 1;
                }
                assert(items.take(a@.len() as int) =~= items);
                r.append("]");
                assert(self@->Array_0.len() == a@.len());
                let ghost arr = self@->Array_0;
                assert(items_text(arr) =~= items);
                assert(r@ == json_text(self@));
                r
            },
            JsonValue::Object(m) => {
                let ghost items = Seq::new(
                    m@.len(),
                    |k: int|
                        if 0 <= k < m@.len() {
                            json_string_text(m@[k].0@) + ":"@ + json_text(m@[k].1@)
                        } else {
                            Seq::empty()
                        },
                );
                let mut r = String::from_str("{");
                let mut i: usize = 0;
                while i < m.len()
                    invariant
                        i <= m.len(),
                        *self == JsonValue::Object(*m),
                        items.len() == m@.len(),
                        forall|k: int|
                            0 <= k < m@.len() ==> items[k] == json_string_text(m@[k].0@) + ":"@ + json_text(
                                m@[k].1@,
                            ),
                        r@ == "{"@ + join(items.take(i as int), ","@),
                    decreases m.len() - i,
                {
                    proof {
                        assert(decreases_to!(*self => self->Object_0));
                        assert(decreases_to!(*m => m@));
                        assert(decreases_to!(m@ => m@[i as int]));
                        assert(decreases_to!(m@[i as int] => m@[i as int].1));
                    }
                    if i > 0 {
                        r.append(",");
                    }
                    let key = string_literal(m[i].0.as_str());
                    r.append(key.as_str());
                    r.append(":");
                    let part = m[i].1.to_json_text();
                    r.append(part.as_str());
                    proof {
                        assert(items.take(i + 1).drop_last() =~= items.take(i as int));
                        if i == 0 {
                            assert(join(items.take(1), ","@) == items.take(1)[0]);
                        }
                    }
                    i = i + 1;
                }
                assert(items.take(m@.len() as int) =~= items);
                r.append("}");
                assert(self@->Object_0.len() == m@.len());
                let ghost obj = self@->Object_0;
                assert(members_text(obj) =~= items);
                assert(r@ == json_text(self@));
                r
            },
        }
    }
}

} // verus!
