//! A plain model of parsed JSON, and the primitive decoders built on it.
//!
//! Text is parsed by `serde_json`, one level at a time: each element or
//! member value of an array or object is handed back as its own JSON text,
//! which is parsed in turn. The result is a [`JsonValue`], whose contents
//! the decoders of this library can state contracts about.
use vstd::prelude::*;
use vstd::string::StringExecFns;
use serde_json::Value;

verus! {

/// A JSON number, as the parser holds it.
///
/// `as_u64` and `as_i64` are present when the number is an integer that fits
/// the type; `as_f64_bits` is the IEEE-754 bit pattern of the number read as
/// an `f64`, which every number has.
#[derive(Debug, Clone, Copy, PartialEq, Eq)]
pub struct JsonNumber {
    pub as_u64: Option<u64>,
    pub as_i64: Option<i64>,
    pub as_f64_bits: Option<u64>,
}

/// A parsed JSON value. An object keeps its members in the parser's order.
#[derive(Debug)]
pub enum JsonValue {
    Null,
    Bool(bool),
    Number(JsonNumber),
    Str(String),
    Array(Vec<JsonValue>),
    Object(Vec<(String, JsonValue)>),
}

/// What a [`JsonValue`] stands for.
pub enum JsonView {
    Null,
    Bool(bool),
    Number(JsonNumber),
    Str(Seq<char>),
    Array(Seq<JsonView>),
    Object(Seq<(Seq<char>, JsonView)>),
}

/// What `v` stands for.
pub open spec fn json_view(v: JsonValue) -> JsonView
    decreases v,
{
    match v {
        JsonValue::Null => JsonView::Null,
        JsonValue::Bool(b) => JsonView::Bool(b),
        JsonValue::Number(n) => JsonView::Number(n),
        JsonValue::Str(s) => JsonView::Str(s@),
        JsonValue::Array(items) => JsonView::Array(json_views(items@)),
        JsonValue::Object(members) => JsonView::Object(member_views(members@)),
    }
}

/// What each of `items` stands for.
pub open spec fn json_views(items: Seq<JsonValue>) -> Seq<JsonView>
    decreases items,
{
    if items.len() == 0 {
        seq![]
    } else {
        json_views(items.drop_last()).push(json_view(items.last()))
    }
}

/// What each of `members` stands for.
pub open spec fn member_views(members: Seq<(String, JsonValue)>) -> Seq<(Seq<char>, JsonView)>
    decreases members,
{
    if members.len() == 0 {
        seq![]
    } else {
        member_views(members.drop_last()).push((members.last().0@, json_view(members.last().1)))
    }
}

/// The top level of a JSON text: a scalar, or the texts of its elements or
/// of its members' values.
pub enum JsonNodeView {
    Null,
    Bool(bool),
    Number(JsonNumber),
    Str(Seq<char>),
    Array(Seq<Seq<char>>),
    Object(Seq<(Seq<char>, Seq<char>)>),
}

/// The top level of the JSON text `text`, if it parses: scalars as they
/// are, and each element or member value as its own JSON text.
pub uninterp spec fn json_node_of(text: Seq<char>) -> Option<JsonNodeView>;

/// The top level of a parsed JSON text.
pub enum JsonNode {
    Null,
    Bool(bool),
    Number(JsonNumber),
    Str(String),
    Array(Vec<String>),
    Object(Vec<(String, String)>),
}

/// The texts of `s`.
pub open spec fn string_views(s: Seq<String>) -> Seq<Seq<char>> {
    s.map_values(|t: String| t@)
}

/// The texts of the pairs of `s`.
pub open spec fn pair_views(s: Seq<(String, String)>) -> Seq<(Seq<char>, Seq<char>)> {
    s.map_values(|m: (String, String)| (m.0@, m.1@))
}

impl View for JsonNode {
    type V = JsonNodeView;

    open spec fn view(&self) -> JsonNodeView {
        match self {
            JsonNode::Null => JsonNodeView::Null,
            JsonNode::Bool(b) => JsonNodeView::Bool(*b),
            JsonNode::Number(n) => JsonNodeView::Number(*n),
            JsonNode::Str(s) => JsonNodeView::Str(s@),
            JsonNode::Array(items) => JsonNodeView::Array(string_views(items@)),
            JsonNode::Object(members) => JsonNodeView::Object(pair_views(members@)),
        }
    }
}

/// Nesting allowed by the parser: `serde_json::from_str` refuses deeper input.
pub const MAX_NESTING: u32 = 128;

/// The value of the JSON text `text`, following at most `fuel` levels of
/// arrays and objects.
pub open spec fn json_of(text: Seq<char>, fuel: nat) -> Option<JsonView>
    decreases fuel, 0nat,
{
    match json_node_of(text) {
        None => None,
        Some(JsonNodeView::Null) => Some(JsonView::Null),
        Some(JsonNodeView::Bool(b)) => Some(JsonView::Bool(b)),
        Some(JsonNodeView::Number(n)) => Some(JsonView::Number(n)),
        Some(JsonNodeView::Str(s)) => Some(JsonView::Str(s)),
        Some(JsonNodeView::Array(items)) => if fuel == 0 {
            None
        } else {
            match json_list(items, (fuel - 1) as nat) {
                Some(vs) => Some(JsonView::Array(vs)),
                None => None,
            }
        },
        Some(JsonNodeView::Object(members)) => if fuel == 0 {
            None
        } else {
            match json_members(members, (fuel - 1) as nat) {
                Some(ms) => Some(JsonView::Object(ms)),
                None => None,
            }
        },
    }
}

/// The values of the JSON texts `items`, if each has one.
pub open spec fn json_list(items: Seq<Seq<char>>, fuel: nat) -> Option<Seq<JsonView>>
    decreases fuel, items.len() + 1,
{
    if items.len() == 0 {
        Some(seq![])
    } else {
        match (json_list(items.drop_last(), fuel), json_of(items.last(), fuel)) {
            (Some(vs), Some(v)) => Some(vs.push(v)),
            _ => None,
        }
    }
}

/// The members whose values are the JSON texts of `members`, if each has one.
pub open spec fn json_members(members: Seq<(Seq<char>, Seq<char>)>, fuel: nat) -> Option<
    Seq<(Seq<char>, JsonView)>,
>
    decreases fuel, members.len() + 1,
{
    if members.len() == 0 {
        Some(seq![])
    } else {
        match (json_members(members.drop_last(), fuel), json_of(members.last().1, fuel)) {
            (Some(ms), Some(v)) => Some(ms.push((members.last().0, v))),
            _ => None,
        }
    }
}

/// The value of the JSON text `text`, if it is JSON.
pub open spec fn json_view_of(text: Seq<char>) -> Option<JsonView> {
    json_of(text, MAX_NESTING as nat)
}

/// Whether `text` is JSON.
pub open spec fn json_parses(text: Seq<char>) -> bool {
    json_view_of(text) is Some
}

/// Relies on `serde_json::from_str` into a `serde_json::Value`, on
/// `Number::as_u64`, `as_i64` and `as_f64`, and on the `Display` of `Value`
/// (its JSON text) for elements and member values.
#[verifier::external_body]
fn parse_node(text: &str) -> (r: Result<JsonNode, serde_json::Error>)
    ensures
        r is Ok <==> json_node_of(text@) is Some,
        r is Ok ==> r.unwrap()@ == json_node_of(text@).unwrap(),
{
    Ok(match serde_json::from_str::<Value>(text)? {
        Value::Null => JsonNode::Null,
        Value::Bool(b) => JsonNode::Bool(b),
        Value::Number(n) => JsonNode::Number(
            JsonNumber { as_u64: n.as_u64(), as_i64: n.as_i64(), as_f64_bits: n.as_f64().map(|x| x.to_bits()) },
        ),
        Value::String(s) => JsonNode::Str(s),
        Value::Array(a) => JsonNode::Array(a.iter().map(|c| c.to_string()).collect()),
        Value::Object(m) => JsonNode::Object(m.iter().map(|(k, c)| (k.clone(), c.to_string())).collect()),
    })
}

/// Relies on `serde::de::Error::custom` for `serde_json::Error`: builds a
/// decoding error with the given message.
#[verifier::external_body]
pub(crate) fn shape_error(message: &str) -> (r: serde_json::Error) {
    <serde_json::Error as serde::de::Error>::custom(message)
}

/// Copies the JSON text `text` into a [`JsonValue`], following at most
/// `depth` levels of arrays and objects.
fn copy_json(text: &str, depth: u32) -> (r: Result<JsonValue, serde_json::Error>)
    ensures
        match json_of(text@, depth as nat) {
            Some(m) => r is Ok && json_view(r.unwrap()) == m,
            None => r is Err,
        },
    decreases depth,
{
    let node = parse_node(text)?;
    assert(json_node_of(text@) == Some(node@));
    match node {
        JsonNode::Null => Ok(JsonValue::Null),
        JsonNode::Bool(b) => Ok(JsonValue::Bool(b)),
        JsonNode::Number(n) => Ok(JsonValue::Number(n)),
        JsonNode::Str(s) => Ok(JsonValue::Str(s)),
        JsonNode::Array(items) => {
            if depth == 0 {
                return Err(shape_error("recursion limit exceeded"));
            }
            let ghost texts = string_views(items@);
            let mut out: Vec<JsonValue> = Vec::new();
            let mut i: usize = 0;
            while i < items.len()
                invariant
                    i <= items.len(),
                    depth > 0,
                    texts == string_views(items@),
                    json_node_of(text@) == Some(JsonNodeView::Array(texts)),
                    json_list(texts.take(i as int), (depth - 1) as nat) == Some(json_views(out@)),
                decreases items.len() - i,
            {
                let item = copy_json(items[i].as_str(), depth - 1);
                proof {
                    assert(texts.take(i + 1).drop_last() =~= texts.take(i as int));
                    assert(texts.take(i + 1).last() == items@[i as int]@);
                }
                match item {
                    Ok(v) => {
                        let ghost before = out@;
                        out.push(v);
                        assert(out@.drop_last() =~= before);
                    },
                    Err(e) => {
                        proof {
                            assert(json_of(texts.take(i + 1).last(), (depth - 1) as nat) is None);
                            assert(json_list(texts.take(i + 1), (depth - 1) as nat) is None);
                            lemma_list_prefix_fails(texts, (depth - 1) as nat, i as int + 1);
                            assert(json_node_of(text@) == Some(JsonNodeView::Array(texts)));
                        }
                        return Err(e);
                    },
                }
                i = i + 1;
            }
            assert(texts.take(i as int) =~= texts);
            Ok(JsonValue::Array(out))
        },
        JsonNode::Object(members) => {
            if depth == 0 {
                return Err(shape_error("recursion limit exceeded"));
            }
            let ghost texts = pair_views(members@);
            let mut out: Vec<(String, JsonValue)> = Vec::new();
            let mut i: usize = 0;
            while i < members.len()
                invariant
                    i <= members.len(),
                    depth > 0,
                    texts == pair_views(members@),
                    json_node_of(text@) == Some(JsonNodeView::Object(texts)),
                    json_members(texts.take(i as int), (depth - 1) as nat) == Some(member_views(out@)),
                decreases members.len() - i,
            {
                let item = copy_json(members[i].1.as_str(), depth - 1);
                proof {
                    assert(texts.take(i + 1).drop_last() =~= texts.take(i as int));
                    assert(texts.take(i + 1).last() == (members@[i as int].0@, members@[i as int].1@));
                }
                match item {
                    Ok(v) => {
                        let ghost before = out@;
                        out.push((members[i].0.clone(), v));
                        assert(out@.drop_last() =~= before);
                    },
                    Err(e) => {
                        proof {
                            assert(json_of(texts.take(i + 1).last().1, (depth - 1) as nat) is None);
                            assert(json_members(texts.take(i + 1), (depth - 1) as nat) is None);
                            lemma_members_prefix_fails(texts, (depth - 1) as nat, i as int + 1);
                            assert(json_node_of(text@) == Some(JsonNodeView::Object(texts)));
                        }
                        return Err(e);
                    },
                }
                i = i + 1;
            }
            assert(texts.take(i as int) =~= texts);
            Ok(JsonValue::Object(out))
        },
    }
}

proof fn lemma_list_prefix_fails(items: Seq<Seq<char>>, fuel: nat, n: int)
    requires
        0 <= n <= items.len(),
        json_list(items.take(n), fuel) is None,
    ensures
        json_list(items, fuel) is None,
    decreases items.len() - n,
{
    if n < items.len() {
        assert(items.take(n + 1).drop_last() =~= items.take(n));
        lemma_list_prefix_fails(items, fuel, n + 1);
    } else {
        assert(items.take(n) =~= items);
    }
}

proof fn lemma_members_prefix_fails(members: Seq<(Seq<char>, Seq<char>)>, fuel: nat, n: int)
    requires
        0 <= n <= members.len(),
        json_members(members.take(n), fuel) is None,
    ensures
        json_members(members, fuel) is None,
    decreases members.len() - n,
{
    if n < members.len() {
        assert(members.take(n + 1).drop_last() =~= members.take(n));
        lemma_members_prefix_fails(members, fuel, n + 1);
    } else {
        assert(members.take(n) =~= members);
    }
}

/// Parses JSON text into a [`JsonValue`].
///
/// Fails on text that is not JSON, or that nests deeper than the parser allows.
pub fn parse_json(text: &str) -> (r: Result<JsonValue, serde_json::Error>)
    ensures
        match json_view_of(text@) {
            Some(m) => r is Ok && json_view(r.unwrap()) == m,
            None => r is Err,
        },
{
    copy_json(text, MAX_NESTING)
}

/// The value of the first member of `members` named `key`.
pub open spec fn lookup(members: Seq<(String, JsonValue)>, key: Seq<char>) -> Option<JsonValue>
    decreases members.len(),
{
    if members.len() == 0 {
        None
    } else if members[0].0@ == key {
        Some(members[0].1)
    } else {
        lookup(members.drop_first(), key)
    }
}

/// The member `key` of `v`, if `v` is an object that has one.
pub open spec fn field(v: JsonValue, key: Seq<char>) -> Option<JsonValue> {
    match v {
        JsonValue::Object(members) => lookup(members@, key),
        _ => None,
    }
}

proof fn lemma_lookup_step(members: Seq<(String, JsonValue)>, key: Seq<char>, i: int)
    requires
        0 <= i < members.len(),
        members[i].0@ != key,
    ensures
        lookup(members.subrange(i, members.len() as int), key) == lookup(
            members.subrange(i + 1, members.len() as int),
            key,
        ),
{
    assert(members.subrange(i, members.len() as int).drop_first() =~= members.subrange(
        i + 1,
        members.len() as int,
    ));
}

/// Finds the member `key` of an object's members.
pub fn lookup_member<'a>(members: &'a Vec<(String, JsonValue)>, key: &str) -> (r: Option<
    &'a JsonValue,
>)
    ensures
        match lookup(members@, key@) {
            Some(v) => r is Some && *r.unwrap() == v,
            None => r is None,
        },
{
    let wanted = String::from_str(key);
    let mut i: usize = 0;
    assert(members@.subrange(0, members@.len() as int) =~= members@);
    while i < members.len()
        invariant
            i <= members.len(),
            wanted@ == key@,
            lookup(members@, key@) == lookup(
                members@.subrange(i as int, members@.len() as int),
                key@,
            ),
        decreases members.len() - i,
    {
        if members[i].0 == wanted {
            return Some(&members[i].1);
        }
        proof {
            lemma_lookup_step(members@, key@, i as int);
        }
        i = i + 1;
    }
    None
}

/// Finds the member `key` of `v`, if `v` is an object.
pub fn get_field<'a>(v: &'a JsonValue, key: &str) -> (r: Option<&'a JsonValue>)
    ensures
        match field(*v, key@) {
            Some(f) => r is Some && *r.unwrap() == f,
            None => r is None,
        },
{
    match v {
        JsonValue::Object(members) => lookup_member(members, key),
        _ => None,
    }
}

/// Whether a string holds exactly the characters of `b`.
pub fn str_equals(a: &String, b: &str) -> (r: bool)
    ensures
        r == (a@ == b@),
{
    let b = String::from_str(b);
    *a == b
}

/// `v` read as a string.
pub open spec fn string_of(v: JsonValue) -> Option<String> {
    match v {
        JsonValue::Str(s) => Some(s),
        _ => None,
    }
}

/// `v` read as a boolean.
pub open spec fn bool_of(v: JsonValue) -> Option<bool> {
    match v {
        JsonValue::Bool(b) => Some(b),
        _ => None,
    }
}

/// `v` read as an `i64`: an integer within its range.
pub open spec fn i64_of(v: JsonValue) -> Option<i64> {
    match v {
        JsonValue::Number(n) => n.as_i64,
        _ => None,
    }
}

/// `v` read as an `i32`: an integer within its range.
pub open spec fn i32_of(v: JsonValue) -> Option<i32> {
    match i64_of(v) {
        Some(i) => if i32::MIN <= i <= i32::MAX {
            Some(i as i32)
        } else {
            None
        },
        None => None,
    }
}

/// `v` read as a `u64`: a non-negative integer within its range.
pub open spec fn u64_of(v: JsonValue) -> Option<u64> {
    match v {
        JsonValue::Number(n) => n.as_u64,
        _ => None,
    }
}

/// `v` read as an `f64`, given as its bit pattern: any number.
pub open spec fn f64_bits_of(v: JsonValue) -> Option<u64> {
    match v {
        JsonValue::Number(n) => n.as_f64_bits,
        _ => None,
    }
}

/// An optional string member: absent or `null` read as `None`.
pub open spec fn optional_string_of(f: Option<JsonValue>) -> Option<Option<String>> {
    match f {
        None => Some(None),
        Some(JsonValue::Null) => Some(None),
        Some(JsonValue::Str(s)) => Some(Some(s)),
        Some(_) => None,
    }
}

/// Reads `v` as a string.
pub fn read_string(v: &JsonValue) -> (r: Result<String, serde_json::Error>)
    ensures
        match string_of(*v) {
            Some(s) => r == Ok::<String, serde_json::Error>(s),
            None => r is Err,
        },
{
    match v {
        JsonValue::Str(s) => Ok(s.clone()),
        _ => Err(shape_error("invalid type: expected a string")),
    }
}

/// Reads `v` as a boolean.
pub fn read_bool(v: &JsonValue) -> (r: Result<bool, serde_json::Error>)
    ensures
        match bool_of(*v) {
            Some(b) => r == Ok::<bool, serde_json::Error>(b),
            None => r is Err,
        },
{
    match v {
        JsonValue::Bool(b) => Ok(*b),
        _ => Err(shape_error("invalid type: expected a boolean")),
    }
}

/// Reads `v` as an `i64`.
pub fn read_i64(v: &JsonValue) -> (r: Result<i64, serde_json::Error>)
    ensures
        match i64_of(*v) {
            Some(i) => r == Ok::<i64, serde_json::Error>(i),
            None => r is Err,
        },
{
    match v {
        JsonValue::Number(n) => match n.as_i64 {
            Some(i) => Ok(i),
            None => Err(shape_error("invalid type: expected i64")),
        },
        _ => Err(shape_error("invalid type: expected i64")),
    }
}

/// Reads `v` as an `i32`.
pub fn read_i32(v: &JsonValue) -> (r: Result<i32, serde_json::Error>)
    ensures
        match i32_of(*v) {
            Some(i) => r == Ok::<i32, serde_json::Error>(i),
            None => r is Err,
        },
{
    let i = read_i64(v)?;
    if i32::MIN as i64 <= i && i <= i32::MAX as i64 {
        Ok(i as i32)
    } else {
        Err(shape_error("invalid value: expected i32"))
    }
}

/// Reads `v` as a `u64`.
pub fn read_u64(v: &JsonValue) -> (r: Result<u64, serde_json::Error>)
    ensures
        match u64_of(*v) {
            Some(u) => r == Ok::<u64, serde_json::Error>(u),
            None => r is Err,
        },
{
    match v {
        JsonValue::Number(n) => match n.as_u64 {
            Some(u) => Ok(u),
            None => Err(shape_error("invalid type: expected u64")),
        },
        _ => Err(shape_error("invalid type: expected u64")),
    }
}

/// Reads `v` as an `f64`, returned as its bit pattern.
pub fn read_f64_bits(v: &JsonValue) -> (r: Result<u64, serde_json::Error>)
    ensures
        match f64_bits_of(*v) {
            Some(b) => r == Ok::<u64, serde_json::Error>(b),
            None => r is Err,
        },
{
    match v {
        JsonValue::Number(n) => match n.as_f64_bits {
            Some(b) => Ok(b),
            None => Err(shape_error("invalid type: expected f64")),
        },
        _ => Err(shape_error("invalid type: expected f64")),
    }
}

/// Reads the required member `key` of `v`, which must be an object.
pub fn required<'a>(v: &'a JsonValue, key: &str) -> (r: Result<&'a JsonValue, serde_json::Error>)
    ensures
        match field(*v, key@) {
            Some(f) => r is Ok && *r.unwrap() == f,
            None => r is Err,
        },
{
    match get_field(v, key) {
        Some(f) => Ok(f),
        None => Err(shape_error("missing field")),
    }
}

/// Reads the optional string member `key` of `v`.
pub fn read_optional_string(v: &JsonValue, key: &str) -> (r: Result<Option<String>, serde_json::Error>)
    ensures
        match optional_string_of(field(*v, key@)) {
            Some(o) => r == Ok::<Option<String>, serde_json::Error>(o),
            None => r is Err,
        },
{
    match get_field(v, key) {
        None => Ok(None),
        Some(JsonValue::Null) => Ok(None),
        Some(JsonValue::Str(s)) => Ok(Some(s.clone())),
        Some(_) => Err(shape_error("invalid type: expected a string or null")),
    }
}

} // verus!
