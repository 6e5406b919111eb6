use vstd::prelude::*;

use crate::errors::ParseError;
use crate::text::{all_digits, digit_char, digit_val, digits_val, is_digit, lemma_digits_val_nonneg};
use crate::utils::{
    extract_json_from_html, sanitize_undefined, spec_extract_between, spec_sanitize_undefined,
};

verus! {

// ------------------------------------------------------------------
// The tree model of an upstream document
// ------------------------------------------------------------------

/// A parsed upstream JSON document. Object members keep their document
/// order; a number that is not representable as an `i64` (a fraction, or an
/// integer beyond the range) is carried as `OtherNum`, since no strategy
/// reads such a field.
#[derive(Debug)]
pub enum JsonValue {
    Null,
    Bool(bool),
    Int(i64),
    OtherNum,
    Str(String),
    Arr(Vec<JsonValue>),
    Obj(Vec<(String, JsonValue)>),
}

// ------------------------------------------------------------------
// Nested projection
// ------------------------------------------------------------------

pub open spec fn obj_get_from(
    entries: Seq<(String, JsonValue)>,
    key: Seq<char>,
    i: int,
) -> Option<JsonValue>
    decreases entries.len() - i,
{
    if !(0 <= i < entries.len()) {
        None
    } else if entries[i].0@ == key {
        Some(entries[i].1)
    } else {
        obj_get_from(entries, key, i + 1)
    }
}

/// The member of an object named `key` (first match in document order).
pub open spec fn obj_get(entries: Seq<(String, JsonValue)>, key: Seq<char>) -> Option<JsonValue> {
    obj_get_from(entries, key, 0)
}

/// A path segment read as an array index: decimal digits with no redundant
/// leading zero.
pub open spec fn seg_index(seg: Seq<char>) -> Option<int> {
    if seg.len() > 0 && all_digits(seg) && (seg.len() == 1 || seg[0] != '0') {
        Some(digits_val(seg))
    } else {
        None
    }
}

/// One projection step: a member of an object, or an element of an array.
/// A scalar has no children.
pub open spec fn j_child(v: JsonValue, seg: Seq<char>) -> Option<JsonValue> {
    match v {
        JsonValue::Obj(entries) => obj_get(entries@, seg),
        JsonValue::Arr(items) => match seg_index(seg) {
            Some(n) => if 0 <= n < items@.len() {
                Some(items@[n])
            } else {
                None
            },
            None => None,
        },
        _ => None,
    }
}

/// Projection along a segment sequence. Total: an absent or type-mismatched
/// segment yields `None`, never a failure.
pub open spec fn j_at(v: JsonValue, segs: Seq<Seq<char>>) -> Option<JsonValue>
    decreases segs.len(),
{
    if segs.len() == 0 {
        Some(v)
    } else {
        match j_child(v, segs[0]) {
            Some(c) => j_at(c, segs.drop_first()),
            None => None,
        }
    }
}

/// An absent first segment makes the whole projection absent, however long
/// the rest of the path is: absence signals are values here, not failures.
pub proof fn lemma_projection_absent_prefix(v: JsonValue, segs: Seq<Seq<char>>)
    requires
        segs.len() > 0,
        j_child(v, segs[0]) is None,
    ensures
        j_at(v, segs) is None,
{
}

/// End of the path segment that starts at `i`: the next `/`, or the end of
/// the path.
pub open spec fn seg_end(p: Seq<char>, i: int) -> int
    decreases p.len() - i,
{
    if 0 <= i < p.len() && p[i] != '/' {
        seg_end(p, i + 1)
    } else {
        i
    }
}

pub proof fn lemma_seg_end_bounds(p: Seq<char>, i: int)
    requires
        0 <= i <= p.len(),
    ensures
        i <= seg_end(p, i) <= p.len(),
    decreases p.len() - i,
{
    if i < p.len() && p[i] != '/' {
        lemma_seg_end_bounds(p, i + 1);
    }
}

/// The `/`-separated segments of `p` from index `i` on.
pub open spec fn split_from(p: Seq<char>, i: int) -> Seq<Seq<char>>
    decreases p.len() - i
        when 0 <= i <= p.len()
        via split_from_decreases
{
    let e = seg_end(p, i);
    if e >= p.len() {
        seq![p.subrange(i, p.len() as int)]
    } else {
        seq![p.subrange(i, e)] + split_from(p, e + 1)
    }
}

#[via_fn]
proof fn split_from_decreases(p: Seq<char>, i: int) {
    lemma_seg_end_bounds(p, i);
}

/// Projection along a slash-delimited path: the empty path is the document
/// itself; any other path must begin with `/`.
pub open spec fn spec_pointer(v: JsonValue, p: Seq<char>) -> Option<JsonValue> {
    if p.len() == 0 {
        Some(v)
    } else if p[0] == '/' {
        j_at(v, split_from(p, 1))
    } else {
        None
    }
}

fn obj_lookup<'a>(entries: &'a Vec<(String, JsonValue)>, seg: &str) -> (r: Option<&'a JsonValue>)
    ensures
        match r {
            Some(c) => obj_get(entries@, seg@) == Some(*c),
            None => obj_get(entries@, seg@) is None,
        },
{
    let key = String::from_str(seg);
    let mut i: usize = 0;
    while i < entries.len()
        invariant
            key@ == seg@,
            i <= entries@.len(),
            obj_get(entries@, seg@) == obj_get_from(entries@, seg@, i as int),
        decreases entries@.len() - i,
    {
        let pair = &entries[i];
        if pair.0 == key {
            return Some(&pair.1);
        }
        i += 1;
    }
    None
}

fn parse_seg_index(seg: &str, len: usize) -> (r: Option<usize>)
    ensures
        match r {
            Some(n) => seg_index(seg@) == Some(n as int) && n < len,
            None => match seg_index(seg@) {
                Some(m) => m >= len,
                None => true,
            },
        },
{
    let m = seg.unicode_len();
    if m == 0 {
        return None;
    }
    if m > 1 && seg.get_char(0) == '0' {
        return None;
    }
    let mut i: usize = 0;
    while i < m
        invariant
            m == seg@.len(),
            i <= m,
            forall|k: int| 0 <= k < i ==> is_digit(#[trigger] seg@[k]),
        decreases m - i,
    {
        if !digit_char(seg.get_char(i)) {
            proof {
                assert(!is_digit(seg@[i as int]));
            }
            return None;
        }
        i += 1;
    }
    assert(all_digits(seg@));
    let mut acc: u128 = 0;
    let mut big = false;
    let mut j: usize = 0;
    while j < m
        invariant
            m == seg@.len(),
            j <= m,
            all_digits(seg@),
            !big ==> acc == digits_val(seg@.take(j as int)),
            big ==> digits_val(seg@.take(j as int)) >= len,
        decreases m - j,
    {
        let ghost pre = seg@.take(j as int);
        proof {
            assert(seg@.take(j + 1).drop_last() =~= pre);
            assert(seg@.take(j + 1).last() == seg@[j as int]);
            assert forall|k: int| 0 <= k < pre.len() implies is_digit(#[trigger] pre[k]) by {
                assert(pre[k] == seg@[k]);
            }
            lemma_digits_val_nonneg(pre);
        }
        if !big {
            if acc >= len as u128 {
                big = true;
            } else {
                let d = (seg.get_char(j) as u32 - 48) as u128;
                acc = acc * 10 + d;
            }
        }
        j += 1;
    }
    proof {
        assert(seg@.take(m as int) =~= seg@);
    }
    if big || acc >= len as u128 {
        None
    } else {
        Some(acc as usize)
    }
}

fn j_child_ref<'a>(v: &'a JsonValue, seg: &str) -> (r: Option<&'a JsonValue>)
    ensures
        match r {
            Some(c) => j_child(*v, seg@) == Some(*c),
            None => j_child(*v, seg@) is None,
        },
{
    match v {
        JsonValue::Obj(entries) => obj_lookup(entries, seg),
        JsonValue::Arr(items) => match parse_seg_index(seg, items.len()) {
            Some(n) => Some(&items[n]),
            None => None,
        },
        _ => None,
    }
}

/// Defensive nested-field projection: the value at a slash-delimited path,
/// or `None` when any segment is missing or of the wrong shape. Never
/// panics; callers choose their own default explicitly.
pub fn pointer<'a>(v: &'a JsonValue, path: &str) -> (r: Option<&'a JsonValue>)
    ensures
        match r {
            Some(x) => spec_pointer(*v, path@) == Some(*x),
            None => spec_pointer(*v, path@) is None,
        },
{
    let n = path.unicode_len();
    if n == 0 {
        return Some(v);
    }
    if path.get_char(0) != '/' {
        return None;
    }
    let mut cur: &JsonValue = v;
    let mut i: usize = 1;
    loop
        invariant
            1 <= i <= n,
            n == path@.len(),
            path@[0] == '/',
            spec_pointer(*v, path@) == j_at(*cur, split_from(path@, i as int)),
        decreases n - i,
    {
        let mut e = i;
        while e < n && path.get_char(e) != '/'
            invariant
                i <= e <= n,
                n == path@.len(),
                seg_end(path@, i as int) == seg_end(path@, e as int),
            decreases n - e,
        {
            e += 1;
        }
        let seg = path.substring_char(i, e);
        let child = match j_child_ref(cur, seg) {
            Some(c) => c,
            None => {
                return None;
            },
        };
        if e >= n {
            proof {
                assert(seg_end(path@, i as int) == n);
                assert(split_from(path@, i as int) == seq![path@.subrange(i as int, n as int)]);
                assert((seq![path@.subrange(i as int, n as int)]).drop_first()
                    =~= Seq::<Seq<char>>::empty());
                assert(j_at(*child, Seq::<Seq<char>>::empty()) == Some(*child));
                assert(j_at(*cur, split_from(path@, i as int)) == Some(*child));
            }
            return Some(child);
        }
        proof {
            assert((seq![path@.subrange(i as int, e as int)] + split_from(path@, e + 1))
                .drop_first() =~= split_from(path@, e + 1));
        }
        cur = child;
        i = e + 1;
    }
}

// ------------------------------------------------------------------
// Typed accessors over the projection
// ------------------------------------------------------------------

pub open spec fn spec_str_at(v: JsonValue, p: Seq<char>) -> Option<Seq<char>> {
    match spec_pointer(v, p) {
        Some(JsonValue::Str(s)) => Some(s@),
        _ => None,
    }
}

/// The string at `p`, or the empty string where it is absent or not a
/// string: missing upstream fields are expected, not exceptional.
pub open spec fn spec_str_or_empty(v: JsonValue, p: Seq<char>) -> Seq<char> {
    match spec_str_at(v, p) {
        Some(s) => s,
        None => Seq::empty(),
    }
}

pub open spec fn spec_int_at(v: JsonValue, p: Seq<char>) -> Option<int> {
    match spec_pointer(v, p) {
        Some(JsonValue::Int(n)) => Some(n as int),
        _ => None,
    }
}

pub open spec fn spec_bool_at(v: JsonValue, p: Seq<char>) -> Option<bool> {
    match spec_pointer(v, p) {
        Some(JsonValue::Bool(b)) => Some(b),
        _ => None,
    }
}

pub fn get_str(v: &JsonValue, path: &str) -> (r: Option<String>)
    ensures
        match r {
            Some(s) => spec_str_at(*v, path@) == Some(s@),
            None => spec_str_at(*v, path@) is None,
        },
{
    match pointer(v, path) {
        Some(JsonValue::Str(s)) => Some(s.clone()),
        _ => None,
    }
}

pub fn get_str_or_empty(v: &JsonValue, path: &str) -> (r: String)
    ensures
        r@ == spec_str_or_empty(*v, path@),
{
    match get_str(v, path) {
        Some(s) => s,
        None => String::new(),
    }
}

pub fn get_i64(v: &JsonValue, path: &str) -> (r: Option<i64>)
    ensures
        match r {
            Some(n) => spec_int_at(*v, path@) == Some(n as int),
            None => spec_int_at(*v, path@) is None,
        },
{
    match pointer(v, path) {
        Some(JsonValue::Int(n)) => Some(*n),
        _ => None,
    }
}

pub fn get_bool(v: &JsonValue, path: &str) -> (r: Option<bool>)
    ensures
        match r {
            Some(b) => spec_bool_at(*v, path@) == Some(b),
            None => spec_bool_at(*v, path@) is None,
        },
{
    match pointer(v, path) {
        Some(JsonValue::Bool(b)) => Some(*b),
        _ => None,
    }
}

pub fn get_arr<'a>(v: &'a JsonValue, path: &str) -> (r: Option<&'a Vec<JsonValue>>)
    ensures
        match r {
            Some(items) => spec_pointer(*v, path@) == Some(JsonValue::Arr(*items)),
            None => match spec_pointer(*v, path@) {
                Some(JsonValue::Arr(_)) => false,
                _ => true,
            },
        },
{
    match pointer(v, path) {
        Some(JsonValue::Arr(items)) => Some(items),
        _ => None,
    }
}

pub fn get_obj<'a>(v: &'a JsonValue, path: &str) -> (r: Option<&'a Vec<(String, JsonValue)>>)
    ensures
        match r {
            Some(entries) => spec_pointer(*v, path@) == Some(JsonValue::Obj(*entries)),
            None => match spec_pointer(*v, path@) {
                Some(JsonValue::Obj(_)) => false,
                _ => true,
            },
        },
{
    match pointer(v, path) {
        Some(JsonValue::Obj(entries)) => Some(entries),
        _ => None,
    }
}

// ------------------------------------------------------------------
// Parsing through serde_json
// ------------------------------------------------------------------

/// The JSON document a text denotes, as this library's tree, or `None`
/// where the text is not valid JSON. The result depends on the text alone.
pub uninterp spec fn json_of(s: Seq<char>) -> Option<JsonValue>;

/// Relies on serde_json::from_str::<serde_json::Value>: parses the text as
/// one JSON document, deterministically in the text.
#[verifier::external_body]
pub(crate) fn parse_json(s: &str) -> (r: Option<JsonValue>)
    ensures
        r == json_of(s@),
{
    match serde_json::from_str::<serde_json::Value>(s) {
        Ok(v) => Some(convert_json(&v)),
        Err(_) => None,
    }
}

/// The parsed document type of serde_json, opaque here: values of it only
/// pass from the parse to the conversion below.
#[verifier::external_type_specification]
#[verifier::external_body]
pub struct ExSerdeValue(serde_json::Value);

/// Relies on serde_json::Value and serde_json::Number::as_i64: moves each
/// variant of the parsed document into the library's tree, field for field.
#[verifier::external_body]
fn convert_json(v: &serde_json::Value) -> JsonValue {
    match v {
        serde_json::Value::Null => JsonValue::Null,
        serde_json::Value::Bool(b) => JsonValue::Bool(*b),
        serde_json::Value::Number(n) => match n.as_i64() {
            Some(i) => JsonValue::Int(i),
            None => JsonValue::OtherNum,
        },
        serde_json::Value::String(s) => JsonValue::Str(s.clone()),
        serde_json::Value::Array(a) => JsonValue::Arr(a.iter().map(convert_json).collect()),
        serde_json::Value::Object(m) => JsonValue::Obj(
            m.iter().map(|(k, x)| (k.clone(), convert_json(x))).collect(),
        ),
    }
}

/// Parses the body of an upstream API answer into the tree; a body that is
/// not one JSON document is a malformed payload.
pub fn parse_upstream_json(body: &str) -> (r: Result<JsonValue, ParseError>)
    ensures
        match r {
            Ok(v) => json_of(body@) == Some(v),
            Err(e) => e == ParseError::MalformedUpstreamPayload && json_of(body@) is None,
        },
{
    match parse_json(body) {
        Some(v) => Ok(v),
        None => Err(ParseError::MalformedUpstreamPayload),
    }
}

// ------------------------------------------------------------------
// The embedded-state pipeline
// ------------------------------------------------------------------

/// The embedded document the two anchors select, after sanitization, where
/// the slice is found and parses.
pub open spec fn spec_embedded(
    html: Seq<char>,
    anchor: Seq<char>,
    close: Seq<char>,
) -> Option<JsonValue> {
    match spec_extract_between(html, anchor, close) {
        Some(s) => json_of(spec_sanitize_undefined(s)),
        None => None,
    }
}

/// The shared embedded-state primitive: slice the document out of the HTML
/// between the two anchors, sanitize bare `undefined` tokens, and parse.
pub fn extract_embedded_json(html: &str, anchor: &str, close: &str) -> (r: Result<
    JsonValue,
    ParseError,
>)
    ensures
        match r {
            Ok(v) => spec_extract_between(html@, anchor@, close@) matches Some(s) && json_of(
                spec_sanitize_undefined(s),
            ) == Some(v),
            Err(e) => {
                ||| (e == ParseError::EmbeddedDataNotFound && spec_extract_between(
                    html@,
                    anchor@,
                    close@,
                ) is None)
                ||| (e == ParseError::MalformedEmbeddedJson && (spec_extract_between(
                    html@,
                    anchor@,
                    close@,
                ) matches Some(s) && json_of(spec_sanitize_undefined(s)) is None))
            },
        },
{
    let raw = match extract_json_from_html(html, anchor, close) {
        Ok(raw) => raw,
        Err(e) => {
            return Err(e);
        },
    };
    let clean = sanitize_undefined(raw.as_str());
    match parse_json(clean.as_str()) {
        Some(v) => Ok(v),
        None => Err(ParseError::MalformedEmbeddedJson),
    }
}

/// Embedded-state extraction is a function of the html and the anchors
/// alone: identical inputs slice out identical documents.
pub proof fn lemma_embedded_extraction_deterministic(
    h1: Seq<char>,
    a1: Seq<char>,
    c1: Seq<char>,
    h2: Seq<char>,
    a2: Seq<char>,
    c2: Seq<char>,
)
    requires
        h1 == h2,
        a1 == a2,
        c1 == c2,
    ensures
        spec_extract_between(h1, a1, c1) == spec_extract_between(h2, a2, c2),
{
}

} // verus!
