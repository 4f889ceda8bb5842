//! JSON documents as the device settings of RAATServer hold them, with
//! field lookup and update as `serde_json::Value` indexing performs them.
use vstd::prelude::*;

verus! {

/// A JSON value. Numbers are kept as their JSON text.
#[derive(Debug, PartialEq)]
pub enum Json {
    Null,
    Bool(bool),
    Number(String),
    Str(String),
    Array(Vec<Json>),
    Object(Vec<(String, Json)>),
}

/// A JSON value by the text of its strings.
pub enum JsonV {
    Null,
    Bool(bool),
    Number(Seq<char>),
    Str(Seq<char>),
    Array(Seq<JsonV>),
    Object(Seq<(Seq<char>, JsonV)>),
}

pub open spec fn jview(j: Json) -> JsonV
    decreases j,
{
    match j {
        Json::Null => JsonV::Null,
        Json::Bool(b) => JsonV::Bool(b),
        Json::Number(n) => JsonV::Number(n@),
        Json::Str(s) => JsonV::Str(s@),
        Json::Array(v) => JsonV::Array(jview_seq(v@)),
        Json::Object(v) => JsonV::Object(jview_pairs(v@)),
    }
}

pub open spec fn jview_seq(s: Seq<Json>) -> Seq<JsonV>
    decreases s,
{
    if s.len() == 0 {
        Seq::empty()
    } else {
        jview_seq(s.drop_last()).push(jview(s.last()))
    }
}

pub open spec fn jview_pairs(s: Seq<(String, Json)>) -> Seq<(Seq<char>, JsonV)>
    decreases s,
{
    if s.len() == 0 {
        Seq::empty()
    } else {
        jview_pairs(s.drop_last()).push((s.last().0@, jview(s.last().1)))
    }
}

pub proof fn lemma_jview_seq(s: Seq<Json>)
    ensures
        jview_seq(s).len() == s.len(),
        forall|i: int| 0 <= i < s.len() ==> #[trigger] jview_seq(s)[i] == jview(s[i]),
    decreases s.len(),
{
    if s.len() > 0 {
        lemma_jview_seq(s.drop_last());
        assert forall|i: int| 0 <= i < s.len() implies #[trigger] jview_seq(s)[i] == jview(s[i]) by {
            if i < s.len() - 1 {
                assert(s.drop_last()[i] == s[i]);
            }
        }
    }
}

pub proof fn lemma_jview_pairs(s: Seq<(String, Json)>)
    ensures
        jview_pairs(s).len() == s.len(),
        forall|i: int|
            0 <= i < s.len() ==> #[trigger] jview_pairs(s)[i] == (s[i].0@, jview(s[i].1)),
    decreases s.len(),
{
    if s.len() > 0 {
        lemma_jview_pairs(s.drop_last());
        assert forall|i: int| 0 <= i < s.len() implies #[trigger] jview_pairs(s)[i] == (
            s[i].0@,
            jview(s[i].1),
        ) by {
            if i < s.len() - 1 {
                assert(s.drop_last()[i] == s[i]);
            }
        }
    }
}

impl Json {
    /// A deep copy.
    pub fn copy(&self) -> (r: Json)
        ensures
            jview(r) == jview(*self),
        decreases self,
    {
        match self {
            Json::Null => Json::Null,
            Json::Bool(b) => Json::Bool(*b),
            Json::Number(n) => Json::Number(n.clone()),
            Json::Str(t) => Json::Str(t.clone()),
            Json::Array(v) => {
                let mut out: Vec<Json> = Vec::new();
                let mut i: usize = 0;
                assert(v@.take(0) =~= Seq::<Json>::empty());
                while i < v.len()
                    invariant
                        *self == Json::Array(*v),
                        i <= v@.len(),
                        jview_seq(out@) == jview_seq(v@.take(i as int)),
                    decreases v.len() - i,
                {
                    proof {
                        vstd::std_specs::vec::axiom_vec_index_decreases(*v, i as int);
                        assert(decreases_to!(*self => (*self)->Array_0));
                        assert(decreases_to!(*v => v[i as int]));
                    }
                    let c = v[i].copy();
                    proof {
                        assert(v@.take(i + 1).drop_last() =~= v@.take(i as int));
                        assert(out@.push(c).drop_last() =~= out@);
                    }
                    out.push(c);
                    i = i + 1;
                }
                assert(v@.take(v@.len() as int) =~= v@);
                Json::Array(out)
            },
            Json::Object(v) => {
                let mut out: Vec<(String, Json)> = Vec::new();
                let mut i: usize = 0;
                assert(v@.take(0) =~= Seq::<(String, Json)>::empty());
                while i < v.len()
                    invariant
                        *self == Json::Object(*v),
                        i <= v@.len(),
                        jview_pairs(out@) == jview_pairs(v@.take(i as int)),
                    decreases v.len() - i,
                {
                    proof {
                        vstd::std_specs::vec::axiom_vec_index_decreases(*v, i as int);
                        assert(decreases_to!(*self => (*self)->Object_0));
                        assert(decreases_to!(*v => v[i as int]));
                        assert(decreases_to!(v[i as int] => v[i as int].1));
                    }
                    let c = v[i].1.copy();
                    let k = v[i].0.clone();
                    proof {
                        assert(v@.take(i + 1).drop_last() =~= v@.take(i as int));
                        assert(out@.push((k, c)).drop_last() =~= out@);
                    }
                    out.push((k, c));
                    i = i + 1;
                }
                assert(v@.take(v@.len() as int) =~= v@);
                Json::Object(out)
            },
        }
    }
}

/// Index of the first entry of `s` with key `k`, or -1.
pub open spec fn key_index(s: Seq<(Seq<char>, JsonV)>, k: Seq<char>) -> int
    decreases s.len(),
{
    if s.len() == 0 {
        -1
    } else if s[0].0 == k {
        0
    } else {
        let r = key_index(s.drop_first(), k);
        if r < 0 {
            -1
        } else {
            r + 1
        }
    }
}

pub proof fn lemma_key_index(s: Seq<(Seq<char>, JsonV)>, k: Seq<char>)
    ensures
        -1 <= key_index(s, k) < s.len(),
        key_index(s, k) >= 0 ==> s[key_index(s, k)].0 == k,
        forall|j: int| 0 <= j < key_index(s, k) ==> #[trigger] s[j].0 != k,
        key_index(s, k) < 0 ==> forall|j: int| 0 <= j < s.len() ==> #[trigger] s[j].0 != k,
    decreases s.len(),
{
    if s.len() > 0 {
        lemma_key_index(s.drop_first(), k);
        assert forall|j: int| 0 <= j < key_index(s, k) implies #[trigger] s[j].0 != k by {
            if j > 0 {
                assert(s[j] == s.drop_first()[j - 1]);
            }
        }
        if key_index(s, k) < 0 {
            assert forall|j: int| 0 <= j < s.len() implies #[trigger] s[j].0 != k by {
                if j > 0 {
                    assert(s[j] == s.drop_first()[j - 1]);
                }
            }
        }
    }
}

pub proof fn lemma_key_index_is(s: Seq<(Seq<char>, JsonV)>, k: Seq<char>, i: int)
    requires
        0 <= i <= s.len(),
        forall|j: int| 0 <= j < i ==> #[trigger] s[j].0 != k,
        i < s.len() ==> s[i].0 == k,
    ensures
        key_index(s, k) == if i < s.len() {
            i
        } else {
            -1
        },
    decreases i,
{
    if i > 0 {
        assert forall|j: int| 0 <= j < i - 1 implies #[trigger] s.drop_first()[j].0 != k by {
            assert(s.drop_first()[j] == s[j + 1]);
        }
        lemma_key_index_is(s.drop_first(), k, i - 1);
    }
}

/// The member `k` of an object: what `value[k]` reads, `Null` when the value
/// is not an object or has no such member.
pub open spec fn jget(v: JsonV, k: Seq<char>) -> JsonV {
    match v {
        JsonV::Object(s) => if key_index(s, k) >= 0 {
            s[key_index(s, k)].1
        } else {
            JsonV::Null
        },
        _ => JsonV::Null,
    }
}

/// The member `k` when `v` is an object that has it (`value.get(k)`).
pub open spec fn jlookup(v: JsonV, k: Seq<char>) -> Option<JsonV> {
    match v {
        JsonV::Object(s) => if key_index(s, k) >= 0 {
            Some(s[key_index(s, k)].1)
        } else {
            None
        },
        _ => None,
    }
}

/// `v` with member `k` set to `x` (`value[k] = x` on an object): an
/// existing member is replaced in place, a new one appended.
pub open spec fn jset(v: JsonV, k: Seq<char>, x: JsonV) -> JsonV {
    match v {
        JsonV::Object(s) => if key_index(s, k) >= 0 {
            JsonV::Object(s.update(key_index(s, k), (k, x)))
        } else {
            JsonV::Object(s.push((k, x)))
        },
        _ => JsonV::Object(seq![(k, x)]),
    }
}

/// The text of a string value.
pub open spec fn jstr(v: JsonV) -> Option<Seq<char>> {
    match v {
        JsonV::Str(s) => Some(s),
        _ => None,
    }
}

fn key_position(v: &Vec<(String, Json)>, k: &str) -> (r: Option<usize>)
    ensures
        match r {
            Some(i) => i == key_index(jview_pairs(v@), k@) && i < v@.len(),
            None => key_index(jview_pairs(v@), k@) == -1,
        },
{
    proof {
        lemma_jview_pairs(v@);
    }
    let key = String::from_str(k);
    let mut i: usize = 0;
    while i < v.len()
        invariant
            key@ == k@,
            i <= v@.len(),
            jview_pairs(v@).len() == v@.len(),
            forall|j: int| 0 <= j < v@.len() ==> #[trigger] jview_pairs(v@)[j] == (v@[j].0@, jview(v@[j].1)),
            forall|j: int| 0 <= j < i ==> #[trigger] jview_pairs(v@)[j].0 != k@,
        decreases v.len() - i,
    {
        if v[i].0 == key {
            proof {
                lemma_key_index_is(jview_pairs(v@), k@, i as int);
            }
            return Some(i);
        }
        i = i + 1;
    }
    proof {
        lemma_key_index_is(jview_pairs(v@), k@, i as int);
    }
    None
}

/// `value.get(k)`: the member `k` of an object.
pub fn get<'a>(v: &'a Json, k: &str) -> (r: Option<&'a Json>)
    ensures
        match r {
            Some(x) => jlookup(jview(*v), k@) == Some(jview(*x)),
            None => jlookup(jview(*v), k@) is None,
        },
{
    match v {
        Json::Object(pairs) => {
            proof {
                lemma_jview_pairs(pairs@);
            }
            match key_position(pairs, k) {
                Some(i) => Some(&pairs[i].1),
                None => None,
            }
        },
        _ => None,
    }
}

/// `value[k].as_str()`: the text of member `k` when it is a string.
pub fn get_str(v: &Json, k: &str) -> (r: Option<String>)
    ensures
        crate::text::opt_str(r) == jstr(jget(jview(*v), k@)),
{
    match get(v, k) {
        Some(Json::Str(s)) => Some(s.clone()),
        _ => None,
    }
}

/// `value[k]`, copied: `Null` when there is no such member.
pub fn get_or_null(v: &Json, k: &str) -> (r: Json)
    ensures
        jview(r) == jget(jview(*v), k@),
{
    match get(v, k) {
        Some(x) => x.copy(),
        None => Json::Null,
    }
}

/// `value[k] = x` on an object; any other value becomes the object `{k: x}`.
pub fn put(v: Json, k: &str, x: Json) -> (r: Json)
    ensures
        jview(r) == jset(jview(v), k@, jview(x)),
{
    match v {
        Json::Object(mut pairs) => {
            proof {
                lemma_jview_pairs(pairs@);
            }
            let ghost before = pairs@;
            match key_position(&pairs, k) {
                Some(i) => {
                    pairs.set(i, (String::from_str(k), x));
                    proof {
                        lemma_jview_pairs(pairs@);
                        assert(jview_pairs(pairs@) =~= jview_pairs(before).update(
                            i as int,
                            (k@, jview(x)),
                        ));
                    }
                    Json::Object(pairs)
                },
                None => {
                    pairs.push((String::from_str(k), x));
                    proof {
                        assert(pairs@.drop_last() =~= before);
                    }
                    Json::Object(pairs)
                },
            }
        },
        _ => {
            let mut pairs: Vec<(String, Json)> = Vec::new();
            pairs.push((String::from_str(k), x));
            proof {
                assert(pairs@.drop_last() =~= Seq::<(String, Json)>::empty());
                assert(jview_pairs(Seq::<(String, Json)>::empty()) =~= Seq::empty());
                assert(jview_pairs(pairs@) =~= seq![(k@, jview(x))]);
            }
            Json::Object(pairs)
        },
    }
}

/// The document type of `serde_json`, which parses and writes JSON text.
#[verifier::external_type_specification]
#[verifier::external_body]
pub struct ExValue(serde_json::Value);

/// The document a `serde_json::Value` holds.
pub uninterp spec fn value_view(v: serde_json::Value) -> JsonV;

/// What `serde_json::from_str::<Value>` makes of a text: the document it
/// holds, or the message of the error.
pub uninterp spec fn json_parse_spec(text: Seq<char>) -> Result<JsonV, Seq<char>>;

/// The document a `serde_json::Value` built from document `v` holds. Its
/// object maps keep their keys in their own order, and a number is held as
/// the number its text denotes.
pub uninterp spec fn json_value_spec(v: JsonV) -> JsonV;

/// The text `Value::to_string` writes for a value holding `v`.
pub uninterp spec fn json_text_spec(v: JsonV) -> Seq<char>;

/// The text written for document `v`: that of the `Value` built from it.
pub open spec fn json_doc_text(v: JsonV) -> Seq<char> {
    json_text_spec(json_value_spec(v))
}

/// Calls `serde_json::from_str::<Value>`; an error comes back as its message.
#[verifier::external_body]
fn parse_value(text: &str) -> (r: Result<serde_json::Value, String>)
    ensures
        match r {
            Ok(v) => json_parse_spec(text@) == Ok::<JsonV, Seq<char>>(value_view(v)),
            Err(e) => json_parse_spec(text@) == Err::<JsonV, Seq<char>>(e@),
        },
{
    serde_json::from_str::<serde_json::Value>(text).map_err(|e| e.to_string())
}

/// Reads a `serde_json::Value` into the library's document, variant by
/// variant (a number as the text `Number`'s `Display` writes).
#[verifier::external_body]
fn json_of_value(v: &serde_json::Value) -> (r: Json)
    ensures
        jview(r) == value_view(*v),
{
    match v {
        serde_json::Value::Null => Json::Null,
        serde_json::Value::Bool(b) => Json::Bool(*b),
        serde_json::Value::Number(n) => Json::Number(n.to_string()),
        serde_json::Value::String(t) => Json::Str(t.clone()),
        serde_json::Value::Array(a) => Json::Array(a.iter().map(json_of_value).collect()),
        serde_json::Value::Object(m) => Json::Object(
            m.iter().map(|(k, x)| (k.clone(), json_of_value(x))).collect(),
        ),
    }
}

/// Builds a `serde_json::Value` from a document, variant by variant; the
/// object map is collected by `serde_json::Map`, and a number text is parsed
/// by `serde_json::Number`'s `FromStr` (a text that is no number gives `Null`).
#[verifier::external_body]
fn value_of_json(j: &Json) -> (r: serde_json::Value)
    ensures
        value_view(r) == json_value_spec(jview(*j)),
{
    match j {
        Json::Null => serde_json::Value::Null,
        Json::Bool(b) => serde_json::Value::Bool(*b),
        Json::Number(n) => n.parse().map_or(serde_json::Value::Null, serde_json::Value::Number),
        Json::Str(t) => serde_json::Value::String(t.clone()),
        Json::Array(a) => serde_json::Value::Array(a.iter().map(value_of_json).collect()),
        Json::Object(m) => serde_json::Value::Object(
            m.iter().map(|(k, x)| (k.clone(), value_of_json(x))).collect(),
        ),
    }
}

/// Calls `Value::to_string`, which writes compact JSON text.
#[verifier::external_body]
fn value_text(v: &serde_json::Value) -> (r: String)
    ensures
        r@ == json_text_spec(value_view(*v)),
{
    v.to_string()
}

/// Parses JSON text: the document, or the parser's error message.
pub fn parse_json(text: &str) -> (r: Result<Json, String>)
    ensures
        match r {
            Ok(j) => json_parse_spec(text@) == Ok::<JsonV, Seq<char>>(jview(j)),
            Err(e) => json_parse_spec(text@) == Err::<JsonV, Seq<char>>(e@),
        },
{
    match parse_value(text) {
        Ok(v) => Ok(json_of_value(&v)),
        Err(e) => Err(e),
    }
}

/// The JSON text of a document, as `serde_json` writes it.
pub fn json_text(j: &Json) -> (r: String)
    ensures
        r@ == json_doc_text(jview(*j)),
{
    let v = value_of_json(j);
    value_text(&v)
}

/// A read gives back what a write wrote, and a write leaves the other
/// members as they were.
pub proof fn law_set_then_lookup(v: JsonV, k: Seq<char>, x: JsonV, other: Seq<char>)
    ensures
        jlookup(jset(v, k, x), k) == Some(x),
        other != k ==> jlookup(jset(v, k, x), other) == match v {
            JsonV::Object(_) => jlookup(v, other),
            _ => None::<JsonV>,
        },
{
    match v {
        JsonV::Object(s) => {
            lemma_key_index(s, k);
            lemma_key_index(s, other);
            let p = key_index(s, k);
            if p >= 0 {
                let t = s.update(p, (k, x));
                assert forall|j: int| 0 <= j < p implies #[trigger] t[j].0 != k by {
                    assert(t[j] == s[j]);
                }
                lemma_key_index_is(t, k, p);
                let q = key_index(s, other);
                if other != k {
                    if q >= 0 {
                        assert forall|j: int| 0 <= j < q implies #[trigger] t[j].0 != other by {
                            if j != p {
                                assert(t[j] == s[j]);
                            }
                        }
                        assert(t[q] == s[q]);
                        lemma_key_index_is(t, other, q);
                    } else {
                        assert forall|j: int| 0 <= j < t.len() implies #[trigger] t[j].0 != other by {
                            if j != p {
                                assert(t[j] == s[j]);
                            }
                        }
                        lemma_key_index_is(t, other, t.len() as int);
                    }
                }
            } else {
                let t = s.push((k, x));
                assert forall|j: int| 0 <= j < s.len() implies #[trigger] t[j].0 != k by {
                    assert(t[j] == s[j]);
                }
                lemma_key_index_is(t, k, s.len() as int);
                let q = key_index(s, other);
                if other != k {
                    if q >= 0 {
                        assert forall|j: int| 0 <= j < q implies #[trigger] t[j].0 != other by {
                            assert(t[j] == s[j]);
                        }
                        assert(t[q] == s[q]);
                        lemma_key_index_is(t, other, q);
                    } else {
                        assert forall|j: int| 0 <= j < t.len() implies #[trigger] t[j].0 != other by {
                            if j < s.len() {
                                assert(t[j] == s[j]);
                            }
                        }
                        lemma_key_index_is(t, other, t.len() as int);
                    }
                }
            }
        },
        _ => {
            let t = seq![(k, x)];
            lemma_key_index_is(t, k, 0);
            if other != k {
                lemma_key_index_is(t, other, 1);
            }
        },
    }
}

} // verus!
