//! The library's own model of structured (JSON-shaped) values.
//!
//! Values extracted from raw model text are held in [`JsonValue`], whose
//! contents Verus can reason about. Numbers are carried as their literal
//! rendering, since the engine never computes with them. Parsing itself is
//! delegated to serde_json behind a trusted wrapper whose result is named by
//! the uninterpreted function [`json_of`].

use vstd::prelude::*;

use crate::text::str_eq;

verus! {

/// A structured value: the library's image of a JSON document.
#[derive(Debug, PartialEq, Eq)]
pub enum JsonValue {
    Null,
    Bool(bool),
    /// A number, kept as its canonical decimal rendering.
    Number(String),
    String(String),
    Array(Vec<JsonValue>),
    /// An object: key/value pairs with distinct keys.
    Object(Vec<(String, JsonValue)>),
}

/// The value of the first field whose key reads `key`.
pub open spec fn spec_lookup(fields: Seq<(String, JsonValue)>, key: Seq<char>) -> Option<
    JsonValue,
>
    decreases fields.len(),
{
    if fields.len() == 0 {
        None
    } else if fields[0].0@ == key {
        Some(fields[0].1)
    } else {
        spec_lookup(fields.drop_first(), key)
    }
}

/// `fields` with the first `key` entry replaced by `value`, or with
/// `(key, value)` appended when no entry has that key.
pub open spec fn spec_upsert(
    fields: Seq<(String, JsonValue)>,
    key: String,
    value: JsonValue,
) -> Seq<(String, JsonValue)>
    decreases fields.len(),
{
    if fields.len() == 0 {
        seq![(key, value)]
    } else if fields[0].0@ == key@ {
        seq![(key, value)] + fields.drop_first()
    } else {
        seq![fields[0]] + spec_upsert(fields.drop_first(), key, value)
    }
}

/// `state` after merging every pair of `payload` in order: existing keys are
/// overwritten, new keys appended, nothing is ever removed.
pub open spec fn spec_merge(
    state: Seq<(String, JsonValue)>,
    payload: Seq<(String, JsonValue)>,
) -> Seq<(String, JsonValue)>
    decreases payload.len(),
{
    if payload.len() == 0 {
        state
    } else {
        spec_merge(spec_upsert(state, payload[0].0, payload[0].1), payload.drop_first())
    }
}

impl JsonValue {
    /// The field named `key`, when this value is an object that has it.
    pub open spec fn spec_field(&self, key: Seq<char>) -> Option<JsonValue> {
        match self {
            JsonValue::Object(fields) => spec_lookup(fields@, key),
            _ => None,
        }
    }

    /// The characters of the string field named `key`, when present.
    pub open spec fn spec_string_field(&self, key: Seq<char>) -> Option<Seq<char>> {
        match self.spec_field(key) {
            Some(JsonValue::String(s)) => Some(s@),
            _ => None,
        }
    }

    /// This value is an object with at least one field.
    pub open spec fn is_nonempty_object(&self) -> bool {
        match self {
            JsonValue::Object(fields) => fields@.len() > 0,
            _ => false,
        }
    }

    /// Borrow the field named `key`, when this value is an object that has it.
    #[verifier::loop_isolation(false)]
    pub fn get_field<'a>(&'a self, key: &str) -> (r: Option<&'a JsonValue>)
        ensures
            match r {
                Some(v) => self.spec_field(key@) == Some(*v),
                None => self.spec_field(key@) is None,
            },
    {
        match self {
            JsonValue::Object(fields) => {
                let n = fields.len();
                let mut i: usize = 0;
                while i < n
                    invariant
                        0 <= i <= n,
                        n == fields@.len(),
                        forall|j: int| 0 <= j < i ==> #[trigger] fields@[j].0@ != key@,
                    decreases n - i,
                {
                    if str_eq(fields[i].0.as_str(), key) {
                        proof {
                            lemma_lookup_first_match(fields@, key@, i as int);
                        }
                        return Some(&fields[i].1);
                    }
                    i = i + 1;
                }
                proof {
                    lemma_lookup_none(fields@, key@);
                }
                None
            },
            _ => None,
        }
    }

    /// Move the field named `key` out of this value, when it is an object
    /// that has it.
    #[verifier::loop_isolation(false)]
    pub fn take_field(self, key: &str) -> (r: Option<JsonValue>)
        ensures
            r == self.spec_field(key@),
    {
        match self {
            JsonValue::Object(mut fields) => {
                let ghost orig = fields@;
                let n = fields.len();
                let mut i: usize = 0;
                while i < n
                    invariant
                        0 <= i <= n,
                        n == fields@.len(),
                        fields@ == orig,
                        forall|j: int| 0 <= j < i ==> #[trigger] fields@[j].0@ != key@,
                    decreases n - i,
                {
                    if str_eq(fields[i].0.as_str(), key) {
                        proof {
                            lemma_lookup_first_match(fields@, key@, i as int);
                        }
                        let pair = fields.remove(i);
                        return Some(pair.1);
                    }
                    i = i + 1;
                }
                proof {
                    lemma_lookup_none(fields@, key@);
                }
                None
            },
            _ => None,
        }
    }
}

proof fn lemma_lookup_first_match(fields: Seq<(String, JsonValue)>, key: Seq<char>, idx: int)
    requires
        0 <= idx < fields.len(),
        fields[idx].0@ == key,
        forall|j: int| 0 <= j < idx ==> #[trigger] fields[j].0@ != key,
    ensures
        spec_lookup(fields, key) == Some(fields[idx].1),
    decreases idx,
{
    if idx > 0 {
        lemma_lookup_first_match(fields.drop_first(), key, idx - 1);
    }
}

proof fn lemma_lookup_none(fields: Seq<(String, JsonValue)>, key: Seq<char>)
    requires
        forall|j: int| 0 <= j < fields.len() ==> #[trigger] fields[j].0@ != key,
    ensures
        spec_lookup(fields, key) is None,
    decreases fields.len(),
{
    if fields.len() > 0 {
        lemma_lookup_none(fields.drop_first(), key);
    }
}

/// Replace the first `key` entry of `fields` with `value`, or append
/// `(key, value)` when no entry has that key.
#[verifier::loop_isolation(false)]
pub fn upsert_field(fields: &mut Vec<(String, JsonValue)>, key: String, value: JsonValue)
    ensures
        final(fields)@ == spec_upsert(old(fields)@, key, value),
{
    let ghost orig = fields@;
    let n = fields.len();
    let mut i: usize = 0;
    while i < n
        invariant
            0 <= i <= n,
            n == fields@.len(),
            fields@ == orig,
            forall|j: int| 0 <= j < i ==> #[trigger] fields@[j].0@ != key@,
        decreases n - i,
    {
        if str_eq(fields[i].0.as_str(), key.as_str()) {
            proof {
                lemma_upsert_at_match(fields@, key, value, i as int);
            }
            fields.remove(i);
            fields.insert(i, (key, value));
            proof {
                assert(fields@ =~= orig.update(i as int, (key, value)));
            }
            return ;
        }
        i = i + 1;
    }
    proof {
        lemma_upsert_no_match(fields@, key, value);
    }
    fields.push((key, value));
}

proof fn lemma_upsert_at_match(
    fields: Seq<(String, JsonValue)>,
    key: String,
    value: JsonValue,
    idx: int,
)
    requires
        0 <= idx < fields.len(),
        fields[idx].0@ == key@,
        forall|j: int| 0 <= j < idx ==> #[trigger] fields[j].0@ != key@,
    ensures
        spec_upsert(fields, key, value) == fields.update(idx, (key, value)),
    decreases idx,
{
    if idx == 0 {
        assert(seq![(key, value)] + fields.drop_first() =~= fields.update(0, (key, value)));
    } else {
        lemma_upsert_at_match(fields.drop_first(), key, value, idx - 1);
        assert(seq![fields[0]] + fields.drop_first().update(idx - 1, (key, value)) =~= fields.update(
            idx,
            (key, value),
        ));
    }
}

proof fn lemma_upsert_no_match(fields: Seq<(String, JsonValue)>, key: String, value: JsonValue)
    requires
        forall|j: int| 0 <= j < fields.len() ==> #[trigger] fields[j].0@ != key@,
    ensures
        spec_upsert(fields, key, value) == fields.push((key, value)),
    decreases fields.len(),
{
    if fields.len() == 0 {
        assert(seq![(key, value)] =~= fields.push((key, value)));
    } else {
        lemma_upsert_no_match(fields.drop_first(), key, value);
        assert(seq![fields[0]] + fields.drop_first().push((key, value)) =~= fields.push(
            (key, value),
        ));
    }
}

/// Merge every pair of `payload` into `state` in order.
#[verifier::loop_isolation(false)]
#[verifier::loop_isolation(false)]
pub fn merge_fields(state: &mut Vec<(String, JsonValue)>, payload: Vec<(String, JsonValue)>)
    ensures
        final(state)@ == spec_merge(old(state)@, payload@),
{
    let mut rest = payload;
    while rest.len() > 0
        invariant
            spec_merge(old(state)@, payload@) == spec_merge(state@, rest@),
        decreases rest@.len(),
    {
        let ghost before = rest@;
        let pair = rest.remove(0);
        proof {
            assert(rest@ =~= before.drop_first());
        }
        upsert_field(state, pair.0, pair.1);
    }
}

#[verifier::external_type_specification]
#[verifier::external_body]
pub struct ExValue(serde_json::Value);

/// The structured value that the text parses to, if any: the result of
/// serde_json's parser, carried over into the library's value type.
pub uninterp spec fn json_of(text: Seq<char>) -> Option<JsonValue>;

/// Relies on serde_json::Value: each arm moves one variant's contents into
/// the library's own value type; a number keeps the rendering that
/// serde_json::Number's Display gives it.
#[verifier::external_body]
fn value_of_serde(v: serde_json::Value) -> JsonValue {
    match v {
        serde_json::Value::Null => JsonValue::Null,
        serde_json::Value::Bool(b) => JsonValue::Bool(b),
        serde_json::Value::Number(n) => JsonValue::Number(n.to_string()),
        serde_json::Value::String(s) => JsonValue::String(s),
        serde_json::Value::Array(items) => JsonValue::Array(
            items.into_iter().map(value_of_serde).collect(),
        ),
        serde_json::Value::Object(fields) => JsonValue::Object(
            fields.into_iter().map(|(k, v)| (k, value_of_serde(v))).collect(),
        ),
    }
}

/// Relies on serde_json::from_str::<serde_json::Value>: whether and what the
/// text parses to depends on the text alone, so the converted result is named
/// by `json_of`.
#[verifier::external_body]
pub(crate) fn parse_json(text: &str) -> (r: Option<JsonValue>)
    ensures
        r == json_of(text@),
{
    match serde_json::from_str::<serde_json::Value>(text) {
        Ok(v) => Some(value_of_serde(v)),
        Err(_) => None,
    }
}

} // verus!
