//! JSON interop for diagnostic import/export: field values convert to and
//! from a JSON value model. On the way in, any string that parses as an
//! RFC 3339 timestamp is taken as a timestamp value rather than a string —
//! a heuristic, not a reversible mapping.

use vstd::prelude::*;
use crate::error::{FirestoreError, SerdeError};
use crate::fields::{FFields, map_of_pairs};
use crate::value::{FEntry, FValue, Val};

verus! {

/// One key/value entry of a JSON object.
#[derive(PartialEq, Debug)]
pub struct JsonEntry {
    pub key: String,
    pub value: JsonValue,
}

/// A JSON value. Numbers keep their exact form: integers as integers,
/// doubles as their IEEE-754 bit patterns.
#[derive(PartialEq, Debug)]
pub enum JsonValue {
    Null,
    Bool(bool),
    Int(i64),
    DoubleBits(u64),
    Str(String),
    Array(Vec<JsonValue>),
    Object(Vec<JsonEntry>),
}

/// The mathematical model of a JSON value.
pub enum JVal {
    Null,
    Bool(bool),
    Int(i64),
    Double(u64),
    Str(Seq<char>),
    Array(Seq<JVal>),
    Object(Seq<(Seq<char>, JVal)>),
}

impl View for JsonValue {
    type V = JVal;

    open spec fn view(&self) -> JVal
        decreases self,
    {
        match self {
            JsonValue::Null => JVal::Null,
            JsonValue::Bool(b) => JVal::Bool(*b),
            JsonValue::Int(i) => JVal::Int(*i),
            JsonValue::DoubleBits(b) => JVal::Double(*b),
            JsonValue::Str(s) => JVal::Str(s@),
            JsonValue::Array(vs) => JVal::Array(json_seq_view(vs@)),
            JsonValue::Object(ps) => JVal::Object(json_entry_seq_view(ps@)),
        }
    }
}

/// Model of a sequence of JSON values.
pub open spec fn json_seq_view(s: Seq<JsonValue>) -> Seq<JVal>
    decreases s,
{
    if s.len() == 0 {
        Seq::empty()
    } else {
        json_seq_view(s.drop_last()).push(s.last()@)
    }
}

/// Model of a sequence of JSON object entries.
pub open spec fn json_entry_seq_view(s: Seq<JsonEntry>) -> Seq<(Seq<char>, JVal)>
    decreases s,
{
    if s.len() == 0 {
        Seq::empty()
    } else {
        json_entry_seq_view(s.drop_last()).push((s.last().key@, s.last().value@))
    }
}

/// The model of a sequence of JSON values is the sequence of their models.
pub proof fn lemma_json_seq_view_elems(s: Seq<JsonValue>)
    ensures
        json_seq_view(s).len() == s.len(),
        forall|i: int| 0 <= i < s.len() ==> json_seq_view(s)[i] == s[i]@,
    decreases s,
{
    if s.len() > 0 {
        lemma_json_seq_view_elems(s.drop_last());
        assert(json_seq_view(s) == json_seq_view(s.drop_last()).push(s.last()@));
        assert forall|i: int| 0 <= i < s.len() implies json_seq_view(s)[i] == s[i]@ by {
            if i < s.len() - 1 {
                assert(json_seq_view(s)[i] == json_seq_view(s.drop_last())[i]);
                assert(s.drop_last()[i] == s[i]);
            } else {
                assert(s.last() == s[i]);
            }
        }
    }
}

/// The model of a sequence of JSON entries is the sequence of their
/// key/value models.
pub proof fn lemma_json_entry_seq_view_elems(s: Seq<JsonEntry>)
    ensures
        json_entry_seq_view(s).len() == s.len(),
        forall|i: int| 0 <= i < s.len() ==> json_entry_seq_view(s)[i] == (
            s[i].key@,
            s[i].value@,
        ),
    decreases s,
{
    if s.len() > 0 {
        lemma_json_entry_seq_view_elems(s.drop_last());
        assert(json_entry_seq_view(s) == json_entry_seq_view(s.drop_last()).push(
            (s.last().key@, s.last().value@),
        ));
        assert forall|i: int| 0 <= i < s.len() implies json_entry_seq_view(s)[i] == (
        s[i].key@,
        s[i].value@,
        ) by {
            if i < s.len() - 1 {
                assert(json_entry_seq_view(s)[i] == json_entry_seq_view(s.drop_last())[i]);
                assert(s.drop_last()[i] == s[i]);
            } else {
                assert(s.last() == s[i]);
            }
        }
    }
}

/// The instant an RFC 3339 date-and-time string denotes, as Unix epoch
/// seconds and nanoseconds; `None` when the string is not a valid RFC 3339
/// date-and-time.
pub uninterp spec fn rfc3339_instant(s: Seq<char>) -> Option<(i64, u32)>;

/// Relies on chrono's `DateTime::parse_from_rfc3339`, whose result depends on
/// the characters alone, to read an RFC 3339 string as an instant.
#[verifier::external_body]
fn parse_rfc3339(s: &str) -> (r: Option<(i64, u32)>)
    ensures
        r == rfc3339_instant(s@),
{
    match chrono::DateTime::parse_from_rfc3339(s) {
        Ok(dt) => Some((dt.timestamp(), dt.timestamp_subsec_nanos())),
        Err(_) => None,
    }
}

/// The RFC 3339 rendering of an instant given as Unix epoch seconds and
/// nanoseconds; `None` when the instant lies outside the representable
/// calendar range or the nanoseconds are invalid.
pub uninterp spec fn rfc3339_text(seconds: i64, nanos: u32) -> Option<Seq<char>>;

/// Relies on chrono's `DateTime::from_timestamp` and `to_rfc3339`, whose
/// results depend on the epoch pair alone, to render an instant.
#[verifier::external_body]
fn format_rfc3339(seconds: i64, nanos: u32) -> (r: Option<String>)
    ensures
        match r {
            Some(t) => rfc3339_text(seconds, nanos) == Some(t@),
            None => rfc3339_text(seconds, nanos) is None,
        },
{
    match chrono::DateTime::from_timestamp(seconds, nanos) {
        Some(dt) => Some(dt.to_rfc3339()),
        None => None,
    }
}

/// Bytes exported to JSON: one integer number per byte, in order.
pub open spec fn json_of_bytes(bs: Seq<u8>) -> Seq<JVal> {
    bs.map_values(|b: u8| JVal::Int(b as i64))
}

/// The JSON form of a field value; `None` exactly when a timestamp inside it
/// cannot be rendered as RFC 3339.
pub open spec fn json_of_val(m: Val) -> Option<JVal>
    decreases m,
{
    match m {
        Val::Null => Some(JVal::Null),
        Val::Str(s) => Some(JVal::Str(s)),
        Val::Int(i) => Some(JVal::Int(i)),
        Val::Double(b) => Some(JVal::Double(b)),
        Val::Bool(b) => Some(JVal::Bool(b)),
        Val::Bytes(bs) => Some(JVal::Array(json_of_bytes(bs))),
        Val::Timestamp(s, n) => match rfc3339_text(s, n) {
            Some(t) => Some(JVal::Str(t)),
            None => None,
        },
        Val::Array(vs) => match json_of_val_seq(vs) {
            Some(js) => Some(JVal::Array(js)),
            None => None,
        },
        Val::MapVal(ps) => match json_of_val_pairs(ps) {
            Some(js) => Some(JVal::Object(js)),
            None => None,
        },
    }
}

/// The JSON forms of a sequence of values; `None` when any of them has none.
pub open spec fn json_of_val_seq(s: Seq<Val>) -> Option<Seq<JVal>>
    decreases s,
{
    if s.len() == 0 {
        Some(Seq::empty())
    } else {
        match (json_of_val_seq(s.drop_last()), json_of_val(s.last())) {
            (Some(pre), Some(x)) => Some(pre.push(x)),
            _ => None,
        }
    }
}

/// The JSON forms of a pair sequence; `None` when any value has none.
pub open spec fn json_of_val_pairs(s: Seq<(Seq<char>, Val)>) -> Option<Seq<(Seq<char>, JVal)>>
    decreases s,
{
    if s.len() == 0 {
        Some(Seq::empty())
    } else {
        match (json_of_val_pairs(s.drop_last()), json_of_val(s.last().1)) {
            (Some(pre), Some(x)) => Some(pre.push((s.last().0, x))),
            _ => None,
        }
    }
}

/// The field value a JSON value is imported as: a string that denotes an
/// RFC 3339 instant becomes a timestamp, every other kind maps to its own.
pub open spec fn val_of_json(j: JVal) -> Val
    decreases j,
{
    match j {
        JVal::Null => Val::Null,
        JVal::Bool(b) => Val::Bool(b),
        JVal::Int(i) => Val::Int(i),
        JVal::Double(b) => Val::Double(b),
        JVal::Str(s) => match rfc3339_instant(s) {
            Some(t) => Val::Timestamp(t.0, t.1),
            None => Val::Str(s),
        },
        JVal::Array(vs) => Val::Array(val_of_json_seq(vs)),
        JVal::Object(ps) => Val::MapVal(val_of_json_pairs(ps)),
    }
}

/// The imported field values of a sequence of JSON values, in order.
pub open spec fn val_of_json_seq(s: Seq<JVal>) -> Seq<Val>
    decreases s,
{
    if s.len() == 0 {
        Seq::empty()
    } else {
        val_of_json_seq(s.drop_last()).push(val_of_json(s.last()))
    }
}

/// The imported field values of a JSON object's entries, in order.
pub open spec fn val_of_json_pairs(s: Seq<(Seq<char>, JVal)>) -> Seq<(Seq<char>, Val)>
    decreases s,
{
    if s.len() == 0 {
        Seq::empty()
    } else {
        val_of_json_pairs(s.drop_last()).push(
            (s.last().0, val_of_json(s.last().1)),
        )
    }
}

impl FValue {
    /// Exports this value as JSON. Fails exactly when a timestamp inside it
    /// cannot be rendered as RFC 3339.
    #[verifier::loop_isolation(false)]
    pub fn to_json(&self) -> (r: Result<JsonValue, SerdeError>)
        ensures
            r matches Ok(j) ==> Some(j@) == json_of_val(self@),
            r is Err <==> json_of_val(self@) is None,
            r matches Err(e) ==> e is CustomError,
        decreases self,
    {
        match self {
            FValue::NullValue => Ok(JsonValue::Null),
            FValue::Str(s) => Ok(JsonValue::Str(s.clone())),
            FValue::Int(i) => Ok(JsonValue::Int(*i)),
            FValue::DoubleBits(b) => Ok(JsonValue::DoubleBits(*b)),
            FValue::Bool(b) => Ok(JsonValue::Bool(*b)),
            FValue::Bytes(bs) => {
                let mut out: Vec<JsonValue> = Vec::new();
                let n = bs.len();
                let mut i: usize = 0;
                while i < n
                    invariant
                        i <= n,
                        out@.len() == i,
                        forall|j: int| 0 <= j < i ==> out@[j]@ == JVal::Int(bs@[j] as i64),
                    decreases n - i,
                {
                    out.push(JsonValue::Int(bs[i] as i64));
                    i = i + 1;
                }
                proof {
                    lemma_json_seq_view_elems(out@);
                    assert(json_seq_view(out@) =~= json_of_bytes(bs@));
                }
                Ok(JsonValue::Array(out))
            },
            FValue::Timestamp(t) => match format_rfc3339(t.seconds, t.nanos) {
                Some(s) => Ok(JsonValue::Str(s)),
                None => Err(
                    SerdeError::CustomError(
                        String::from_str("timestamp cannot be rendered as an RFC 3339 string"),
                    ),
                ),
            },
            FValue::Array(vs) => {
                proof {
                    crate::value::lemma_fvalue_seq_view_elems(vs@);
                }
                let ghost model: Seq<Val> = crate::value::fvalue_seq_view(vs@);
                let mut out: Vec<JsonValue> = Vec::new();
                let n = vs.len();
                let mut i: usize = 0;
                while i < n
                    invariant
                        i <= n,
                        out@.len() == i,
                        json_of_val_seq(model.take(i as int)) is Some,
                        json_seq_view(out@) == json_of_val_seq(model.take(i as int))->Some_0,
                    decreases n - i,
                {
                    proof {
                        assert(model.take(i + 1).drop_last() =~= model.take(i as int));
                        assert(model.take(i + 1).last() == model[i as int]);
                    }
                    match Self::to_json(&vs[i]) {
                        Ok(j) => {
                            let ghost prev: Seq<JsonValue> = out@;
                            out.push(j);
                            proof {
                                assert(out@.drop_last() =~= prev);
                                assert(json_seq_view(out@) == json_seq_view(prev).push(j@));
                                assert(json_of_val_seq(model.take(i + 1)) == Some(
                                    json_seq_view(prev).push(j@),
                                ));
                            }
                        },
                        Err(e) => {
                            proof {
                                lemma_json_of_val_seq_none(model, i as int);
                            }
                            return Err(e);
                        },
                    }
                    i = i + 1;
                }
                proof {
                    assert(model.take(n as int) =~= model);
                }
                Ok(JsonValue::Array(out))
            },
            FValue::MapValue(ps) => {
                proof {
                    crate::value::lemma_fentry_seq_view_elems(ps@);
                }
                let ghost model: Seq<(Seq<char>, Val)> = crate::value::fentry_seq_view(ps@);
                let mut out: Vec<JsonEntry> = Vec::new();
                let n = ps.len();
                let mut i: usize = 0;
                while i < n
                    invariant
                        i <= n,
                        out@.len() == i,
                        json_of_val_pairs(model.take(i as int)) is Some,
                        json_entry_seq_view(out@) == json_of_val_pairs(
                            model.take(i as int),
                        )->Some_0,
                    decreases n - i,
                {
                    proof {
                        assert(model.take(i + 1).drop_last() =~= model.take(i as int));
                        assert(model.take(i + 1).last() == model[i as int]);
                    }
                    match Self::to_json(&ps[i].value) {
                        Ok(j) => {
                            let ghost prev: Seq<JsonEntry> = out@;
                            out.push(JsonEntry { key: ps[i].key.clone(), value: j });
                            proof {
                                assert(out@.drop_last() =~= prev);
                                assert(json_entry_seq_view(out@) == json_entry_seq_view(
                                    prev,
                                ).push((ps[i as int].key@, j@)));
                                assert(json_of_val_pairs(model.take(i + 1)) == Some(
                                    json_entry_seq_view(prev).push((model[i as int].0, j@)),
                                ));
                            }
                        },
                        Err(e) => {
                            proof {
                                lemma_json_of_val_pairs_none(model, i as int);
                            }
                            return Err(e);
                        },
                    }
                    i = i + 1;
                }
                proof {
                    assert(model.take(n as int) =~= model);
                }
                Ok(JsonValue::Object(out))
            },
        }
    }

    /// Imports a JSON value: strings that denote RFC 3339 instants become
    /// timestamps, arrays and objects convert element for element.
    #[verifier::loop_isolation(false)]
    pub fn from_json(j: &JsonValue) -> (r: FValue)
        ensures
            r@ == val_of_json(j@),
        decreases j,
    {
        match j {
            JsonValue::Null => FValue::NullValue,
            JsonValue::Bool(b) => FValue::Bool(*b),
            JsonValue::Int(i) => FValue::Int(*i),
            JsonValue::DoubleBits(b) => FValue::DoubleBits(*b),
            JsonValue::Str(s) => match parse_rfc3339(s.as_str()) {
                Some(t) => FValue::Timestamp(
                    crate::value::FTimestamp { seconds: t.0, nanos: t.1 },
                ),
                None => FValue::Str(s.clone()),
            },
            JsonValue::Array(vs) => {
                proof {
                    lemma_json_seq_view_elems(vs@);
                }
                let ghost model: Seq<JVal> = json_seq_view(vs@);
                let mut out: Vec<FValue> = Vec::new();
                let n = vs.len();
                let mut i: usize = 0;
                while i < n
                    invariant
                        i <= n,
                        out@.len() == i,
                        crate::value::fvalue_seq_view(out@) == val_of_json_seq(
                            model.take(i as int),
                        ),
                    decreases n - i,
                {
                    proof {
                        assert(model.take(i + 1).drop_last() =~= model.take(i as int));
                        assert(model.take(i + 1).last() == model[i as int]);
                    }
                    let v = Self::from_json(&vs[i]);
                    let ghost prev: Seq<FValue> = out@;
                    out.push(v);
                    proof {
                        assert(out@.drop_last() =~= prev);
                        assert(crate::value::fvalue_seq_view(out@)
                            == crate::value::fvalue_seq_view(prev).push(v@));
                    }
                    i = i + 1;
                }
                proof {
                    assert(model.take(n as int) =~= model);
                }
                FValue::Array(out)
            },
            JsonValue::Object(ps) => {
                proof {
                    lemma_json_entry_seq_view_elems(ps@);
                }
                let ghost model: Seq<(Seq<char>, JVal)> = json_entry_seq_view(ps@);
                let mut out: Vec<FEntry> = Vec::new();
                let n = ps.len();
                let mut i: usize = 0;
                while i < n
                    invariant
                        i <= n,
                        out@.len() == i,
                        crate::value::fentry_seq_view(out@) == val_of_json_pairs(
                            model.take(i as int),
                        ),
                    decreases n - i,
                {
                    proof {
                        assert(model.take(i + 1).drop_last() =~= model.take(i as int));
                        assert(model.take(i + 1).last() == model[i as int]);
                    }
                    let v = Self::from_json(&ps[i].value);
                    let ghost prev: Seq<FEntry> = out@;
                    out.push(FEntry { key: ps[i].key.clone(), value: v });
                    proof {
                        assert(out@.drop_last() =~= prev);
                        assert(crate::value::fentry_seq_view(out@)
                            == crate::value::fentry_seq_view(prev).push(
                            (ps[i as int].key@, v@),
                        ));
                    }
                    i = i + 1;
                }
                proof {
                    assert(model.take(n as int) =~= model);
                }
                FValue::MapValue(out)
            },
        }
    }
}

/// A sequence with one unconvertible value has no JSON form.
proof fn lemma_json_of_val_seq_none(s: Seq<Val>, i: int)
    requires
        0 <= i < s.len(),
        json_of_val(s[i]) is None,
    ensures
        json_of_val_seq(s) is None,
    decreases s,
{
    if s.len() > 0 {
        if i == s.len() - 1 {
            assert(s.last() == s[i]);
        } else {
            assert(s.drop_last()[i] == s[i]);
            lemma_json_of_val_seq_none(s.drop_last(), i);
        }
    }
}

/// A pair sequence with one unconvertible value has no JSON form.
proof fn lemma_json_of_val_pairs_none(s: Seq<(Seq<char>, Val)>, i: int)
    requires
        0 <= i < s.len(),
        json_of_val(s[i].1) is None,
    ensures
        json_of_val_pairs(s) is None,
    decreases s,
{
    if s.len() > 0 {
        if i == s.len() - 1 {
            assert(s.last() == s[i]);
        } else {
            assert(s.drop_last()[i] == s[i]);
            lemma_json_of_val_pairs_none(s.drop_last(), i);
        }
    }
}

impl FFields {
    /// Imports a JSON object as a field set, later entries winning on a
    /// repeated name. Fails exactly when the JSON value is not an object.
    pub fn from_json(jv: JsonValue) -> (r: Result<FFields, FirestoreError>)
        ensures
            r matches Ok(f) ==> jv@ matches JVal::Object(ps) && f@ == map_of_pairs(
                val_of_json_pairs(ps),
            ),
            r is Ok <==> jv@ is Object,
            r matches Err(e) ==> e matches FirestoreError::Serialization(
                SerdeError::IncompatibleDeserializeType(_),
            ),
    {
        match jv {
            JsonValue::Object(ps) => {
                proof {
                    lemma_json_entry_seq_view_elems(ps@);
                }
                let ghost model: Seq<(Seq<char>, JVal)> = json_entry_seq_view(ps@);
                let mut rest = ps;
                let ghost restv: Seq<JsonEntry> = rest@;
                let mut f = FFields::empty();
                let n = rest.len();
                let mut i: usize = 0;
                while rest.len() > 0
                    invariant
                        i + rest@.len() == n,
                        n == restv.len(),
                        model == json_entry_seq_view(restv),
                        model.len() == n,
                        forall|j: int|
                            0 <= j < n ==> model[j] == (restv[j].key@, restv[j].value@),
                        forall|j: int| 0 <= j < rest@.len() ==> rest@[j] == restv[i + j],
                        f@ == map_of_pairs(val_of_json_pairs(model.take(i as int))),
                    decreases rest.len(),
                {
                    let e = rest.remove(0);
                    proof {
                        assert(e == restv[i as int]);
                        assert(model.take(i + 1).drop_last() =~= model.take(i as int));
                        assert(model.take(i + 1).last() == model[i as int]);
                    }
                    let v = FValue::from_json(&e.value);
                    let ghost before: Map<Seq<char>, Val> = f@;
                    f.add(e.key, v);
                    proof {
                        let cp = val_of_json_pairs(model.take(i as int));
                        assert(val_of_json_pairs(model.take(i + 1)) == cp.push(
                            (model[i as int].0, val_of_json(model[i as int].1)),
                        ));
                        assert(cp.push(
                            (model[i as int].0, val_of_json(model[i as int].1)),
                        ).drop_last() =~= cp);
                        assert(f@ == map_of_pairs(cp).insert(
                            model[i as int].0,
                            val_of_json(model[i as int].1),
                        ));
                    }
                    i = i + 1;
                }
                proof {
                    assert(model.take(n as int) =~= model);
                }
                Ok(f)
            },
            _ => Err(
                FirestoreError::Serialization(
                    SerdeError::IncompatibleDeserializeType(
                        String::from_str("the given json value is not a json object"),
                    ),
                ),
            ),
        }
    }
}

} // verus!
