//! The wire-level typed value format and its bidirectional mapping to and
//! from the field value model, with the round-trip law.

use vstd::prelude::*;
use crate::error::SerdeError;
use crate::value::{FTimestamp, FValue, FEntry, Val};
use crate::value::{fvalue_seq_view, fentry_seq_view, val_depth, val_seq_depth, val_pairs_depth};
use crate::value::{
    lemma_fvalue_seq_view_elems,
    lemma_fentry_seq_view_elems,
    lemma_val_seq_depth_bound,
    lemma_val_pairs_depth_bound,
};

verus! {

/// How many array/map levels a value may nest before conversion to the wire
/// form is refused.
pub const MAX_VALUE_DEPTH: u32 = 20;

/// A geographic point as two IEEE-754 bit patterns (latitude, longitude).
#[derive(Clone, Copy, PartialEq, Eq, Structural, Debug)]
pub struct GeoPoint {
    pub latitude_bits: u64,
    pub longitude_bits: u64,
}

/// One key/value entry of a wire map value.
#[derive(PartialEq, Debug)]
pub struct WireEntry {
    pub key: String,
    pub value: WireValue,
}

/// The wire-level value representation: one variant per value kind the wire
/// format knows, including the two kinds the value model does not support.
#[derive(PartialEq, Debug)]
pub enum WireValue {
    NullValue,
    BooleanValue(bool),
    IntegerValue(i64),
    DoubleBits(u64),
    TimestampValue(FTimestamp),
    StringValue(String),
    BytesValue(Vec<u8>),
    ReferenceValue(String),
    GeoPointValue(GeoPoint),
    ArrayValue(Vec<WireValue>),
    MapValue(Vec<WireEntry>),
}

/// The mathematical model of a wire value.
pub enum WireVal {
    Null,
    Bool(bool),
    Int(i64),
    Double(u64),
    Timestamp(i64, u32),
    Str(Seq<char>),
    Bytes(Seq<u8>),
    Reference(Seq<char>),
    GeoPoint(u64, u64),
    Array(Seq<WireVal>),
    MapVal(Seq<(Seq<char>, WireVal)>),
}

impl View for WireValue {
    type V = WireVal;

    open spec fn view(&self) -> WireVal
        decreases self,
    {
        match self {
            WireValue::NullValue => WireVal::Null,
            WireValue::BooleanValue(b) => WireVal::Bool(*b),
            WireValue::IntegerValue(i) => WireVal::Int(*i),
            WireValue::DoubleBits(b) => WireVal::Double(*b),
            WireValue::TimestampValue(t) => WireVal::Timestamp(t.seconds, t.nanos),
            WireValue::StringValue(s) => WireVal::Str(s@),
            WireValue::BytesValue(bs) => WireVal::Bytes(bs@),
            WireValue::ReferenceValue(s) => WireVal::Reference(s@),
            WireValue::GeoPointValue(g) => WireVal::GeoPoint(g.latitude_bits, g.longitude_bits),
            WireValue::ArrayValue(vs) => WireVal::Array(wire_seq_view(vs@)),
            WireValue::MapValue(ps) => WireVal::MapVal(wire_entry_seq_view(ps@)),
        }
    }
}

/// Model of a sequence of wire values.
pub open spec fn wire_seq_view(s: Seq<WireValue>) -> Seq<WireVal>
    decreases s,
{
    if s.len() == 0 {
        Seq::empty()
    } else {
        wire_seq_view(s.drop_last()).push(s.last()@)
    }
}

/// Model of a sequence of wire map entries.
pub open spec fn wire_entry_seq_view(s: Seq<WireEntry>) -> Seq<(Seq<char>, WireVal)>
    decreases s,
{
    if s.len() == 0 {
        Seq::empty()
    } else {
        wire_entry_seq_view(s.drop_last()).push((s.last().key@, s.last().value@))
    }
}

/// The model of a sequence of wire values is the sequence of their models.
pub proof fn lemma_wire_seq_view_elems(s: Seq<WireValue>)
    ensures
        wire_seq_view(s).len() == s.len(),
        forall|i: int| 0 <= i < s.len() ==> wire_seq_view(s)[i] == s[i]@,
    decreases s,
{
    if s.len() > 0 {
        lemma_wire_seq_view_elems(s.drop_last());
        assert(wire_seq_view(s) == wire_seq_view(s.drop_last()).push(s.last()@));
        assert(wire_seq_view(s).len() == s.len());
        assert forall|i: int| 0 <= i < s.len() implies wire_seq_view(s)[i] == s[i]@ by {
            if i < s.len() - 1 {
                assert(wire_seq_view(s)[i] == wire_seq_view(s.drop_last())[i]);
                assert(s.drop_last()[i] == s[i]);
            } else {
                assert(s.last() == s[i]);
            }
        }
    }
}

/// The model of a sequence of wire map entries is the sequence of their
/// key/value models.
pub proof fn lemma_wire_entry_seq_view_elems(s: Seq<WireEntry>)
    ensures
        wire_entry_seq_view(s).len() == s.len(),
        forall|i: int| 0 <= i < s.len() ==> wire_entry_seq_view(s)[i] == (
            s[i].key@,
            s[i].value@,
        ),
    decreases s,
{
    if s.len() > 0 {
        lemma_wire_entry_seq_view_elems(s.drop_last());
        assert(wire_entry_seq_view(s) == wire_entry_seq_view(s.drop_last()).push(
            (s.last().key@, s.last().value@),
        ));
        assert(wire_entry_seq_view(s).len() == s.len());
        assert forall|i: int| 0 <= i < s.len() implies wire_entry_seq_view(s)[i] == (
        s[i].key@,
        s[i].value@,
        ) by {
            if i < s.len() - 1 {
                assert(wire_entry_seq_view(s)[i] == wire_entry_seq_view(s.drop_last())[i]);
                assert(s.drop_last()[i] == s[i]);
            } else {
                assert(s.last() == s[i]);
            }
        }
    }
}

/// The wire form of a field value: total on the model level.
pub open spec fn wire_of_val(m: Val) -> WireVal
    decreases m,
{
    match m {
        Val::Null => WireVal::Null,
        Val::Str(s) => WireVal::Str(s),
        Val::Int(i) => WireVal::Int(i),
        Val::Double(b) => WireVal::Double(b),
        Val::Bool(b) => WireVal::Bool(b),
        Val::Bytes(bs) => WireVal::Bytes(bs),
        Val::Timestamp(s, n) => WireVal::Timestamp(s, n),
        Val::Array(vs) => WireVal::Array(wire_of_val_seq(vs)),
        Val::MapVal(ps) => WireVal::MapVal(wire_of_val_pairs(ps)),
    }
}

/// The wire form of each value in a sequence, in order.
pub open spec fn wire_of_val_seq(s: Seq<Val>) -> Seq<WireVal>
    decreases s,
{
    if s.len() == 0 {
        Seq::empty()
    } else {
        wire_of_val_seq(s.drop_last()).push(wire_of_val(s.last()))
    }
}

/// The wire form of each entry in a key/value pair sequence, in order.
pub open spec fn wire_of_val_pairs(s: Seq<(Seq<char>, Val)>) -> Seq<(Seq<char>, WireVal)>
    decreases s,
{
    if s.len() == 0 {
        Seq::empty()
    } else {
        wire_of_val_pairs(s.drop_last()).push((s.last().0, wire_of_val(s.last().1)))
    }
}

/// The field value a wire value stands for; `None` exactly when a reference
/// or geo-point value, which the value model does not support, occurs
/// anywhere inside it.
pub open spec fn val_of_wire(w: WireVal) -> Option<Val>
    decreases w,
{
    match w {
        WireVal::Null => Some(Val::Null),
        WireVal::Bool(b) => Some(Val::Bool(b)),
        WireVal::Int(i) => Some(Val::Int(i)),
        WireVal::Double(b) => Some(Val::Double(b)),
        WireVal::Timestamp(s, n) => Some(Val::Timestamp(s, n)),
        WireVal::Str(s) => Some(Val::Str(s)),
        WireVal::Bytes(bs) => Some(Val::Bytes(bs)),
        WireVal::Reference(_) => None,
        WireVal::GeoPoint(_, _) => None,
        WireVal::Array(ws) => match val_of_wire_seq(ws) {
            Some(vs) => Some(Val::Array(vs)),
            None => None,
        },
        WireVal::MapVal(ps) => match val_of_wire_pairs(ps) {
            Some(vs) => Some(Val::MapVal(vs)),
            None => None,
        },
    }
}

/// The field values of a sequence of wire values; `None` when any of them has
/// none.
pub open spec fn val_of_wire_seq(s: Seq<WireVal>) -> Option<Seq<Val>>
    decreases s,
{
    if s.len() == 0 {
        Some(Seq::empty())
    } else {
        match (val_of_wire_seq(s.drop_last()), val_of_wire(s.last())) {
            (Some(pre), Some(x)) => Some(pre.push(x)),
            _ => None,
        }
    }
}

/// The field values of a sequence of wire map entries; `None` when any value
/// has none.
pub open spec fn val_of_wire_pairs(s: Seq<(Seq<char>, WireVal)>) -> Option<
    Seq<(Seq<char>, Val)>,
>
    decreases s,
{
    if s.len() == 0 {
        Some(Seq::empty())
    } else {
        match (val_of_wire_pairs(s.drop_last()), val_of_wire(s.last().1)) {
            (Some(pre), Some(x)) => Some(pre.push((s.last().0, x))),
            _ => None,
        }
    }
}

/// A sequence of wire values converts exactly when each element converts, and
/// then elementwise.
pub proof fn lemma_val_of_wire_seq_elems(s: Seq<WireVal>)
    ensures
        (val_of_wire_seq(s) is Some) <==> (forall|i: int|
            0 <= i < s.len() ==> val_of_wire(s[i]) is Some),
        val_of_wire_seq(s) matches Some(t) ==> t.len() == s.len() && forall|i: int|
            0 <= i < s.len() ==> Some(t[i]) == val_of_wire(s[i]),
    decreases s,
{
    if s.len() > 0 {
        lemma_val_of_wire_seq_elems(s.drop_last());
        assert forall|i: int| 0 <= i < s.len() - 1 implies s.drop_last()[i] == s[i] by {}
        if val_of_wire_seq(s) is Some {
            let t = val_of_wire_seq(s)->Some_0;
            let pre = val_of_wire_seq(s.drop_last())->Some_0;
            assert forall|i: int| 0 <= i < s.len() implies Some(t[i]) == val_of_wire(s[i]) by {
                if i < s.len() - 1 {
                    assert(t[i] == pre[i]);
                }
            }
        } else {
            if val_of_wire_seq(s.drop_last()) is Some && val_of_wire(s.last()) is Some {
                assert(false);
            }
        }
    }
}

/// A sequence of wire map entries converts exactly when each value converts,
/// and then elementwise, keeping each key.
pub proof fn lemma_val_of_wire_pairs_elems(s: Seq<(Seq<char>, WireVal)>)
    ensures
        (val_of_wire_pairs(s) is Some) <==> (forall|i: int|
            0 <= i < s.len() ==> val_of_wire(s[i].1) is Some),
        val_of_wire_pairs(s) matches Some(t) ==> t.len() == s.len() && forall|i: int|
            0 <= i < s.len() ==> t[i].0 == s[i].0 && Some(t[i].1) == val_of_wire(s[i].1),
    decreases s,
{
    if s.len() > 0 {
        lemma_val_of_wire_pairs_elems(s.drop_last());
        assert forall|i: int| 0 <= i < s.len() - 1 implies s.drop_last()[i] == s[i] by {}
        if val_of_wire_pairs(s) is Some {
            let t = val_of_wire_pairs(s)->Some_0;
            let pre = val_of_wire_pairs(s.drop_last())->Some_0;
            assert forall|i: int| 0 <= i < s.len() implies t[i].0 == s[i].0 && Some(t[i].1)
                == val_of_wire(s[i].1) by {
                if i < s.len() - 1 {
                    assert(t[i] == pre[i]);
                }
            }
        } else {
            if val_of_wire_pairs(s.drop_last()) is Some && val_of_wire(s.last().1) is Some {
                assert(false);
            }
        }
    }
}

/// The wire form of each value in a sequence, elementwise.
pub proof fn lemma_wire_of_val_seq_elems(s: Seq<Val>)
    ensures
        wire_of_val_seq(s).len() == s.len(),
        forall|i: int| 0 <= i < s.len() ==> wire_of_val_seq(s)[i] == wire_of_val(s[i]),
    decreases s,
{
    if s.len() > 0 {
        lemma_wire_of_val_seq_elems(s.drop_last());
        assert(wire_of_val_seq(s) == wire_of_val_seq(s.drop_last()).push(wire_of_val(s.last())));
        assert forall|i: int| 0 <= i < s.len() implies wire_of_val_seq(s)[i] == wire_of_val(
            s[i],
        ) by {
            if i < s.len() - 1 {
                assert(wire_of_val_seq(s)[i] == wire_of_val_seq(s.drop_last())[i]);
                assert(s.drop_last()[i] == s[i]);
            } else {
                assert(s.last() == s[i]);
            }
        }
    }
}

/// The wire form of each entry in a pair sequence, elementwise.
pub proof fn lemma_wire_of_val_pairs_elems(s: Seq<(Seq<char>, Val)>)
    ensures
        wire_of_val_pairs(s).len() == s.len(),
        forall|i: int| 0 <= i < s.len() ==> wire_of_val_pairs(s)[i] == (
            s[i].0,
            wire_of_val(s[i].1),
        ),
    decreases s,
{
    if s.len() > 0 {
        lemma_wire_of_val_pairs_elems(s.drop_last());
        assert(wire_of_val_pairs(s) == wire_of_val_pairs(s.drop_last()).push(
            (s.last().0, wire_of_val(s.last().1)),
        ));
        assert forall|i: int| 0 <= i < s.len() implies wire_of_val_pairs(s)[i] == (
        s[i].0,
        wire_of_val(s[i].1),
        ) by {
            if i < s.len() - 1 {
                assert(wire_of_val_pairs(s)[i] == wire_of_val_pairs(s.drop_last())[i]);
                assert(s.drop_last()[i] == s[i]);
            } else {
                assert(s.last() == s[i]);
            }
        }
    }
}

/// Law: converting any field value to its wire form and back returns the
/// same value.
pub proof fn lemma_wire_round_trip(m: Val)
    ensures
        val_of_wire(wire_of_val(m)) == Some(m),
    decreases m,
{
    match m {
        Val::Array(vs) => {
            lemma_wire_round_trip_seq(vs);
        },
        Val::MapVal(ps) => {
            lemma_wire_round_trip_pairs(ps);
        },
        _ => {},
    }
}

/// Round trip for every value of a sequence, in order.
proof fn lemma_wire_round_trip_seq(s: Seq<Val>)
    ensures
        val_of_wire_seq(wire_of_val_seq(s)) == Some(s),
    decreases s,
{
    if s.len() == 0 {
        assert(val_of_wire_seq(wire_of_val_seq(s)) == Some(Seq::<Val>::empty()));
        assert(s =~= Seq::<Val>::empty());
    } else {
        lemma_wire_round_trip_seq(s.drop_last());
        lemma_wire_round_trip(s.last());
        let ws = wire_of_val_seq(s);
        assert(ws == wire_of_val_seq(s.drop_last()).push(wire_of_val(s.last())));
        assert(ws.drop_last() =~= wire_of_val_seq(s.drop_last()));
        assert(ws.last() == wire_of_val(s.last()));
        assert(ws.len() > 0);
        let pre = val_of_wire_seq(ws.drop_last())->Some_0;
        assert(val_of_wire_seq(ws) == Some(pre.push(s.last())));
        assert(pre.push(s.last()) =~= s);
    }
}

/// Round trip for every entry of a pair sequence, in order.
proof fn lemma_wire_round_trip_pairs(s: Seq<(Seq<char>, Val)>)
    ensures
        val_of_wire_pairs(wire_of_val_pairs(s)) == Some(s),
    decreases s,
{
    if s.len() == 0 {
        assert(val_of_wire_pairs(wire_of_val_pairs(s)) == Some(
            Seq::<(Seq<char>, Val)>::empty(),
        ));
        assert(s =~= Seq::<(Seq<char>, Val)>::empty());
    } else {
        lemma_wire_round_trip_pairs(s.drop_last());
        lemma_wire_round_trip(s.last().1);
        let ws = wire_of_val_pairs(s);
        assert(ws == wire_of_val_pairs(s.drop_last()).push(
            (s.last().0, wire_of_val(s.last().1)),
        ));
        assert(ws.drop_last() =~= wire_of_val_pairs(s.drop_last()));
        assert(ws.last() == (s.last().0, wire_of_val(s.last().1)));
        assert(ws.len() > 0);
        let pre = val_of_wire_pairs(ws.drop_last())->Some_0;
        assert(val_of_wire_pairs(ws) == Some(pre.push((s.last().0, s.last().1))));
        assert(s.last() == (s.last().0, s.last().1));
        assert(pre.push((s.last().0, s.last().1)) =~= s);
    }
}

/// Copy of a byte vector, element for element.
fn clone_bytes(v: &Vec<u8>) -> (r: Vec<u8>)
    ensures
        r@ == v@,
{
    let mut out: Vec<u8> = Vec::new();
    let mut i: usize = 0;
    while i < v.len()
        invariant
            i <= v.len(),
            out@.len() == i,
            forall|j: int| 0 <= j < i ==> out@[j] == v@[j],
        decreases v.len() - i,
    {
        out.push(v[i]);
        i = i + 1;
    }
    proof {
        assert(out@ =~= v@);
    }
    out
}

/// Recursive conversion to the wire form with a remaining-depth budget:
/// returns `None` exactly when the value nests deeper than the budget.
fn to_wire_bounded(v: &FValue, budget: u32) -> (r: Option<WireValue>)
    ensures
        r is Some <==> val_depth(v@) <= budget,
        r matches Some(w) ==> w@ == wire_of_val(v@),
    decreases budget,
{
    match v {
        FValue::NullValue => Some(WireValue::NullValue),
        FValue::Str(s) => Some(WireValue::StringValue(s.clone())),
        FValue::Int(i) => Some(WireValue::IntegerValue(*i)),
        FValue::DoubleBits(b) => Some(WireValue::DoubleBits(*b)),
        FValue::Bool(b) => Some(WireValue::BooleanValue(*b)),
        FValue::Bytes(bs) => Some(WireValue::BytesValue(clone_bytes(bs))),
        FValue::Timestamp(t) => Some(WireValue::TimestampValue(*t)),
        FValue::Array(vs) => {
            proof {
                lemma_fvalue_seq_view_elems(vs@);
            }
            if vs.len() == 0 {
                Some(WireValue::ArrayValue(Vec::new()))
            } else if budget == 0 {
                None
            } else {
                let ghost model: Seq<Val> = fvalue_seq_view(vs@);
                let mut out: Vec<WireValue> = Vec::new();
                let mut i: usize = 0;
                let n = vs.len();
                while i < n
                    invariant
                        i <= n,
                        n == vs@.len(),
                        n >= 1,
                        budget >= 1,
                        model == fvalue_seq_view(vs@),
                        v@ == Val::Array(model),
                        model.len() == n,
                        forall|j: int| 0 <= j < n ==> model[j] == vs@[j]@,
                        out@.len() == i,
                        forall|j: int| 0 <= j < i ==> val_depth(model[j]) <= budget - 1,
                        forall|j: int| 0 <= j < i ==> out@[j]@ == wire_of_val(model[j]),
                    decreases n - i,
                {
                    match to_wire_bounded(&vs[i], budget - 1) {
                        Some(w) => {
                            out.push(w);
                            i = i + 1;
                        },
                        None => {
                            proof {
                                lemma_val_seq_depth_bound(model, (budget - 1) as nat);
                                assert(val_depth(model[i as int]) > budget - 1);
                                assert(val_seq_depth(model) > budget - 1);
                                assert(val_depth(v@) == 1 + val_seq_depth(model));
                            }
                            return None;
                        },
                    }
                }
                proof {
                    lemma_val_seq_depth_bound(model, (budget - 1) as nat);
                    assert(val_depth(v@) == 1 + val_seq_depth(model));
                    lemma_wire_seq_view_elems(out@);
                    lemma_wire_of_val_seq_elems(model);
                    assert(wire_seq_view(out@) =~= wire_of_val_seq(model));
                }
                Some(WireValue::ArrayValue(out))
            }
        },
        FValue::MapValue(ps) => {
            proof {
                lemma_fentry_seq_view_elems(ps@);
            }
            if ps.len() == 0 {
                Some(WireValue::MapValue(Vec::new()))
            } else if budget == 0 {
                None
            } else {
                let ghost model: Seq<(Seq<char>, Val)> = fentry_seq_view(ps@);
                let mut out: Vec<WireEntry> = Vec::new();
                let mut i: usize = 0;
                let n = ps.len();
                while i < n
                    invariant
                        i <= n,
                        n == ps@.len(),
                        n >= 1,
                        budget >= 1,
                        model == fentry_seq_view(ps@),
                        v@ == Val::MapVal(model),
                        model.len() == n,
                        forall|j: int| 0 <= j < n ==> model[j] == (ps@[j].key@, ps@[j].value@),
                        out@.len() == i,
                        forall|j: int| 0 <= j < i ==> val_depth(model[j].1) <= budget - 1,
                        forall|j: int|
                            0 <= j < i ==> out@[j].key@ == model[j].0 && out@[j].value@
                                == wire_of_val(model[j].1),
                    decreases n - i,
                {
                    match to_wire_bounded(&ps[i].value, budget - 1) {
                        Some(w) => {
                            out.push(WireEntry { key: ps[i].key.clone(), value: w });
                            i = i + 1;
                        },
                        None => {
                            proof {
                                lemma_val_pairs_depth_bound(model, (budget - 1) as nat);
                                assert(val_depth(model[i as int].1) > budget - 1);
                                assert(val_pairs_depth(model) > budget - 1);
                                assert(val_depth(v@) == 1 + val_pairs_depth(model));
                            }
                            return None;
                        },
                    }
                }
                proof {
                    lemma_val_pairs_depth_bound(model, (budget - 1) as nat);
                    assert(val_depth(v@) == 1 + val_pairs_depth(model));
                    lemma_wire_entry_seq_view_elems(out@);
                    lemma_wire_of_val_pairs_elems(model);
                    assert(wire_entry_seq_view(out@) =~= wire_of_val_pairs(model));
                }
                Some(WireValue::MapValue(out))
            }
        },
    }
}

impl FValue {
    /// Converts this value to its wire form; the value must nest no deeper
    /// than the depth limit.
    pub fn to_grpc_value(&self) -> (r: WireValue)
        requires
            val_depth(self@) <= MAX_VALUE_DEPTH,
        ensures
            r@ == wire_of_val(self@),
    {
        match to_wire_bounded(self, MAX_VALUE_DEPTH) {
            Some(w) => w,
            None => {
                proof {
                    assert(false);
                }
                WireValue::NullValue
            },
        }
    }

    /// Converts this value to its wire form, checking the depth limit:
    /// succeeds exactly when the value nests no deeper than the limit.
    pub fn try_to_grpc_value(&self) -> (r: Option<WireValue>)
        ensures
            r is Some <==> val_depth(self@) <= MAX_VALUE_DEPTH,
            r matches Some(w) ==> w@ == wire_of_val(self@),
    {
        to_wire_bounded(self, MAX_VALUE_DEPTH)
    }
}


impl FValue {
    /// Converts a wire value back into a field value. Fails exactly when a
    /// reference or geo-point value, which the value model does not support,
    /// occurs anywhere inside it.
    #[verifier::loop_isolation(false)]
    pub fn from_grpc_value(w: &WireValue) -> (r: Result<FValue, SerdeError>)
        ensures
            r matches Ok(v) ==> val_of_wire(w@) == Some(v@),
            r is Err <==> val_of_wire(w@) is None,
            r matches Err(e) ==> e is InvalidFValueVariable,
        decreases w,
    {
        match w {
            WireValue::NullValue => Ok(FValue::NullValue),
            WireValue::BooleanValue(b) => Ok(FValue::Bool(*b)),
            WireValue::IntegerValue(i) => Ok(FValue::Int(*i)),
            WireValue::DoubleBits(b) => Ok(FValue::DoubleBits(*b)),
            WireValue::TimestampValue(t) => Ok(FValue::Timestamp(*t)),
            WireValue::StringValue(s) => Ok(FValue::Str(s.clone())),
            WireValue::BytesValue(bs) => Ok(FValue::Bytes(clone_bytes(bs))),
            WireValue::ReferenceValue(_) => Err(
                SerdeError::InvalidFValueVariable(
                    String::from_str("reference values are not supported"),
                ),
            ),
            WireValue::GeoPointValue(_) => Err(
                SerdeError::InvalidFValueVariable(
                    String::from_str("geo-point values are not supported"),
                ),
            ),
            WireValue::ArrayValue(ws) => {
                proof {
                    lemma_wire_seq_view_elems(ws@);
                }
                let ghost model: Seq<WireVal> = wire_seq_view(ws@);
                let mut out: Vec<FValue> = Vec::new();
                let mut i: usize = 0;
                let n = ws.len();
                while i < n
                    invariant
                        i <= n,
                        n == ws@.len(),
                        model == wire_seq_view(ws@),
                        model.len() == n,
                        forall|j: int| 0 <= j < n ==> model[j] == ws@[j]@,
                        w@ == WireVal::Array(model),
                        out@.len() == i,
                        forall|j: int| 0 <= j < i ==> Some(out@[j]@) == val_of_wire(model[j]),
                    decreases n - i,
                {
                    match Self::from_grpc_value(&ws[i]) {
                        Ok(v) => {
                            out.push(v);
                            i = i + 1;
                        },
                        Err(e) => {
                            proof {
                                lemma_val_of_wire_seq_elems(model);
                                assert(val_of_wire(model[i as int]) is None);
                                if val_of_wire_seq(model) is Some {
                                    assert(val_of_wire(model[i as int]) is Some);
                                }
                                assert(val_of_wire(w@) is None);
                            }
                            return Err(e);
                        },
                    }
                }
                proof {
                    lemma_val_of_wire_seq_elems(model);
                    lemma_fvalue_seq_view_elems(out@);
                    assert(val_of_wire_seq(model) is Some);
                    assert(fvalue_seq_view(out@) =~= val_of_wire_seq(model)->Some_0);
                }
                Ok(FValue::Array(out))
            },
            WireValue::MapValue(ps) => {
                proof {
                    lemma_wire_entry_seq_view_elems(ps@);
                }
                let ghost model: Seq<(Seq<char>, WireVal)> = wire_entry_seq_view(ps@);
                let mut out: Vec<FEntry> = Vec::new();
                let mut i: usize = 0;
                let n = ps.len();
                while i < n
                    invariant
                        i <= n,
                        n == ps@.len(),
                        model == wire_entry_seq_view(ps@),
                        model.len() == n,
                        forall|j: int| 0 <= j < n ==> model[j] == (ps@[j].key@, ps@[j].value@),
                        w@ == WireVal::MapVal(model),
                        out@.len() == i,
                        forall|j: int|
                            0 <= j < i ==> out@[j].key@ == model[j].0 && Some(out@[j].value@)
                                == val_of_wire(model[j].1),
                    decreases n - i,
                {
                    match Self::from_grpc_value(&ps[i].value) {
                        Ok(v) => {
                            out.push(FEntry { key: ps[i].key.clone(), value: v });
                            i = i + 1;
                        },
                        Err(e) => {
                            proof {
                                lemma_val_of_wire_pairs_elems(model);
                                assert(val_of_wire(model[i as int].1) is None);
                                if val_of_wire_pairs(model) is Some {
                                    assert(val_of_wire(model[i as int].1) is Some);
                                }
                                assert(val_of_wire(w@) is None);
                            }
                            return Err(e);
                        },
                    }
                }
                proof {
                    lemma_val_of_wire_pairs_elems(model);
                    lemma_fentry_seq_view_elems(out@);
                    assert(val_of_wire_pairs(model) is Some);
                    assert(fentry_seq_view(out@) =~= val_of_wire_pairs(model)->Some_0);
                }
                Ok(FValue::MapValue(out))
            },
        }
    }
}


/// The wire null value.
pub fn null_value() -> (r: WireValue)
    ensures
        r@ == WireVal::Null,
{
    WireValue::NullValue
}

/// A wire boolean value.
pub fn bool_value(v: bool) -> (r: WireValue)
    ensures
        r@ == WireVal::Bool(v),
{
    WireValue::BooleanValue(v)
}

/// A wire integer value.
pub fn int_value(i: i64) -> (r: WireValue)
    ensures
        r@ == WireVal::Int(i),
{
    WireValue::IntegerValue(i)
}

/// A wire timestamp value.
pub fn timestamp_value(t: FTimestamp) -> (r: WireValue)
    ensures
        r@ == WireVal::Timestamp(t.seconds, t.nanos),
{
    WireValue::TimestampValue(t)
}

/// A wire string value.
pub fn str_value(s: String) -> (r: WireValue)
    ensures
        r@ == WireVal::Str(s@),
{
    WireValue::StringValue(s)
}

/// A wire byte-sequence value.
pub fn byte_value(vs: Vec<u8>) -> (r: WireValue)
    ensures
        r@ == WireVal::Bytes(vs@),
{
    WireValue::BytesValue(vs)
}

/// A wire array value over the given elements, in order.
pub fn array_value(s: Vec<WireValue>) -> (r: WireValue)
    ensures
        r@ == WireVal::Array(wire_seq_view(s@)),
{
    WireValue::ArrayValue(s)
}

/// A wire map value over the given entries, in order.
pub fn map_value(m: Vec<WireEntry>) -> (r: WireValue)
    ensures
        r@ == WireVal::MapVal(wire_entry_seq_view(m@)),
{
    WireValue::MapValue(m)
}

/// A wire map value built from key/value tuples, keeping their order.
pub fn map_value_from_vec(m: Vec<(String, WireValue)>) -> (r: WireValue)
    ensures
        r@ matches WireVal::MapVal(t) && t.len() == m@.len() && forall|i: int|
            0 <= i < m@.len() ==> t[i] == (m@[i].0@, m@[i].1@),
{
    let mut out: Vec<WireEntry> = Vec::new();
    let n = m.len();
    let mut rest = m;
    let mut i: usize = 0;
    let ghost orig: Seq<(String, WireValue)> = rest@;
    while rest.len() > 0
        invariant
            i + rest@.len() == n,
            n == orig.len(),
            forall|j: int| 0 <= j < rest@.len() ==> rest@[j] == orig[i + j],
            out@.len() == i,
            forall|j: int| 0 <= j < i ==> out@[j].key == orig[j].0 && out@[j].value == orig[j].1,
        decreases rest.len(),
    {
        let (k, v) = rest.remove(0);
        out.push(WireEntry { key: k, value: v });
        i = i + 1;
    }
    proof {
        lemma_wire_entry_seq_view_elems(out@);
    }
    WireValue::MapValue(out)
}

} // verus!
