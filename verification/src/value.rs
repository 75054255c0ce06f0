//! The typed value model: the closed set of value kinds the document store
//! supports, its mathematical model, and its nesting-depth measure.

use vstd::prelude::*;

verus! {

/// A point in time as a Unix epoch pair: whole seconds and subsecond
/// nanoseconds.
#[derive(Clone, Copy, PartialEq, Eq, Structural, Debug)]
pub struct FTimestamp {
    pub seconds: i64,
    pub nanos: u32,
}

/// One key/value entry of a map value.
#[derive(PartialEq, Debug)]
pub struct FEntry {
    pub key: String,
    pub value: FValue,
}

/// A typed field value. Doubles are carried as their IEEE-754 bit patterns so
/// that the value algebra stays exact; maps are ordered lists of key/value
/// entries.
#[derive(PartialEq, Debug)]
pub enum FValue {
    NullValue,
    Str(String),
    Int(i64),
    DoubleBits(u64),
    Bool(bool),
    Bytes(Vec<u8>),
    Timestamp(FTimestamp),
    Array(Vec<FValue>),
    MapValue(Vec<FEntry>),
}

/// The mathematical model of a field value.
pub enum Val {
    Null,
    Str(Seq<char>),
    Int(i64),
    Double(u64),
    Bool(bool),
    Bytes(Seq<u8>),
    Timestamp(i64, u32),
    Array(Seq<Val>),
    MapVal(Seq<(Seq<char>, Val)>),
}

impl View for FValue {
    type V = Val;

    open spec fn view(&self) -> Val
        decreases self,
    {
        match self {
            FValue::NullValue => Val::Null,
            FValue::Str(s) => Val::Str(s@),
            FValue::Int(i) => Val::Int(*i),
            FValue::DoubleBits(b) => Val::Double(*b),
            FValue::Bool(b) => Val::Bool(*b),
            FValue::Bytes(bs) => Val::Bytes(bs@),
            FValue::Timestamp(t) => Val::Timestamp(t.seconds, t.nanos),
            FValue::Array(vs) => Val::Array(fvalue_seq_view(vs@)),
            FValue::MapValue(ps) => Val::MapVal(fentry_seq_view(ps@)),
        }
    }
}

/// Model of a sequence of field values.
pub open spec fn fvalue_seq_view(s: Seq<FValue>) -> Seq<Val>
    decreases s,
{
    if s.len() == 0 {
        Seq::empty()
    } else {
        fvalue_seq_view(s.drop_last()).push(s.last()@)
    }
}

/// Model of a sequence of map entries.
pub open spec fn fentry_seq_view(s: Seq<FEntry>) -> Seq<(Seq<char>, Val)>
    decreases s,
{
    if s.len() == 0 {
        Seq::empty()
    } else {
        fentry_seq_view(s.drop_last()).push((s.last().key@, s.last().value@))
    }
}

/// The model of a sequence of field values is the sequence of their models.
pub proof fn lemma_fvalue_seq_view_elems(s: Seq<FValue>)
    ensures
        fvalue_seq_view(s).len() == s.len(),
        forall|i: int| 0 <= i < s.len() ==> fvalue_seq_view(s)[i] == s[i]@,
    decreases s,
{
    if s.len() > 0 {
        lemma_fvalue_seq_view_elems(s.drop_last());
        assert(fvalue_seq_view(s) == fvalue_seq_view(s.drop_last()).push(s.last()@));
        assert(fvalue_seq_view(s.drop_last()).len() == s.drop_last().len());
        assert(s.drop_last().len() == s.len() - 1);
        assert(fvalue_seq_view(s).len() == s.len());
        assert forall|i: int| 0 <= i < s.len() implies fvalue_seq_view(s)[i] == s[i]@ by {
            if i < s.len() - 1 {
                assert(fvalue_seq_view(s)[i] == fvalue_seq_view(s.drop_last())[i]);
                assert(s.drop_last()[i] == s[i]);
            } else {
                assert(s.last() == s[i]);
            }
        }
    }
}

/// The model of a sequence of map entries is the sequence of their key/value
/// models.
pub proof fn lemma_fentry_seq_view_elems(s: Seq<FEntry>)
    ensures
        fentry_seq_view(s).len() == s.len(),
        forall|i: int| 0 <= i < s.len() ==> fentry_seq_view(s)[i] == (s[i].key@, s[i].value@),
    decreases s,
{
    if s.len() > 0 {
        lemma_fentry_seq_view_elems(s.drop_last());
        assert(fentry_seq_view(s) == fentry_seq_view(s.drop_last()).push(
            (s.last().key@, s.last().value@),
        ));
        assert(fentry_seq_view(s.drop_last()).len() == s.drop_last().len());
        assert(s.drop_last().len() == s.len() - 1);
        assert(fentry_seq_view(s).len() == s.len());
        assert forall|i: int| 0 <= i < s.len() implies fentry_seq_view(s)[i] == (
        s[i].key@,
        s[i].value@,
        ) by {
            if i < s.len() - 1 {
                assert(fentry_seq_view(s)[i] == fentry_seq_view(s.drop_last())[i]);
                assert(s.drop_last()[i] == s[i]);
            } else {
                assert(s.last() == s[i]);
            }
        }
    }
}

/// Nesting depth of a value: the number of array/map levels on the longest
/// path from the root to any node below it. Leaves and empty containers add
/// nothing.
pub open spec fn val_depth(m: Val) -> nat
    decreases m,
{
    match m {
        Val::Array(vs) => if vs.len() == 0 {
            0
        } else {
            1 + val_seq_depth(vs)
        },
        Val::MapVal(ps) => if ps.len() == 0 {
            0
        } else {
            1 + val_pairs_depth(ps)
        },
        _ => 0,
    }
}

/// Largest depth among the values of a sequence.
pub open spec fn val_seq_depth(s: Seq<Val>) -> nat
    decreases s,
{
    if s.len() == 0 {
        0
    } else {
        let first = val_depth(s[0]);
        let rest = val_seq_depth(s.drop_first());
        if first >= rest {
            first
        } else {
            rest
        }
    }
}

/// Largest depth among the values of a key/value pair sequence.
pub open spec fn val_pairs_depth(s: Seq<(Seq<char>, Val)>) -> nat
    decreases s,
{
    if s.len() == 0 {
        0
    } else {
        let first = val_depth(s[0].1);
        let rest = val_pairs_depth(s.drop_first());
        if first >= rest {
            first
        } else {
            rest
        }
    }
}

/// A sequence of values stays within a depth bound exactly when each of its
/// values does.
pub proof fn lemma_val_seq_depth_bound(s: Seq<Val>, k: nat)
    ensures
        (val_seq_depth(s) <= k) <==> (forall|i: int| 0 <= i < s.len() ==> val_depth(s[i]) <= k),
    decreases s,
{
    if s.len() > 0 {
        lemma_val_seq_depth_bound(s.drop_first(), k);
        assert forall|i: int| 1 <= i < s.len() implies s.drop_first()[i - 1] == s[i] by {}
        if val_seq_depth(s) <= k {
            assert forall|i: int| 0 <= i < s.len() implies val_depth(s[i]) <= k by {
                if i > 0 {
                    assert(s.drop_first()[i - 1] == s[i]);
                }
            }
        }
    }
}

/// A sequence of map entries stays within a depth bound exactly when each of
/// its values does.
pub proof fn lemma_val_pairs_depth_bound(s: Seq<(Seq<char>, Val)>, k: nat)
    ensures
        (val_pairs_depth(s) <= k) <==> (forall|i: int| 0 <= i < s.len() ==> val_depth(s[i].1) <= k),
    decreases s,
{
    if s.len() > 0 {
        lemma_val_pairs_depth_bound(s.drop_first(), k);
        assert forall|i: int| 1 <= i < s.len() implies s.drop_first()[i - 1] == s[i] by {}
        if val_pairs_depth(s) <= k {
            assert forall|i: int| 0 <= i < s.len() implies val_depth(s[i].1) <= k by {
                if i > 0 {
                    assert(s.drop_first()[i - 1] == s[i]);
                }
            }
        }
    }
}


impl FValue {
    /// The held string, consuming the value; any other kind gives nothing.
    pub fn into_string(self) -> (r: Option<String>)
        ensures
            r == (match self {
                FValue::Str(s) => Some(s),
                _ => None::<String>,
            }),
    {
        if let FValue::Str(v) = self {
            Some(v)
        } else {
            None
        }
    }

    /// The held integer, consuming the value; any other kind gives nothing.
    pub fn into_int(self) -> (r: Option<i64>)
        ensures
            r == (match self {
                FValue::Int(i) => Some(i),
                _ => None::<i64>,
            }),
    {
        if let FValue::Int(v) = self {
            Some(v)
        } else {
            None
        }
    }

    /// The held boolean, consuming the value; any other kind gives nothing.
    pub fn into_bool(self) -> (r: Option<bool>)
        ensures
            r == (match self {
                FValue::Bool(b) => Some(b),
                _ => None::<bool>,
            }),
    {
        if let FValue::Bool(v) = self {
            Some(v)
        } else {
            None
        }
    }

    /// The held double's bit pattern, consuming the value; any other kind
    /// gives nothing.
    pub fn into_double_bits(self) -> (r: Option<u64>)
        ensures
            r == (match self {
                FValue::DoubleBits(b) => Some(b),
                _ => None::<u64>,
            }),
    {
        if let FValue::DoubleBits(v) = self {
            Some(v)
        } else {
            None
        }
    }

    /// The held bytes, consuming the value; any other kind gives nothing.
    pub fn into_bytes(self) -> (r: Option<Vec<u8>>)
        ensures
            r == (match self {
                FValue::Bytes(b) => Some(b),
                _ => None::<Vec<u8>>,
            }),
    {
        if let FValue::Bytes(v) = self {
            Some(v)
        } else {
            None
        }
    }

    /// The held timestamp, consuming the value; any other kind gives nothing.
    pub fn into_system(self) -> (r: Option<FTimestamp>)
        ensures
            r == (match self {
                FValue::Timestamp(t) => Some(t),
                _ => None::<FTimestamp>,
            }),
    {
        if let FValue::Timestamp(v) = self {
            Some(v)
        } else {
            None
        }
    }

    /// The held array, consuming the value; any other kind gives nothing.
    pub fn into_array(self) -> (r: Option<Vec<FValue>>)
        ensures
            r == (match self {
                FValue::Array(vs) => Some(vs),
                _ => None::<Vec<FValue>>,
            }),
    {
        if let FValue::Array(v) = self {
            Some(v)
        } else {
            None
        }
    }

    /// The held map entries, consuming the value; any other kind gives
    /// nothing.
    pub fn into_map(self) -> (r: Option<Vec<FEntry>>)
        ensures
            r == (match self {
                FValue::MapValue(ps) => Some(ps),
                _ => None::<Vec<FEntry>>,
            }),
    {
        if let FValue::MapValue(v) = self {
            Some(v)
        } else {
            None
        }
    }

    /// A borrow of the held string; any other kind gives nothing.
    pub fn as_string(&self) -> (r: Option<&String>)
        ensures
            match self {
                FValue::Str(s) => r matches Some(x) && x == s,
                _ => r is None,
            },
    {
        if let FValue::Str(v) = self {
            Some(v)
        } else {
            None
        }
    }

    /// A borrow of the held integer; any other kind gives nothing.
    pub fn as_int(&self) -> (r: Option<&i64>)
        ensures
            match self {
                FValue::Int(i) => r matches Some(x) && x == i,
                _ => r is None,
            },
    {
        if let FValue::Int(v) = self {
            Some(v)
        } else {
            None
        }
    }

    /// A borrow of the held boolean; any other kind gives nothing.
    pub fn as_bool(&self) -> (r: Option<&bool>)
        ensures
            match self {
                FValue::Bool(b) => r matches Some(x) && x == b,
                _ => r is None,
            },
    {
        if let FValue::Bool(v) = self {
            Some(v)
        } else {
            None
        }
    }

    /// A borrow of the held double's bit pattern; any other kind gives
    /// nothing.
    pub fn as_double_bits(&self) -> (r: Option<&u64>)
        ensures
            match self {
                FValue::DoubleBits(b) => r matches Some(x) && x == b,
                _ => r is None,
            },
    {
        if let FValue::DoubleBits(v) = self {
            Some(v)
        } else {
            None
        }
    }

    /// A borrow of the held bytes; any other kind gives nothing.
    pub fn as_bytes(&self) -> (r: Option<&Vec<u8>>)
        ensures
            match self {
                FValue::Bytes(b) => r matches Some(x) && x == b,
                _ => r is None,
            },
    {
        if let FValue::Bytes(v) = self {
            Some(v)
        } else {
            None
        }
    }

    /// A borrow of the held timestamp; any other kind gives nothing.
    pub fn as_system(&self) -> (r: Option<&FTimestamp>)
        ensures
            match self {
                FValue::Timestamp(t) => r matches Some(x) && x == t,
                _ => r is None,
            },
    {
        if let FValue::Timestamp(v) = self {
            Some(v)
        } else {
            None
        }
    }

    /// A borrow of the held array; any other kind gives nothing.
    pub fn as_array(&self) -> (r: Option<&Vec<FValue>>)
        ensures
            match self {
                FValue::Array(vs) => r matches Some(x) && x == vs,
                _ => r is None,
            },
    {
        if let FValue::Array(v) = self {
            Some(v)
        } else {
            None
        }
    }

    /// A borrow of the held map entries; any other kind gives nothing.
    pub fn as_map(&self) -> (r: Option<&Vec<FEntry>>)
        ensures
            match self {
                FValue::MapValue(ps) => r matches Some(x) && x == ps,
                _ => r is None,
            },
    {
        if let FValue::MapValue(v) = self {
            Some(v)
        } else {
            None
        }
    }
}

/// An array value over the given elements, in order.
pub fn array_value_from_vec(m: Vec<FValue>) -> (r: FValue)
    ensures
        r@ == Val::Array(fvalue_seq_view(m@)),
{
    FValue::Array(m)
}

/// A map-shaped value built from key/value tuples, keeping their order; when
/// it is imported into a field set, later entries win on a repeated key.
pub fn map_value_from_vec(m: Vec<(String, FValue)>) -> (r: FValue)
    ensures
        r@ matches Val::MapVal(t) && t.len() == m@.len() && forall|i: int|
            0 <= i < m@.len() ==> t[i] == (m@[i].0@, m@[i].1@),
{
    let mut out: Vec<FEntry> = Vec::new();
    let n = m.len();
    let mut rest = m;
    let mut i: usize = 0;
    let ghost orig: Seq<(String, FValue)> = rest@;
    while rest.len() > 0
        invariant
            i + rest@.len() == n,
            n == orig.len(),
            forall|j: int| 0 <= j < rest@.len() ==> rest@[j] == orig[i + j],
            out@.len() == i,
            forall|j: int| 0 <= j < i ==> out@[j].key == orig[j].0 && out@[j].value == orig[j].1,
        decreases rest.len(),
    {
        let (k, v) = rest.remove(0);
        out.push(FEntry { key: k, value: v });
        i = i + 1;
    }
    proof {
        lemma_fentry_seq_view_elems(out@);
    }
    FValue::MapValue(out)
}

} // verus!
