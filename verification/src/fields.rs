//! Field sets: the named collection of field values composing one document,
//! modelled as a mapping from key to value.

use vstd::prelude::*;
use crate::strutil::str_eq;
use crate::value::{FEntry, FValue, Val, fentry_seq_view, lemma_fentry_seq_view_elems, val_depth};
use crate::error::SerdeError;
use crate::wire::{WireEntry, wire_entry_seq_view, lemma_wire_entry_seq_view_elems, wire_of_val,
    MAX_VALUE_DEPTH};

verus! {

/// The mapping a key/value pair sequence stands for: later entries win.
pub open spec fn map_of_pairs(s: Seq<(Seq<char>, Val)>) -> Map<Seq<char>, Val>
    decreases s,
{
    if s.len() == 0 {
        Map::empty()
    } else {
        map_of_pairs(s.drop_last()).insert(s.last().0, s.last().1)
    }
}

/// The pair sequence with every entry of the given key removed, keeping the
/// order of the rest.
pub open spec fn seq_remove_key(s: Seq<(Seq<char>, Val)>, k: Seq<char>) -> Seq<(Seq<char>, Val)>
    decreases s,
{
    if s.len() == 0 {
        s
    } else {
        let pre = seq_remove_key(s.drop_last(), k);
        if s.last().0 == k {
            pre
        } else {
            pre.push(s.last())
        }
    }
}

/// Keys are pairwise distinct.
pub open spec fn unique_keys(s: Seq<(Seq<char>, Val)>) -> bool {
    forall|i: int, j: int| 0 <= i < j < s.len() ==> s[i].0 != s[j].0
}

/// Removing a key takes exactly that key out of the mapping, keeps every
/// entry an entry of the original, and preserves key uniqueness.
pub proof fn lemma_remove_key_props(s: Seq<(Seq<char>, Val)>, k: Seq<char>)
    ensures
        map_of_pairs(seq_remove_key(s, k)) == map_of_pairs(s).remove(k),
        seq_remove_key(s, k).len() <= s.len(),
        forall|i: int| 0 <= i < seq_remove_key(s, k).len() ==> seq_remove_key(s, k)[i].0 != k,
        forall|i: int|
            0 <= i < seq_remove_key(s, k).len() ==> exists|j: int|
                0 <= j < s.len() && #[trigger] seq_remove_key(s, k)[i] == s[j],
        unique_keys(s) ==> unique_keys(seq_remove_key(s, k)),
    decreases s,
{
    let r = seq_remove_key(s, k);
    if s.len() == 0 {
        assert(map_of_pairs(s).remove(k) =~= Map::empty());
    } else {
        let dl = s.drop_last();
        lemma_remove_key_props(dl, k);
        let pre = seq_remove_key(dl, k);
        assert forall|i: int|
            0 <= i < pre.len() implies exists|j: int| 0 <= j < s.len() && #[trigger] pre[i]
                == s[j] by {
            let j = choose|j: int| 0 <= j < dl.len() && pre[i] == dl[j];
            assert(dl[j] == s[j]);
            assert(pre[i] == s[j]);
        }
        if s.last().0 == k {
            assert(r == pre);
            assert(map_of_pairs(s) == map_of_pairs(dl).insert(s.last().0, s.last().1));
            assert(map_of_pairs(s).remove(k) =~= map_of_pairs(dl).remove(k));
        } else {
            assert(r == pre.push(s.last()));
            assert(r.drop_last() =~= pre);
            assert(r.len() > 0);
            assert(r.last() == s.last());
            assert(map_of_pairs(r) == map_of_pairs(pre).insert(s.last().0, s.last().1));
            assert(map_of_pairs(s) == map_of_pairs(dl).insert(s.last().0, s.last().1));
            assert(map_of_pairs(s).remove(k) =~= map_of_pairs(dl).remove(k).insert(
                s.last().0,
                s.last().1,
            ));
            assert(s.last() == s[s.len() - 1]);
            if unique_keys(s) {
                assert(unique_keys(dl)) by {
                    assert forall|i: int, j: int|
                        0 <= i < j < dl.len() implies dl[i].0 != dl[j].0 by {
                        assert(dl[i] == s[i] && dl[j] == s[j]);
                    }
                }
                assert forall|i: int, j: int| 0 <= i < j < r.len() implies r[i].0 != r[j].0 by {
                    if j < r.len() - 1 {
                        assert(r[i] == pre[i] && r[j] == pre[j]);
                    } else {
                        assert(r[i] == pre[i] && r[j] == s.last());
                        let w = choose|w: int| 0 <= w < dl.len() && pre[i] == dl[w];
                        assert(s[w].0 != s[s.len() - 1].0);
                    }
                }
            }
        }
        if unique_keys(s) && s.last().0 == k {
            assert(unique_keys(dl)) by {
                assert forall|i: int, j: int|
                    0 <= i < j < dl.len() implies dl[i].0 != dl[j].0 by {
                    assert(dl[i] == s[i] && dl[j] == s[j]);
                }
            }
        }
    }
}

/// A key is in the mapping exactly when some entry has it, and the value is
/// the one of its last entry.
pub proof fn lemma_map_of_pairs_lookup(s: Seq<(Seq<char>, Val)>, k: Seq<char>)
    ensures
        map_of_pairs(s).contains_key(k) <==> exists|i: int| 0 <= i < s.len() && s[i].0 == k,
        forall|i: int|
            0 <= i < s.len() && s[i].0 == k && (forall|j: int| i < j < s.len() ==> s[j].0 != k)
                ==> map_of_pairs(s)[k] == s[i].1,
    decreases s,
{
    if s.len() > 0 {
        let dl = s.drop_last();
        lemma_map_of_pairs_lookup(dl, k);
        assert forall|i: int| 0 <= i < dl.len() implies dl[i] == s[i] by {}
        if map_of_pairs(s).contains_key(k) {
            if s.last().0 == k {
                assert(s[s.len() - 1].0 == k);
            } else {
                let i = choose|i: int| 0 <= i < dl.len() && dl[i].0 == k;
                assert(s[i].0 == k);
            }
        }
        if exists|i: int| 0 <= i < s.len() && s[i].0 == k {
            let i = choose|i: int| 0 <= i < s.len() && s[i].0 == k;
            if i < s.len() - 1 {
                assert(dl[i].0 == k);
            }
            assert(map_of_pairs(s).contains_key(k));
        }
        assert forall|i: int|
            0 <= i < s.len() && s[i].0 == k && (forall|j: int| i < j < s.len() ==> s[j].0 != k)
                implies map_of_pairs(s)[k] == s[i].1 by {
            if i == s.len() - 1 {
                assert(map_of_pairs(s)[k] == s.last().1);
            } else {
                assert(s[s.len() - 1].0 != k);
                assert(s.last().0 != k);
                assert(dl[i].0 == k);
                assert(forall|j: int| i < j < dl.len() ==> dl[j].0 != k);
            }
        }
    }
}

/// A document's field set: a mapping from field name to field value, with
/// each name held once.
#[derive(PartialEq, Debug)]
pub struct FFields {
    entries: Vec<FEntry>,
}

impl View for FFields {
    type V = Map<Seq<char>, Val>;

    closed spec fn view(&self) -> Map<Seq<char>, Val> {
        map_of_pairs(fentry_seq_view(self.entries@))
    }
}

impl FFields {
    /// The ordered key/value pairs this field set holds.
    pub closed spec fn pairs(self) -> Seq<(Seq<char>, Val)> {
        fentry_seq_view(self.entries@)
    }

    /// Every field name is held at most once.
    #[verifier::type_invariant]
    pub closed spec fn wf(self) -> bool {
        unique_keys(self.pairs())
    }

    /// Every value nests within the wire depth limit.
    pub closed spec fn depth_ok(self) -> bool {
        forall|i: int|
            0 <= i < self.pairs().len() ==> val_depth(self.pairs()[i].1)
                <= MAX_VALUE_DEPTH as nat
    }

    /// The field set with no fields.
    pub fn empty() -> (r: Self)
        ensures
            r@ == Map::<Seq<char>, Val>::empty(),
            r.pairs() == Seq::<(Seq<char>, Val)>::empty(),
            r.depth_ok(),
    {
        let r = FFields { entries: Vec::new() };
        proof {
            assert(r.pairs() =~= Seq::<(Seq<char>, Val)>::empty());
        }
        r
    }

    /// Adds a field, replacing any previous value held under the same name.
    pub fn add(&mut self, name: String, v: FValue)
        ensures
            final(self)@ == old(self)@.insert(name@, v@),
            final(self).pairs() == seq_remove_key(old(self).pairs(), name@).push((name@, v@)),
            old(self).depth_ok() && val_depth(v@) <= MAX_VALUE_DEPTH as nat
                ==> final(self).depth_ok(),
    {
        proof {
            use_type_invariant(&*self);
            lemma_fentry_seq_view_elems(self.entries@);
        }
        let ghost orig: Seq<(Seq<char>, Val)> = self.pairs();
        let mut out: Vec<FEntry> = Vec::new();
        let mut rest: Vec<FEntry> = Vec::new();
        core::mem::swap(&mut rest, &mut self.entries);
        let ghost restv: Seq<FEntry> = rest@;
        let mut i: usize = 0;
        let n = rest.len();
        while rest.len() > 0
            invariant
                i + rest@.len() == n,
                n == restv.len(),
                orig == fentry_seq_view(restv),
                forall|j: int| 0 <= j < rest@.len() ==> rest@[j] == restv[i + j],
                fentry_seq_view(out@) == seq_remove_key(
                    fentry_seq_view(restv.take(i as int)),
                    name@,
                ),
            decreases rest.len(),
        {
            let ghost prev: Seq<FEntry> = out@;
            let e = rest.remove(0);
            proof {
                assert(e == restv[i as int]);
                let a = restv.take(i + 1);
                assert(a.drop_last() =~= restv.take(i as int));
                assert(a.last() == restv[i as int]);
                lemma_fentry_seq_view_elems(a);
                assert(fentry_seq_view(a).drop_last() =~= fentry_seq_view(restv.take(i as int)));
                assert(fentry_seq_view(a).len() == i + 1);
                assert(fentry_seq_view(a).last() == (e.key@, e.value@));
                assert(fentry_seq_view(a) == fentry_seq_view(a).drop_last().push(
                    (e.key@, e.value@),
                ));
            }
            if !str_eq(e.key.as_str(), name.as_str()) {
                out.push(e);
                proof {
                    assert(out@.drop_last() =~= prev);
                    assert(out@.last() == e);
                    assert(fentry_seq_view(out@).drop_last() =~= fentry_seq_view(prev));
                    assert(fentry_seq_view(out@) == fentry_seq_view(prev).push(
                        (e.key@, e.value@),
                    ));
                    let a = restv.take(i + 1);
                    assert(seq_remove_key(fentry_seq_view(a), name@) == seq_remove_key(
                        fentry_seq_view(restv.take(i as int)),
                        name@,
                    ).push((e.key@, e.value@)));
                    assert(fentry_seq_view(out@) == seq_remove_key(fentry_seq_view(a), name@));
                }
            } else {
                proof {
                    let a = restv.take(i + 1);
                    assert(seq_remove_key(fentry_seq_view(a), name@) == seq_remove_key(
                        fentry_seq_view(restv.take(i as int)),
                        name@,
                    ));
                    assert(fentry_seq_view(out@) == seq_remove_key(fentry_seq_view(a), name@));
                }
            }
            i = i + 1;
        }
        proof {
            assert(restv.take(n as int) =~= restv);
        }
        let ghost prev: Seq<FEntry> = out@;
        out.push(FEntry { key: name, value: v });
        proof {
            assert(out@.drop_last() =~= prev);
            assert(out@.last() == FEntry { key: name, value: v });
            assert(fentry_seq_view(out@).drop_last() =~= fentry_seq_view(prev));
            assert(fentry_seq_view(out@) == seq_remove_key(orig, name@).push((name@, v@)));
            lemma_remove_key_props(orig, name@);
            let p = fentry_seq_view(out@);
            let rk = seq_remove_key(orig, name@);
            assert forall|ii: int, jj: int| 0 <= ii < jj < p.len() implies p[ii].0
                != p[jj].0 by {
                if jj < p.len() - 1 {
                    assert(p[ii] == rk[ii]);
                    assert(p[jj] == rk[jj]);
                } else {
                    assert(p[ii] == rk[ii]);
                    assert(p[jj] == (name@, v@));
                    assert(rk[ii].0 != name@);
                }
            }
            assert(unique_keys(p));
        }
        self.entries = out;
        proof {
            let rk = seq_remove_key(orig, name@);
            assert(self.pairs() == rk.push((name@, v@)));
            assert(self.pairs().drop_last() =~= rk);
            assert(self@ == map_of_pairs(rk).insert(name@, v@));
            assert(self@ =~= old(self)@.insert(name@, v@));
            if old(self).depth_ok() && val_depth(v@) <= MAX_VALUE_DEPTH as nat {
                assert forall|ii: int|
                    0 <= ii < self.pairs().len() implies val_depth(self.pairs()[ii].1)
                    <= MAX_VALUE_DEPTH as nat by {
                    let p = self.pairs();
                    if ii < p.len() - 1 {
                        assert(p[ii] == rk[ii]);
                        let j = choose|j: int| 0 <= j < orig.len() && #[trigger] rk[ii]
                            == orig[j];
                        assert(val_depth(orig[j].1) <= MAX_VALUE_DEPTH as nat);
                    }
                }
            }
        }
    }

    /// The value held under a name, if any.
    pub fn get(&self, key: &str) -> (r: Option<&FValue>)
        ensures
            r is Some <==> self@.contains_key(key@),
            r matches Some(v) ==> self@[key@] == v@,
    {
        proof {
            use_type_invariant(self);
            lemma_fentry_seq_view_elems(self.entries@);
            lemma_map_of_pairs_lookup(self.pairs(), key@);
        }
        let n = self.entries.len();
        let mut i: usize = 0;
        while i < n
            invariant
                i <= n,
                n == self.entries@.len(),
                forall|j: int| 0 <= j < i ==> self.pairs()[j].0 != key@,
                self.pairs().len() == n,
                forall|j: int|
                    0 <= j < n ==> self.pairs()[j] == (
                        self.entries@[j].key@,
                        self.entries@[j].value@,
                    ),
                unique_keys(self.pairs()),
            decreases n - i,
        {
            if str_eq(self.entries[i].key.as_str(), key) {
                proof {
                    lemma_map_of_pairs_lookup(self.pairs(), key@);
                    assert(self.pairs()[i as int].0 == key@);
                    assert forall|j: int| i < j < n implies self.pairs()[j].0 != key@ by {
                        assert(self.pairs()[i as int].0 != self.pairs()[j].0);
                    }
                }
                return Some(&self.entries[i].value);
            }
            i = i + 1;
        }
        proof {
            lemma_map_of_pairs_lookup(self.pairs(), key@);
        }
        None
    }

    /// This field set as one map-shaped field value.
    pub fn as_fvalue(self) -> (r: FValue)
        ensures
            r@ == Val::MapVal(self.pairs()),
    {
        FValue::MapValue(self.entries)
    }

    /// Converts every field to its wire form, keeping names and order; the
    /// values must nest within the depth limit.
    pub fn to_grpc_fields(self) -> (r: Vec<WireEntry>)
        requires
            self.depth_ok(),
        ensures
            wire_entry_seq_view(r@).len() == self.pairs().len(),
            forall|i: int|
                0 <= i < self.pairs().len() ==> wire_entry_seq_view(r@)[i] == (
                    self.pairs()[i].0,
                    wire_of_val(self.pairs()[i].1),
                ),
    {
        proof {
            lemma_fentry_seq_view_elems(self.entries@);
        }
        let ghost p: Seq<(Seq<char>, Val)> = self.pairs();
        let mut out: Vec<WireEntry> = Vec::new();
        let mut rest = self.entries;
        let ghost restv: Seq<FEntry> = rest@;
        let mut i: usize = 0;
        let n = rest.len();
        while rest.len() > 0
            invariant
                i + rest@.len() == n,
                n == restv.len(),
                p == fentry_seq_view(restv),
                p.len() == n,
                forall|j: int| 0 <= j < n ==> p[j] == (restv[j].key@, restv[j].value@),
                forall|j: int| 0 <= j < n ==> val_depth(p[j].1) <= MAX_VALUE_DEPTH as nat,
                forall|j: int| 0 <= j < rest@.len() ==> rest@[j] == restv[i + j],
                out@.len() == i,
                forall|j: int|
                    0 <= j < i ==> out@[j].key@ == p[j].0 && out@[j].value@ == wire_of_val(
                        p[j].1,
                    ),
            decreases rest.len(),
        {
            let e = rest.remove(0);
            proof {
                assert(e == restv[i as int]);
                assert(p[i as int].1 == e.value@);
                assert(val_depth(p[i as int].1) <= MAX_VALUE_DEPTH as nat);
            }
            let w = e.value.to_grpc_value();
            out.push(WireEntry { key: e.key, value: w });
            i = i + 1;
        }
        proof {
            lemma_wire_entry_seq_view_elems(out@);
        }
        out
    }
}


/// The field-set mapping a sequence of wire entries stands for; `None`
/// exactly when some value holds a wire kind the value model does not
/// support.
pub open spec fn fields_of_wire(s: Seq<(Seq<char>, crate::wire::WireVal)>) -> Option<
    Map<Seq<char>, Val>,
> {
    match crate::wire::val_of_wire_pairs(s) {
        Some(ps) => Some(map_of_pairs(ps)),
        None => None,
    }
}

impl FFields {
    /// Converts a document's wire fields into a field set, later entries
    /// winning on a repeated name. Fails exactly when some value holds an
    /// unsupported wire kind.
    pub fn from_grpc_fields(entries: Vec<WireEntry>) -> (r: Result<FFields, SerdeError>)
        ensures
            r matches Ok(f) ==> Some(f@) == fields_of_wire(wire_entry_seq_view(entries@)),
            r is Err <==> fields_of_wire(wire_entry_seq_view(entries@)) is None,
            r matches Err(e) ==> e is InvalidFValueVariable,
    {
        let ghost ev: Seq<WireEntry> = entries@;
        let ghost wv: Seq<(Seq<char>, crate::wire::WireVal)> = wire_entry_seq_view(entries@);
        proof {
            lemma_wire_entry_seq_view_elems(ev);
        }
        let mut rest = entries;
        let mut f = FFields::empty();
        let n = rest.len();
        let mut i: usize = 0;
        while rest.len() > 0
            invariant
                i + rest@.len() == n,
                n == ev.len(),
                wv == wire_entry_seq_view(ev),
                wv == wire_entry_seq_view(entries@),
                wv.len() == n,
                forall|j: int| 0 <= j < n ==> wv[j] == (ev[j].key@, ev[j].value@),
                forall|j: int| 0 <= j < rest@.len() ==> rest@[j] == ev[i + j],
                crate::wire::val_of_wire_pairs(wv.take(i as int)) is Some,
                f@ == map_of_pairs(
                    crate::wire::val_of_wire_pairs(wv.take(i as int))->Some_0,
                ),
            decreases rest.len(),
        {
            let e = rest.remove(0);
            proof {
                assert(e == ev[i as int]);
                assert(wv.take(i + 1).drop_last() =~= wv.take(i as int));
                assert(wv.take(i + 1).last() == wv[i as int]);
            }
            match FValue::from_grpc_value(&e.value) {
                Ok(v) => {
                    let ghost cp: Seq<(Seq<char>, Val)> = crate::wire::val_of_wire_pairs(
                        wv.take(i as int),
                    )->Some_0;
                    f.add(e.key, v);
                    proof {
                        assert(crate::wire::val_of_wire_pairs(wv.take(i + 1)) == Some(
                            cp.push((wv[i as int].0, v@)),
                        ));
                        assert(cp.push((wv[i as int].0, v@)).drop_last() =~= cp);
                        assert(f@ == map_of_pairs(cp).insert(e.key@, v@));
                        assert(f@ == map_of_pairs(cp.push((wv[i as int].0, v@))));
                    }
                },
                Err(er) => {
                    proof {
                        crate::wire::lemma_val_of_wire_pairs_elems(wv);
                        assert(crate::wire::val_of_wire(wv[i as int].1) is None);
                        if crate::wire::val_of_wire_pairs(wv) is Some {
                            assert(crate::wire::val_of_wire(wv[i as int].1) is Some);
                        }
                    }
                    return Err(er);
                },
            }
            i = i + 1;
        }
        proof {
            assert(wv.take(n as int) =~= wv);
        }
        Ok(f)
    }
}

} // verus!
