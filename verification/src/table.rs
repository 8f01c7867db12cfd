//! A string-keyed association table with a mathematical map view.
//!
//! Every zone registry in the crate is a map from an identity string to a
//! statistics record.  This table stores the identities and records in two
//! parallel vectors, keeps the identities distinct, and exposes the whole
//! structure as a `Map<Seq<char>, V>` for use in contracts.  Entries are
//! never evicted individually; unbounded growth under key churn is an
//! accepted resource-management gap of the design.

use vstd::map::*;
use vstd::prelude::*;

verus! {

#[derive(Debug)]
pub struct StrTable<V> {
    keys: Vec<String>,
    vals: Vec<V>,
}

/// The map described by parallel key/value sequences; a later entry for the
/// same key would win, but well-formed tables never hold one.
pub open spec fn table_map<V>(keys: Seq<String>, vals: Seq<V>) -> Map<Seq<char>, V>
    decreases keys.len(),
{
    if keys.len() == 0 || vals.len() == 0 {
        Map::empty()
    } else {
        table_map(keys.drop_last(), vals.drop_last()).insert(keys.last()@, vals.last())
    }
}

impl<V> StrTable<V> {
    /// The identity strings, in insertion order.
    pub closed spec fn key_seq(self) -> Seq<Seq<char>> {
        self.keys@.map_values(|k: String| k@)
    }

    /// The records, in insertion order.
    pub closed spec fn val_seq(self) -> Seq<V> {
        self.vals@
    }

    /// Well-formed: as many records as identities, and identities distinct.
    pub closed spec fn wf(self) -> bool {
        &&& self.keys@.len() == self.vals@.len()
        &&& forall|i: int, j: int|
            0 <= i < j < self.keys@.len() ==> self.keys@[i]@ != self.keys@[j]@
    }

    pub closed spec fn as_map(self) -> Map<Seq<char>, V> {
        table_map(self.keys@, self.vals@)
    }

    proof fn lemma_map_contains(keys: Seq<String>, vals: Seq<V>, k: Seq<char>)
        requires
            keys.len() == vals.len(),
        ensures
            table_map(keys, vals).contains_key(k) <==> exists|i: int|
                0 <= i < keys.len() && keys[i]@ == k,
        decreases keys.len(),
    {
        if keys.len() > 0 {
            Self::lemma_map_contains(keys.drop_last(), vals.drop_last(), k);
            if k == keys.last()@ {
                assert(keys[keys.len() - 1]@ == k);
            } else {
                if table_map(keys, vals).contains_key(k) {
                    let i = choose|i: int|
                        0 <= i < keys.len() - 1 && keys.drop_last()[i]@ == k;
                    assert(keys.drop_last()[i] == keys[i]);
                    assert(keys[i]@ == k);
                }
                if exists|i: int| 0 <= i < keys.len() && keys[i]@ == k {
                    let i = choose|i: int| 0 <= i < keys.len() && keys[i]@ == k;
                    assert(i != keys.len() - 1);
                    assert(keys.drop_last()[i] == keys[i]);
                    assert(table_map(keys.drop_last(), vals.drop_last()).contains_key(k));
                }
            }
        }
    }

    proof fn lemma_map_get(keys: Seq<String>, vals: Seq<V>, i: int)
        requires
            keys.len() == vals.len(),
            0 <= i < keys.len(),
            forall|p: int, q: int| 0 <= p < q < keys.len() ==> keys[p]@ != keys[q]@,
        ensures
            table_map(keys, vals).contains_key(keys[i]@),
            table_map(keys, vals)[keys[i]@] == vals[i],
        decreases keys.len(),
    {
        if i < keys.len() - 1 {
            Self::lemma_map_get(keys.drop_last(), vals.drop_last(), i);
            assert(keys.last()@ != keys[i]@);
        }
    }

    proof fn lemma_map_update(keys: Seq<String>, vals: Seq<V>, i: int)
        requires
            keys.len() == vals.len(),
            0 <= i < keys.len(),
            forall|p: int, q: int| 0 <= p < q < keys.len() ==> keys[p]@ != keys[q]@,
        ensures
            forall|v: V|
                table_map(keys, #[trigger] vals.update(i, v)) == table_map(keys, vals).insert(
                    keys[i]@,
                    v,
                ),
        decreases keys.len(),
    {
        assert forall|v: V|
            table_map(keys, #[trigger] vals.update(i, v)) == table_map(keys, vals).insert(
                keys[i]@,
                v,
            ) by {
            Self::lemma_map_update_one(keys, vals, i, v);
        }
    }

    proof fn lemma_map_update_one(keys: Seq<String>, vals: Seq<V>, i: int, v: V)
        requires
            keys.len() == vals.len(),
            0 <= i < keys.len(),
            forall|p: int, q: int| 0 <= p < q < keys.len() ==> keys[p]@ != keys[q]@,
        ensures
            table_map(keys, vals.update(i, v)) == table_map(keys, vals).insert(keys[i]@, v),
        decreases keys.len(),
    {
        let n = keys.len();
        if i == n - 1 {
            assert(vals.update(i, v).drop_last() =~= vals.drop_last());
            assert(vals.update(i, v).last() == v);
            assert(table_map(keys, vals.update(i, v)) =~= table_map(keys, vals).insert(
                keys[i]@,
                v,
            ));
        } else {
            Self::lemma_map_update_one(keys.drop_last(), vals.drop_last(), i, v);
            assert(vals.update(i, v).drop_last() =~= vals.drop_last().update(i, v));
            assert(vals.update(i, v).last() == vals.last());
            assert(keys[i]@ != keys.last()@);
            assert(table_map(keys, vals.update(i, v)) =~= table_map(keys, vals).insert(
                keys[i]@,
                v,
            ));
        }
    }

    proof fn lemma_map_push(keys: Seq<String>, vals: Seq<V>, k: String, v: V)
        requires
            keys.len() == vals.len(),
        ensures
            table_map(keys.push(k), vals.push(v)) == table_map(keys, vals).insert(k@, v),
    {
        assert(keys.push(k).drop_last() =~= keys);
        assert(vals.push(v).drop_last() =~= vals);
    }

    /// What well-formedness gives at the sequence level: parallel lengths
    /// and distinct identities.
    pub proof fn lemma_wf(self)
        requires
            self.wf(),
        ensures
            self.key_seq().len() == self.val_seq().len(),
            forall|i: int, j: int|
                0 <= i < j < self.key_seq().len() ==> self.key_seq()[i] != self.key_seq()[j],
    {
        assert forall|i: int, j: int|
            0 <= i < j < self.key_seq().len() implies self.key_seq()[i]
            != self.key_seq()[j] by {
            assert(self.keys@[i]@ != self.keys@[j]@);
        }
    }

    /// Two tables with the same entries describe the same map.
    pub proof fn lemma_same_entries(a: StrTable<V>, b: StrTable<V>)
        requires
            a.wf(),
            b.wf(),
            a.key_seq() == b.key_seq(),
            a.val_seq() == b.val_seq(),
        ensures
            a.as_map() == b.as_map(),
    {
        assert_maps_equal!(a.as_map(), b.as_map(), k => {
            a.lemma_contains(k);
            b.lemma_contains(k);
            if a.as_map().contains_key(k) || b.as_map().contains_key(k) {
                let i = choose|i: int| 0 <= i < a.key_seq().len() && a.key_seq()[i] == k;
                a.lemma_at(i);
                b.lemma_at(i);
            }
        });
    }

    /// Map membership is exactly presence among the identities.
    pub proof fn lemma_contains(self, k: Seq<char>)
        requires
            self.wf(),
        ensures
            self.as_map().contains_key(k) <==> exists|i: int|
                0 <= i < self.key_seq().len() && self.key_seq()[i] == k,
    {
        Self::lemma_map_contains(self.keys@, self.vals@, k);
        if exists|i: int| 0 <= i < self.keys@.len() && self.keys@[i]@ == k {
            let i = choose|i: int| 0 <= i < self.keys@.len() && self.keys@[i]@ == k;
            assert(self.key_seq()[i] == k);
        }
        if exists|i: int| 0 <= i < self.key_seq().len() && self.key_seq()[i] == k {
            let i = choose|i: int| 0 <= i < self.key_seq().len() && self.key_seq()[i] == k;
            assert(self.keys@[i]@ == k);
        }
    }

    /// The record at an index is the record the map holds for that identity.
    pub proof fn lemma_at(self, i: int)
        requires
            self.wf(),
            0 <= i < self.key_seq().len(),
        ensures
            self.as_map().contains_key(self.key_seq()[i]),
            self.as_map()[self.key_seq()[i]] == self.val_seq()[i],
    {
        Self::lemma_map_get(self.keys@, self.vals@, i);
    }

    pub fn new() -> (t: Self)
        ensures
            t.wf(),
            t.as_map() == Map::<Seq<char>, V>::empty(),
            t.key_seq() == Seq::<Seq<char>>::empty(),
            t.val_seq() == Seq::<V>::empty(),
    {
        let t = StrTable { keys: Vec::new(), vals: Vec::new() };
        proof {
            assert(t.key_seq() =~= Seq::<Seq<char>>::empty());
        }
        t
    }

    pub fn len(&self) -> (n: usize)
        ensures
            n == self.key_seq().len(),
    {
        self.keys.len()
    }

    pub fn is_empty(&self) -> (b: bool)
        ensures
            b == (self.key_seq().len() == 0),
    {
        self.keys.len() == 0
    }

    /// Index of an identity, scanning in insertion order.
    pub fn find(&self, key: &str) -> (r: Option<usize>)
        ensures
            match r {
                Some(i) => i < self.key_seq().len() && self.key_seq()[i as int] == key@,
                None => forall|i: int| 0 <= i < self.key_seq().len() ==> self.key_seq()[i] != key@,
            },
    {
        let probe: String = key.to_owned();
        let n = self.keys.len();
        let mut i: usize = 0;
        while i < n
            invariant
                n == self.keys@.len(),
                i <= n,
                probe@ == key@,
                forall|j: int| 0 <= j < i ==> self.key_seq()[j] != key@,
            decreases n - i,
        {
            if self.keys[i].eq(&probe) {
                return Some(i);
            }
            i += 1;
        }
        None
    }

    pub fn contains_key(&self, key: &str) -> (b: bool)
        requires
            self.wf(),
        ensures
            b == self.as_map().contains_key(key@),
    {
        proof {
            self.lemma_contains(key@);
        }
        self.find(key).is_some()
    }

    pub fn get(&self, key: &str) -> (r: Option<&V>)
        requires
            self.wf(),
        ensures
            r == if self.as_map().contains_key(key@) {
                Some(&self.as_map()[key@])
            } else {
                None::<&V>
            },
    {
        proof {
            self.lemma_contains(key@);
        }
        match self.find(key) {
            Some(i) => {
                proof {
                    self.lemma_at(i as int);
                }
                Some(&self.vals[i])
            },
            None => None,
        }
    }

    pub fn key_at(&self, i: usize) -> (k: &String)
        requires
            i < self.key_seq().len(),
    ensures
            k@ == self.key_seq()[i as int],
    {
        &self.keys[i]
    }

    pub fn val_at(&self, i: usize) -> (v: &V)
        requires
            i < self.val_seq().len(),
        ensures
            *v == self.val_seq()[i as int],
    {
        &self.vals[i]
    }

    /// Mutable access to the record at an index; the identities are untouched.
    pub fn val_at_mut(&mut self, i: usize) -> (v: &mut V)
        requires
            old(self).wf(),
            i < old(self).val_seq().len(),
        ensures
            *v == old(self).val_seq()[i as int],
            final(self).wf(),
            final(self).key_seq() == old(self).key_seq(),
            final(self).val_seq() == old(self).val_seq().update(i as int, *final(v)),
            final(self).as_map() == old(self).as_map().insert(
                old(self).key_seq()[i as int],
                *final(v),
            ),
    {
        proof {
            Self::lemma_map_update(self.keys@, self.vals@, i as int);
        }
        &mut self.vals[i]
    }

    /// The record for `key`, created from `fresh` on first access.
    /// The table afterwards maps `key` to whatever the caller leaves behind
    /// in the returned reference.
    pub fn get_or_insert_mut(&mut self, key: &str, fresh: V) -> (v: &mut V)
        requires
            old(self).wf(),
        ensures
            *v == if old(self).as_map().contains_key(key@) {
                old(self).as_map()[key@]
            } else {
                fresh
            },
            final(self).wf(),
            final(self).as_map() == old(self).as_map().insert(key@, *final(v)),
            old(self).as_map().contains_key(key@) ==> final(self).key_seq() == old(
                self,
            ).key_seq(),
            !old(self).as_map().contains_key(key@) ==> final(self).key_seq() == old(
                self,
            ).key_seq().push(key@),
    {
        proof {
            self.lemma_contains(key@);
        }
        match self.find(key) {
            Some(i) => {
                proof {
                    self.lemma_at(i as int);
                    Self::lemma_map_update(self.keys@, self.vals@, i as int);
                }
                &mut self.vals[i]
            },
            None => {
                let owned: String = key.to_owned();
                let ghost old_keys = self.keys@;
                let ghost old_vals = self.vals@;
                let ghost fresh_g = fresh;
                self.keys.push(owned);
                self.vals.push(fresh);
                proof {
                    assert(self.key_seq() =~= old(self).key_seq().push(key@));
                    assert forall|p: int, q: int|
                        0 <= p < q < self.keys@.len() implies self.keys@[p]@
                        != self.keys@[q]@ by {
                        if q == self.keys@.len() - 1 {
                            assert(old(self).key_seq()[p] == self.keys@[p]@);
                            assert(self.keys@[q]@ == key@);
                        }
                    }
                    Self::lemma_map_push(old_keys, old_vals, self.keys@.last(), fresh_g);
                    Self::lemma_map_update(self.keys@, self.vals@, self.keys@.len() - 1);
                    assert forall|b: V| #[trigger] old(self).as_map().insert(key@, fresh_g).insert(
                        key@,
                        b,
                    ) == old(self).as_map().insert(key@, b) by {
                        assert(old(self).as_map().insert(key@, fresh_g).insert(key@, b)
                            =~= old(self).as_map().insert(key@, b));
                    }
                }
                let n = self.vals.len() - 1;
                &mut self.vals[n]
            },
        }
    }

    /// Insert or replace the record for `key`.
    pub fn insert(&mut self, key: &str, val: V)
        requires
            old(self).wf(),
        ensures
            final(self).wf(),
            final(self).as_map() == old(self).as_map().insert(key@, val),
            old(self).as_map().contains_key(key@) ==> final(self).key_seq() == old(
                self,
            ).key_seq(),
            !old(self).as_map().contains_key(key@) ==> final(self).key_seq() == old(
                self,
            ).key_seq().push(key@),
            !old(self).as_map().contains_key(key@) ==> final(self).val_seq() == old(
                self,
            ).val_seq().push(val),
    {
        proof {
            self.lemma_contains(key@);
        }
        match self.find(key) {
            Some(i) => {
                proof {
                    self.lemma_at(i as int);
                    Self::lemma_map_update(self.keys@, self.vals@, i as int);
                }
                self.vals[i] = val;
            },
            None => {
                let owned: String = key.to_owned();
                let ghost old_keys = self.keys@;
                let ghost old_vals = self.vals@;
                let ghost val_g = val;
                self.keys.push(owned);
                self.vals.push(val);
                proof {
                    assert(self.key_seq() =~= old(self).key_seq().push(key@));
                    assert forall|p: int, q: int|
                        0 <= p < q < self.keys@.len() implies self.keys@[p]@
                        != self.keys@[q]@ by {
                        if q == self.keys@.len() - 1 {
                            assert(old(self).key_seq()[p] == self.keys@[p]@);
                            assert(self.keys@[q]@ == key@);
                        }
                    }
                    Self::lemma_map_push(old_keys, old_vals, self.keys@.last(), val_g);
                }
            },
        }
    }

    /// Remove every entry.
    pub fn clear(&mut self)
        ensures
            final(self).wf(),
            final(self).as_map() == Map::<Seq<char>, V>::empty(),
            final(self).key_seq() == Seq::<Seq<char>>::empty(),
            final(self).val_seq() == Seq::<V>::empty(),
    {
        self.keys.clear();
        self.vals.clear();
        proof {
            assert(self.key_seq() =~= Seq::<Seq<char>>::empty());
        }
    }
}

} // verus!
