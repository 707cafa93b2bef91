//! Entity handles and tables of components keyed by entity.

use vstd::prelude::*;
use std::collections::BTreeMap;
use vstd::std_specs::iter::IteratorSpec;
use vstd::laws_cmp::obeys_cmp;
use vstd::std_specs::cmp::OrdSpec;
use crate::errors::BaryError;
use crate::grid::Ent;

verus! {

broadcast use vstd::std_specs::btree::group_btree_axioms;

/// Hands out fresh entity handles, counting up from 0.
#[derive(Debug, Clone)]
pub struct EntitySpawner {
    next_id: Ent,
}

impl View for EntitySpawner {
    type V = u64;

    closed spec fn view(&self) -> u64 {
        self.next_id.0
    }
}

impl Default for EntitySpawner {
    fn default() -> (s: Self)
        ensures
            s@ == 0,
    {
        EntitySpawner { next_id: Ent(0) }
    }
}

impl EntitySpawner {
    /// Returns a fresh handle: the next one in line, which is then used up.
    pub fn spawn(&mut self) -> (e: Ent)
        requires
            old(self)@ < u64::MAX,
        ensures
            e.0 == old(self)@,
            final(self)@ == old(self)@ + 1,
    {
        let ret = self.next_id;
        self.next_id = Ent(self.next_id.0 + 1);
        ret
    }

    /// The handle the next call of [Self::spawn] will return.
    pub fn next(&self) -> (e: Ent)
        ensures
            e.0 == self@,
    {
        self.next_id
    }
}

/// Calls `BTreeMap::get_mut`: a mutable reference to the value under `k`,
/// if any. Claimed: the reference starts out as the stored value, whatever
/// is written through it becomes the value under `k`, and the map is
/// otherwise unchanged; `None` exactly when `k` has no value.
#[verifier::external_body]
fn btree_get_mut<E>(m: &mut BTreeMap<u64, E>, k: u64) -> (r: Option<&mut E>)
    ensures
        match r {
            Some(v) => {
                &&& old(m)@.contains_key(k)
                &&& *v == old(m)@[k]
                &&& final(m)@ == old(m)@.insert(k, *final(v))
            },
            None => !old(m)@.contains_key(k) && final(m)@ == old(m)@,
        },
{
    m.get_mut(&k)
}

/// Calls `BTreeMap::iter_mut` and collects the entries, each key as the
/// entity it names. Claimed, as the documentation of `iter_mut` says: one
/// entry per key, in increasing key order, each reference starting out as
/// the stored value; whatever is written through a reference becomes the
/// value under its key, and no key is added or removed.
#[verifier::external_body]
fn btree_iter_mut<E>(m: &mut BTreeMap<u64, E>) -> (r: Vec<(Ent, &mut E)>)
    ensures
        r@.len() == old(m)@.len(),
        r@.map_values(|e: (Ent, &mut E)| e.0.0).to_set() == old(m)@.dom(),
        forall|i: int, j: int| 0 <= i < j < r@.len() ==> r@[i].0.0 < r@[j].0.0,
        forall|i: int| 0 <= i < r@.len() ==> old(m)@.contains_key(#[trigger] r@[i].0.0) && *r@[i].1 == old(m)@[r@[i].0.0],
        final(m)@.dom() == old(m)@.dom(),
        forall|i: int| 0 <= i < r@.len() ==> final(m)@[#[trigger] r@[i].0.0] == *final(r@[i].1),
{
    m.iter_mut().map(|(k, v)| (Ent(*k), v)).collect()
}

/// A component that was just added is found under its entity, and the
/// table is one larger; removing it again leaves the table as it was.
pub proof fn lemma_spawn_then_despawn<E>(m: Map<u64, E>, id: u64, e: E)
    requires
        m.dom().finite(),
        !m.contains_key(id),
    ensures
        m.insert(id, e).contains_key(id),
        m.insert(id, e)[id] == e,
        m.insert(id, e).len() == m.len() + 1,
        m.insert(id, e).remove(id) == m,
{
    assert(m.insert(id, e).remove(id) =~= m);
}

/// Two handles spawned one after the other differ.
pub proof fn lemma_spawned_handles_distinct(first: Ent, second: Ent, before: u64, between: u64)
    requires
        first.0 == before,
        between == before + 1,
        second.0 == between,
    ensures
        first != second,
        first.0 < second.0,
{
}

/// A table of components of type `E`, at most one per entity.
#[derive(Clone)]
pub struct Components<E> {
    values: BTreeMap<u64, E>,
}

impl<E> View for Components<E> {
    type V = Map<u64, E>;

    closed spec fn view(&self) -> Map<u64, E> {
        self.values@
    }
}

impl<E> Default for Components<E> {
    fn default() -> (c: Self)
        ensures
            c@ == Map::<u64, E>::empty(),
            c@.dom().finite(),
    {
        Components { values: BTreeMap::new() }
    }
}

impl<E> Components<E> {
    /// Adds the component of a new entity.
    pub fn spawn(&mut self, id: Ent, e: E)
        requires
            !old(self)@.contains_key(id.0),
        ensures
            final(self)@ == old(self)@.insert(id.0, e),
            final(self)@.dom().finite(),
            final(self)@.len() == old(self)@.len() + 1,
    {
        self.values.insert(id.0, e);
    }

    /// Replaces the component of an entity that has one.
    pub fn update(&mut self, id: Ent, e: E)
        requires
            old(self)@.contains_key(id.0),
        ensures
            final(self)@ == old(self)@.insert(id.0, e),
            final(self)@.dom().finite(),
            final(self)@.len() == old(self)@.len(),
    {
        self.values.insert(id.0, e);
    }

    /// Removes and returns the component of an entity; fails when the
    /// entity has none.
    pub fn despawn(&mut self, id: Ent) -> (r: Result<E, BaryError>)
        ensures
            final(self)@ == old(self)@.remove(id.0),
            final(self)@.dom().finite(),
            old(self)@.contains_key(id.0) ==> final(self)@.len() == old(self)@.len() - 1,
            !old(self)@.contains_key(id.0) ==> final(self)@.len() == old(self)@.len(),
            old(self)@.contains_key(id.0) ==> r == Ok::<E, BaryError>(old(self)@[id.0]),
            !old(self)@.contains_key(id.0) ==> r == Err::<E, BaryError>(BaryError::EntityNotFound(id)),
    {
        match self.values.remove(&id.0) {
            Some(e) => Ok(e),
            None => Err(BaryError::EntityNotFound(id)),
        }
    }

    /// The number of entities with a component.
    pub fn len(&self) -> (n: usize)
        ensures
            n == self@.len(),
            self@.dom().finite(),
    {
        self.values.len()
    }

    /// A table holds finitely many components.
    pub proof fn lemma_table_is_finite(&self)
        ensures
            self@.dom().finite(),
    {
    }

    /// Whether the entity has a component.
    pub fn has_entity(&self, id: Ent) -> (b: bool)
        ensures
            b == self@.contains_key(id.0),
    {
        self.values.contains_key(&id.0)
    }

    /// Removes every component.
    pub fn clear(&mut self)
        ensures
            final(self)@ == Map::<u64, E>::empty(),
    {
        self.values.clear();
    }

    /// The component of an entity, if it has one.
    pub fn get(&self, id: Ent) -> (r: Option<&E>)
        ensures
            match r {
                Some(e) => self@.contains_key(id.0) && *e == self@[id.0],
                None => !self@.contains_key(id.0),
            },
    {
        self.values.get(&id.0)
    }

    /// The component of an entity that has one.
    pub fn require(&self, id: Ent) -> (e: &E)
        requires
            self@.contains_key(id.0),
        ensures
            *e == self@[id.0],
    {
        self.values.get(&id.0).unwrap()
    }

    /// The component of an entity that has one.
    pub fn require_mut(&mut self, id: Ent) -> (e: &E)
        requires
            old(self)@.contains_key(id.0),
        ensures
            *e == old(self)@[id.0],
            final(self)@ == old(self)@,
    {
        self.values.get(&id.0).unwrap()
    }

    /// The component of an entity; fails when the entity has none.
    pub fn try_get(&self, id: Ent) -> (r: Result<&E, BaryError>)
        ensures
            self@.contains_key(id.0) ==> (r matches Ok(e) && *e == self@[id.0]),
            !self@.contains_key(id.0) ==> r == Err::<&E, BaryError>(BaryError::EntityNotFound(id)),
    {
        match self.values.get(&id.0) {
            Some(e) => Ok(e),
            None => Err(BaryError::EntityNotFound(id)),
        }
    }

    /// Every entity with its component, by increasing entity handle.
    pub fn iter(&self) -> (r: Vec<(Ent, &E)>)
        ensures
            r@.len() == self@.len(),
            forall|i: int| 0 <= i < r@.len() ==> self@.contains_key(#[trigger] r@[i].0.0) && *r@[i].1 == self@[r@[i].0.0],
            forall|i: int, j: int| 0 <= i < j < r@.len() ==> r@[i].0.0 < r@[j].0.0,
    {
        broadcast use vstd::laws_cmp::group_laws_cmp;
        let mut r: Vec<(Ent, &E)> = Vec::new();
        let ghost m = self@;
        let ghost sq = vstd::std_specs::btree::spec_btree_map_iter(&self.values).remaining();
        let ghost ks = sq.map_values(|kv: (&u64, &E)| *kv.0);
        for kv in it: self.values.iter()
            invariant
                m == self@,
                it.seq() == sq,
                ks == sq.map_values(|kv: (&u64, &E)| *kv.0),
                vstd::std_specs::btree::increasing_seq(ks),
                r@.len() == it.index(),
                forall|i: int| 0 <= i < r@.len() ==> #[trigger] r@[i] == (Ent(*it.seq()[i].0), it.seq()[i].1),
        {
            r.push((Ent(*kv.0), kv.1));
        }
        proof {
            assert forall|i: int, j: int| 0 <= i < j < r@.len() implies r@[i].0.0 < r@[j].0.0 by {
                assert(ks[i] == r@[i].0.0);
                assert(ks[j] == r@[j].0.0);
                assert(obeys_cmp::<u64>());
                assert(ks[i].cmp_spec(&ks[j]) is Less);
            }
        }
        r
    }

    /// Every component, by increasing entity handle.
    pub fn values(&self) -> (r: Vec<&E>)
        ensures
            r@.len() == self@.len(),
            exists|ks: Seq<u64>| {
                &&& ks.len() == r@.len()
                &&& forall|i: int, j: int| 0 <= i < j < ks.len() ==> ks[i] < ks[j]
                &&& forall|i: int| 0 <= i < ks.len() ==> self@.contains_key(#[trigger] ks[i]) && *r@[i] == self@[ks[i]]
            },
    {
        let entries = self.iter();
        let mut r: Vec<&E> = Vec::new();
        let mut i: usize = 0;
        while i < entries.len()
            invariant
                i <= entries@.len(),
                r@.len() == i,
                forall|k: int| 0 <= k < i ==> #[trigger] r@[k] == entries@[k].1,
            decreases entries.len() - i,
        {
            r.push(entries[i].1);
            i = i + 1;
        }
        let ghost ks = entries@.map_values(|e: (Ent, &E)| e.0.0);
        assert(forall|k: int| 0 <= k < ks.len() ==> #[trigger] ks[k] == entries@[k].0.0);
        assert(ks.len() == r@.len());
        assert forall|a: int, b: int| 0 <= a < b < ks.len() implies ks[a] < ks[b] by {
            assert(entries@[a].0.0 < entries@[b].0.0);
        }
        assert forall|a: int| 0 <= a < ks.len() implies self@.contains_key(#[trigger] ks[a]) && *r@[a] == self@[ks[a]] by {
            assert(self@.contains_key(entries@[a].0.0));
        }
        r
    }

    /// Every entity with its component for modification in place, by
    /// increasing entity handle; whatever is written through a reference
    /// becomes that entity's component.
    pub fn iter_mut(&mut self) -> (r: Vec<(Ent, &mut E)>)
        ensures
            r@.len() == old(self)@.len(),
            r@.map_values(|e: (Ent, &mut E)| e.0.0).to_set() == old(self)@.dom(),
            forall|i: int, j: int| 0 <= i < j < r@.len() ==> r@[i].0.0 < r@[j].0.0,
            forall|i: int| 0 <= i < r@.len() ==> old(self)@.contains_key(#[trigger] r@[i].0.0) && *r@[i].1 == old(self)@[r@[i].0.0],
            final(self)@.dom() == old(self)@.dom(),
            forall|i: int| 0 <= i < r@.len() ==> final(self)@[#[trigger] r@[i].0.0] == *final(r@[i].1),
    {
        btree_iter_mut(&mut self.values)
    }

    /// Every component for modification in place, by increasing entity
    /// handle; whatever is written through a reference becomes that
    /// entity's component.
    pub fn values_mut(&mut self) -> (r: Vec<&mut E>)
        ensures
            r@.len() == old(self)@.len(),
            final(self)@.dom() == old(self)@.dom(),
            exists|ks: Seq<u64>| {
                &&& ks.len() == r@.len()
                &&& ks.to_set() == old(self)@.dom()
                &&& forall|i: int, j: int| 0 <= i < j < ks.len() ==> ks[i] < ks[j]
                &&& forall|i: int| 0 <= i < ks.len() ==> {
                    &&& *r@[i] == old(self)@[#[trigger] ks[i]]
                    &&& final(self)@[ks[i]] == *final(r@[i])
                }
            },
    {
        let mut entries = btree_iter_mut(&mut self.values);
        let ghost es = entries@;
        let ghost ks = es.map_values(|e: (Ent, &mut E)| e.0.0);
        let mut r: Vec<&mut E> = Vec::new();
        let mut n: usize = 0;
        assert(es.len() == entries.len());
        while entries.len() > 0
            invariant
                es.len() <= usize::MAX,
                n + entries@.len() == es.len(),
                r@.len() == n,
                forall|k: int| 0 <= k < n ==> *#[trigger] r@[k] == *es[k].1 && *final(r@[k]) == *final(es[k].1),
                forall|k: int| 0 <= k < entries@.len() ==> #[trigger] entries@[k] == es[n + k],
            decreases entries@.len(),
        {
            let (_, v) = entries.remove(0);
            r.push(v);
            n = n + 1;
        }
        assert forall|i: int| 0 <= i < ks.len() implies #[trigger] ks[i] == es[i].0.0 by {}
        r
    }

    /// The component of an entity, for modification in place; fails when
    /// the entity has none.
    pub fn try_get_mut(&mut self, id: Ent) -> (r: Result<&mut E, BaryError>)
        ensures
            match r {
                Ok(e) => {
                    &&& old(self)@.contains_key(id.0)
                    &&& *e == old(self)@[id.0]
                    &&& final(self)@ == old(self)@.insert(id.0, *final(e))
                },
                Err(err) => {
                    &&& !old(self)@.contains_key(id.0)
                    &&& err == BaryError::EntityNotFound(id)
                    &&& final(self)@ == old(self)@
                },
            },
    {
        match btree_get_mut(&mut self.values, id.0) {
            Some(e) => Ok(e),
            None => Err(BaryError::EntityNotFound(id)),
        }
    }
}

} // verus!
