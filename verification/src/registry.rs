use std::collections::HashMap;
use std::hash::Hash;
use vstd::prelude::*;
use vstd::std_specs::hash::obeys_key_model;
use vstd::std_specs::iter::IteratorSpec;

verus! {

broadcast use vstd::std_specs::hash::group_hash_axioms;

/// Where a key leads in a routing table: the listener registered under it,
/// or nothing.
pub open spec fn route<H, L>(table: Map<H, L>, key: H) -> Option<L> {
    if table.contains_key(key) {
        Some(table[key])
    } else {
        None
    }
}

/// The table after registering `listener` under `key`.
pub open spec fn registered<H, L>(table: Map<H, L>, key: H, listener: L) -> Map<H, L> {
    table.insert(key, listener)
}

/// The table after unregistering `key`.
pub open spec fn unregistered<H, L>(table: Map<H, L>, key: H) -> Map<H, L> {
    table.remove(key)
}

/// The table after a direct message to `key` was or was not taken by its
/// listener: a listener that could not take it is dropped.
pub open spec fn after_delivery<H, L>(table: Map<H, L>, key: H, delivered: bool) -> Map<H, L> {
    if delivered {
        table
    } else {
        table.remove(key)
    }
}

/// The keys whose delivery failed in a list of delivery outcomes.
pub open spec fn undelivered<H>(outcomes: Seq<(H, bool)>) -> Set<H> {
    Set::new(|k: H| exists|i: int| 0 <= i < outcomes.len() && outcomes[i].0 == k && !outcomes[i].1)
}

/// The table after a broadcast with the given delivery outcomes: every
/// listener that could not take it is dropped.
pub open spec fn after_broadcast<H, L>(table: Map<H, L>, outcomes: Seq<(H, bool)>) -> Map<H, L> {
    table.remove_keys(undelivered(outcomes))
}

/// The routing table of the bus: each registered key and the listener that
/// receives what is addressed to it.
///
/// `L` is whatever the bus uses to reach a listener (in practice the sending
/// half of the listener's channel); the table never looks inside it.
#[derive(Debug)]
pub struct Registry<H, L> {
    listeners: HashMap<H, L>,
}

impl<H, L> Registry<H, L> {
    /// The table as a map from key to listener.
    pub closed spec fn table(&self) -> Map<H, L> {
        self.listeners@
    }

    /// Well-formedness: the table only keeps its promises for key types whose
    /// `Hash` and `Eq` agree with each other and with equality of values.
    pub closed spec fn wf(&self) -> bool {
        obeys_key_model::<H>()
    }
}

impl<H, L> View for Registry<H, L> {
    type V = Map<H, L>;

    open spec fn view(&self) -> Map<H, L> {
        self.table()
    }
}

impl<H: Hash + Eq, L> Registry<H, L> {
    /// An empty table.
    pub fn new() -> (r: Self)
        requires
            obeys_key_model::<H>(),
        ensures
            r.wf(),
            r@ == Map::<H, L>::empty(),
    {
        Registry { listeners: HashMap::new() }
    }

    /// Registers `listener` under `key`; a listener that was registered
    /// under the same key before is replaced and handed back.
    pub fn register(&mut self, key: H, listener: L) -> (replaced: Option<L>)
        requires
            old(self).wf(),
        ensures
            final(self).wf(),
            final(self)@ == registered(old(self)@, key, listener),
            replaced == route(old(self)@, key),
            final(self)@.contains_key(key) && final(self)@[key] == listener,
            forall|k: H| k != key ==> (#[trigger] final(self)@.contains_key(k) <==> old(self)@.contains_key(k)),
            forall|k: H| k != key && old(self)@.contains_key(k) ==> #[trigger] final(self)@[k] == old(self)@[k],
            old(self)@.contains_key(key) ==> replaced == Some(old(self)@[key]),
            !old(self)@.contains_key(key) ==> replaced is None,
    {
        self.listeners.insert(key, listener)
    }

    /// Removes whatever is registered under `key` and hands it back; a key
    /// that is not registered leaves the table as it is.
    pub fn unregister(&mut self, key: &H) -> (removed: Option<L>)
        requires
            old(self).wf(),
        ensures
            final(self).wf(),
            final(self)@ == unregistered(old(self)@, *key),
            removed == route(old(self)@, *key),
            !final(self)@.contains_key(*key),
            forall|k: H| k != *key ==> (#[trigger] final(self)@.contains_key(k) <==> old(self)@.contains_key(k)),
            forall|k: H| k != *key && old(self)@.contains_key(k) ==> #[trigger] final(self)@[k] == old(self)@[k],
            old(self)@.contains_key(*key) ==> removed == Some(old(self)@[*key]),
            !old(self)@.contains_key(*key) ==> removed is None,
    {
        self.listeners.remove(key)
    }

    /// The listener that a message addressed to `key` goes to, if any.
    pub fn listener(&self, key: &H) -> (found: Option<&L>)
        requires
            self.wf(),
        ensures
            match found {
                Some(l) => route(self@, *key) == Some(*l),
                None => route(self@, *key) == None::<L>,
            },
            found is Some <==> self@.contains_key(*key),
            found is Some ==> *found->0 == self@[*key],
    {
        self.listeners.get(key)
    }

    /// Whether a listener is registered under `key`.
    pub fn contains(&self, key: &H) -> (b: bool)
        requires
            self.wf(),
        ensures
            b == self@.contains_key(*key),
    {
        self.listeners.contains_key(key)
    }

    /// The number of registered listeners.
    pub fn len(&self) -> (n: usize)
        requires
            self.wf(),
        ensures
            n == self@.len(),
    {
        self.listeners.len()
    }

    /// Every registered listener with its key, each exactly once: the
    /// recipients of a broadcast or of the shutdown notice. The order is the
    /// table's own and carries no meaning.
    pub fn targets(&self) -> (ts: Vec<(&H, &L)>)
        requires
            self.wf(),
        ensures
            ts.len() == self@.len(),
            forall|i: int| 0 <= i < ts.len() ==> route(self@, *ts[i].0) == Some(*ts[i].1),
            forall|i: int| 0 <= i < ts.len() ==> self@.contains_key(*ts[i].0) && self@[*ts[i].0] == *ts[i].1,
            forall|k: H| self@.contains_key(k) ==> exists|i: int| 0 <= i < ts.len() && *ts[i].0 == k,
            forall|i: int, j: int| 0 <= i < j < ts.len() ==> *ts[i].0 != *ts[j].0,
    {
        let mut ts: Vec<(&H, &L)> = Vec::new();
        for kv in it: self.listeners.iter()
            invariant
                ts@ == it.seq().take(it.index() as int),
        {
            ts.push(kv);
        }
        proof {
            let v = self.listeners.iter().remaining();
            assert(ts@ == v);
            assert forall|k: H| self@.contains_key(k) implies exists|i: int|
                0 <= i < ts.len() && *ts[i].0 == k by {
                assert(v.contains((&k, &self@[k])));
                let i = choose|i: int| 0 <= i < v.len() && v[i] == (&k, &self@[k]);
                assert(*ts[i].0 == k);
            }
            assert forall|i: int, j: int| 0 <= i < j < ts.len() implies *ts[i].0 != *ts[j].0 by {
                if *ts[i].0 == *ts[j].0 {
                    assert(self@.contains_key(*v[i].0) && self@[*v[i].0] == *v[i].1);
                    assert(self@.contains_key(*v[j].0) && self@[*v[j].0] == *v[j].1);
                    assert(v[i] == v[j]);
                }
            }
        }
        ts
    }

    /// Records the outcome of handing a direct message to the listener under
    /// `key`: a listener that could not take it has gone away and is dropped
    /// from the table; one that took it stays.
    pub fn settle_delivery(&mut self, key: &H, delivered: bool)
        requires
            old(self).wf(),
        ensures
            final(self).wf(),
            final(self)@ == after_delivery(old(self)@, *key, delivered),
            delivered ==> final(self)@ == old(self)@,
            !delivered ==> !final(self)@.contains_key(*key),
            forall|k: H| k != *key ==> (#[trigger] final(self)@.contains_key(k) <==> old(self)@.contains_key(k)),
            forall|k: H| #[trigger] final(self)@.contains_key(k) ==> final(self)@[k] == old(self)@[k],
    {
        if !delivered {
            self.listeners.remove(key);
        }
    }

    /// Records the outcomes of handing a broadcast to each listener: every
    /// key whose listener could not take it is dropped from the table, and
    /// nothing else changes.
    pub fn settle_broadcast(&mut self, outcomes: &Vec<(H, bool)>)
        requires
            old(self).wf(),
        ensures
            final(self).wf(),
            final(self)@ == after_broadcast(old(self)@, outcomes@),
            forall|k: H| #[trigger] final(self)@.contains_key(k) <==> (old(self)@.contains_key(k)
                && !(exists|i: int| 0 <= i < outcomes.len() && outcomes@[i].0 == k && !outcomes@[i].1)),
            forall|k: H| #[trigger] final(self)@.contains_key(k) ==> final(self)@[k] == old(self)@[k],
    {
        let ghost start = self@;
        let mut i: usize = 0;
        while i < outcomes.len()
            invariant
                self.wf(),
                i <= outcomes.len(),
                self@ == start.remove_keys(undelivered(outcomes@.take(i as int))),
            decreases outcomes.len() - i,
        {
            let ghost before = outcomes@.take(i as int);
            let ghost after = outcomes@.take(i + 1);
            if !outcomes[i].1 {
                self.listeners.remove(&outcomes[i].0);
            }
            proof {
                assert forall|k: H| undelivered(after).contains(k) <==> (undelivered(before).contains(k)
                    || (k == outcomes@[i as int].0 && !outcomes@[i as int].1)) by {
                    if undelivered(after).contains(k) {
                        let j = choose|j: int| 0 <= j < after.len() && after[j].0 == k && !after[j].1;
                        if j < i {
                            assert(before[j] == after[j]);
                        }
                    }
                    if undelivered(before).contains(k) {
                        let j = choose|j: int| 0 <= j < before.len() && before[j].0 == k && !before[j].1;
                        assert(after[j] == before[j]);
                    }
                    if k == outcomes@[i as int].0 && !outcomes@[i as int].1 {
                        assert(after[i as int] == outcomes@[i as int]);
                    }
                }
                assert(self@ =~= start.remove_keys(undelivered(after)));
            }
            i = i + 1;
        }
        assert(outcomes@.take(outcomes.len() as int) =~= outcomes@);
    }

    /// Empties the table: what shutting the bus down does to it once every
    /// listener has been told.
    pub fn clear(&mut self)
        requires
            old(self).wf(),
        ensures
            final(self).wf(),
            final(self)@ == Map::<H, L>::empty(),
    {
        self.listeners.clear();
    }
}

} // verus!
