//! The client registry: one client per chain, keyed by state machine.

use vstd::prelude::*;

use ismp::host::StateMachine;

use crate::error::BootstrapError;

verus! {

/// The map that a list of entries stands for: later entries win.
pub open spec fn keyed<C>(entries: Seq<(StateMachine, C)>) -> Map<StateMachine, C>
    decreases entries.len(),
{
    if entries.len() == 0 {
        Map::empty()
    } else {
        let last = entries.last();
        keyed(entries.drop_last()).insert(last.0, last.1)
    }
}

/// No key occurs twice in a list of entries.
pub open spec fn distinct_keys<C>(entries: Seq<(StateMachine, C)>) -> bool {
    forall|i: int, j: int|
        0 <= i < j < entries.len() ==> #[trigger] entries[i].0 != #[trigger] entries[j].0
}

/// The keys of a list of entries, as a set.
pub open spec fn key_set<C>(entries: Seq<(StateMachine, C)>) -> Set<StateMachine> {
    Set::new(|k: StateMachine| exists|i: int| 0 <= i < entries.len() && #[trigger] entries[i].0 == k)
}

/// The registry that configured clients make when each is inserted in turn,
/// or `None` when one of them could not be constructed.
pub open spec fn built<C>(configured: Seq<(StateMachine, Result<C, String>)>) -> Option<Map<StateMachine, C>>
    decreases configured.len(),
{
    if configured.len() == 0 {
        Some(Map::empty())
    } else {
        let last = configured.last();
        match (built(configured.drop_last()), last.1) {
            (Some(m), Ok(c)) => Some(m.insert(last.0, c)),
            _ => None,
        }
    }
}

/// The first configured chain whose client could not be constructed.
pub open spec fn first_failure<C>(configured: Seq<(StateMachine, Result<C, String>)>, i: int) -> bool {
    &&& 0 <= i < configured.len()
    &&& configured[i].1 is Err
    &&& forall|j: int| 0 <= j < i ==> (#[trigger] configured[j]).1 is Ok
}

/// The keys of the map that a list of entries stands for are its keys.
pub proof fn lemma_keyed_dom<C>(entries: Seq<(StateMachine, C)>)
    ensures
        keyed(entries).dom() == key_set(entries),
    decreases entries.len(),
{
    if entries.len() > 0 {
        let init = entries.drop_last();
        lemma_keyed_dom(init);
        assert forall|k: StateMachine| key_set(entries).contains(k) implies keyed(entries).dom().contains(k) by {
            let i = choose|i: int| 0 <= i < entries.len() && #[trigger] entries[i].0 == k;
            if i < entries.len() - 1 {
                assert(init[i].0 == k);
            }
        }
        assert forall|k: StateMachine| keyed(entries).dom().contains(k) implies key_set(entries).contains(k) by {
            if k != entries.last().0 {
                let i = choose|i: int| 0 <= i < init.len() && #[trigger] init[i].0 == k;
                assert(entries[i].0 == k);
            } else {
                assert(entries[entries.len() - 1].0 == k);
            }
        }
        assert(keyed(entries).dom() =~= key_set(entries));
    }
}

/// Replacing the client of an entry is inserting into the map, and keeps
/// the keys distinct.
pub proof fn lemma_keyed_update<C>(entries: Seq<(StateMachine, C)>, j: int, c: C)
    requires
        distinct_keys(entries),
        0 <= j < entries.len(),
    ensures
        keyed(entries.update(j, (entries[j].0, c))) == keyed(entries).insert(entries[j].0, c),
        distinct_keys(entries.update(j, (entries[j].0, c))),
    decreases entries.len(),
{
    let k = entries[j].0;
    let upd = entries.update(j, (k, c));
    let n = entries.len() - 1;
    assert(upd.drop_last() == if j == n { entries.drop_last() } else { entries.drop_last().update(j, (k, c)) });
    if j == n {
        assert(keyed(upd) =~= keyed(entries).insert(k, c));
    } else {
        lemma_keyed_update(entries.drop_last(), j, c);
        assert(entries[n].0 != k);
        assert(keyed(upd) =~= keyed(entries).insert(k, c));
    }
}

/// With distinct keys, each entry is what the map holds for its key.
pub proof fn lemma_keyed_at<C>(entries: Seq<(StateMachine, C)>, j: int)
    requires
        distinct_keys(entries),
        0 <= j < entries.len(),
    ensures
        keyed(entries).dom().contains(entries[j].0),
        keyed(entries)[entries[j].0] == entries[j].1,
    decreases entries.len(),
{
    if j < entries.len() - 1 {
        lemma_keyed_at(entries.drop_last(), j);
    }
}

/// The identifiers of the configured chains, as a set.
pub open spec fn configured_ids<C>(configured: Seq<(StateMachine, Result<C, String>)>) -> Set<StateMachine> {
    Set::new(|k: StateMachine| exists|i: int| 0 <= i < configured.len() && #[trigger] configured[i].0 == k)
}

/// Building succeeds exactly when every client was constructed, and the
/// registry then has exactly the configured identifiers as keys.
pub proof fn lemma_built_dom<C>(configured: Seq<(StateMachine, Result<C, String>)>)
    ensures
        built(configured) is Some <==> forall|i: int| 0 <= i < configured.len() ==> (#[trigger] configured[i]).1 is Ok,
        built(configured) matches Some(m) ==> m.dom() == configured_ids(configured),
    decreases configured.len(),
{
    if configured.len() > 0 {
        let init = configured.drop_last();
        let n = configured.len() - 1;
        lemma_built_dom(init);
        if built(configured) is Some {
            assert forall|i: int| 0 <= i < configured.len() implies (#[trigger] configured[i]).1 is Ok by {
                if i < n {
                    assert(init[i] == configured[i]);
                }
            }
            let m = built(configured)->Some_0;
            assert forall|k: StateMachine| configured_ids(configured).contains(k) implies m.dom().contains(k) by {
                let i = choose|i: int| 0 <= i < configured.len() && #[trigger] configured[i].0 == k;
                if i < n {
                    assert(init[i].0 == k);
                }
            }
            assert forall|k: StateMachine| m.dom().contains(k) implies configured_ids(configured).contains(k) by {
                if k != configured[n].0 {
                    let i = choose|i: int| 0 <= i < init.len() && #[trigger] init[i].0 == k;
                    assert(configured[i].0 == k);
                }
            }
            assert(m.dom() =~= configured_ids(configured));
        } else {
            if forall|i: int| 0 <= i < configured.len() ==> (#[trigger] configured[i]).1 is Ok {
                assert forall|i: int| 0 <= i < init.len() implies (#[trigger] init[i]).1 is Ok by {
                    assert(init[i] == configured[i]);
                }
                assert(configured[n].1 is Ok);
                assert(false);
            }
        }
    }
}

/// Clients keyed by the state machine that each serves.
pub struct ClientRegistry<C> {
    entries: Vec<(StateMachine, C)>,
}

impl<C> View for ClientRegistry<C> {
    type V = Map<StateMachine, C>;

    closed spec fn view(&self) -> Map<StateMachine, C> {
        keyed(self.entries@)
    }
}

impl<C> ClientRegistry<C> {
    pub closed spec fn wf(&self) -> bool {
        distinct_keys(self.entries@)
    }

    /// A registry with no clients.
    pub fn new() -> (r: Self)
        ensures
            r.wf(),
            r@ == Map::<StateMachine, C>::empty(),
    {
        ClientRegistry { entries: Vec::new() }
    }


    /// The registry of the configured chains: each chain's client, keyed by
    /// its identifier, where a later entry for one identifier replaces an
    /// earlier one. Where a client could not be constructed, the first such
    /// chain gives `ClientConstructionFailed`, and no registry is returned.
    pub fn build(configured: Vec<(StateMachine, Result<C, String>)>) -> (r: Result<Self, BootstrapError>)
        ensures
            r is Ok <==> forall|i: int| 0 <= i < configured@.len() ==> (#[trigger] configured@[i]).1 is Ok,
            r matches Ok(reg) ==> reg.wf() && built(configured@) == Some(reg@),
            r matches Ok(reg) ==> reg@.dom() == configured_ids(configured@),
            r matches Err(e) ==> exists|i: int| #[trigger] first_failure(configured@, i)
                && e == BootstrapError::ClientConstructionFailed(configured@[i].0, configured@[i].1->Err_0),
    {
        let ghost all = configured@;
        let mut rest = configured;
        let mut reg = ClientRegistry::new();
        let total: usize = rest.len();
        let mut n: usize = 0;
        proof {
            lemma_built_dom(all);
        }
        while rest.len() > 0
            invariant
                n <= all.len(),
                all.len() == total,
                all == configured@,
                rest@ == all.skip(n as int),
                reg.wf(),
                built(all.take(n as int)) == Some(reg@),
                forall|j: int| 0 <= j < n ==> (#[trigger] all[j]).1 is Ok,
            decreases rest@.len(),
        {
            let (id, made) = rest.remove(0);
            proof {
                assert(all[n as int] == (id, made));
                assert(all.take(n as int + 1).drop_last() == all.take(n as int));
            }
            match made {
                Ok(client) => {
                    reg.insert(id, client);
                },
                Err(cause) => {
                    proof {
                        assert(all[n as int].1 == Err::<C, String>(cause));
                        assert(first_failure(all, n as int));
                        assert(all[n as int].1->Err_0 == cause);
                        assert(!(all[n as int].1 is Ok));
                    }
                    return Err(BootstrapError::ClientConstructionFailed(id, cause));
                },
            }
            n = n + 1;
        }
        proof {
            assert(all.take(n as int) == all);
        }
        Ok(reg)
    }

    /// Where `id` stands among the entries, if it does.
    fn position(&self, id: &StateMachine) -> (r: Option<usize>)
        requires
            self.wf(),
        ensures
            r is None ==> !self@.dom().contains(*id),
            r matches Some(j) ==> j < self.entries@.len() && self.entries@[j as int].0 == *id,
    {
        let mut j: usize = 0;
        while j < self.entries.len()
            invariant
                j <= self.entries@.len(),
                forall|i: int| 0 <= i < j ==> (#[trigger] self.entries@[i]).0 != *id,
            decreases self.entries@.len() - j,
        {
            if self.entries[j].0 == *id {
                return Some(j);
            }
            j = j + 1;
        }
        proof {
            lemma_keyed_dom(self.entries@);
        }
        None
    }

    /// Registers `client` for `id`, replacing the client that `id` had.
    pub fn insert(&mut self, id: StateMachine, client: C)
        requires
            old(self).wf(),
        ensures
            final(self).wf(),
            final(self)@ == old(self)@.insert(id, client),
    {
        match self.position(&id) {
            Some(j) => {
                proof {
                    lemma_keyed_update(self.entries@, j as int, client);
                }
                self.entries.set(j, (id, client));
            },
            None => {
                proof {
                    lemma_keyed_dom(self.entries@);
                    assert forall|i: int| 0 <= i < self.entries@.len() implies (#[trigger] self.entries@[i]).0 != id by {
                        assert(key_set(self.entries@).contains(self.entries@[i].0));
                    }
                    assert(self.entries@.push((id, client)).drop_last() == self.entries@);
                }
                self.entries.push((id, client));
            },
        }
    }

    /// The client registered for `id`, if any.
    pub fn get(&self, id: &StateMachine) -> (r: Option<&C>)
        requires
            self.wf(),
        ensures
            r is Some <==> self@.dom().contains(*id),
            r matches Some(c) ==> *c == self@[*id],
    {
        match self.position(id) {
            Some(j) => {
                proof {
                    lemma_keyed_at(self.entries@, j as int);
                }
                Some(&self.entries[j].1)
            },
            None => None,
        }
    }

    /// The client registered for `id`; `ClientNotFound(text)` where there is
    /// none, `text` being the identifier as the caller wrote it.
    pub fn locate(&self, id: &StateMachine, text: &str) -> (r: Result<&C, BootstrapError>)
        requires
            self.wf(),
        ensures
            r is Ok <==> self@.dom().contains(*id),
            r matches Ok(c) ==> *c == self@[*id],
            r matches Err(BootstrapError::ClientNotFound(t)) && t@ == text@ || r is Ok,
    {
        match self.get(id) {
            Some(c) => Ok(c),
            None => Err(BootstrapError::ClientNotFound(String::from_str(text))),
        }
    }
}

} // verus!
