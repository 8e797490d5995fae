//! Tables keyed by a 128-bit id: the running queries, the transfer jobs,
//! the open sessions and the switched-to databases, each per id.

use vstd::prelude::*;
use std::collections::HashMap;
use vstd::std_specs::iter::IteratorSpec;

verus! {

broadcast use vstd::std_specs::hash::group_hash_axioms;

/// Entries by id.
pub struct IdMap<T> {
    map: HashMap<u128, T>,
}

impl<T> View for IdMap<T> {
    type V = Map<u128, T>;

    closed spec fn view(&self) -> Map<u128, T> {
        self.map@
    }
}

impl<T> IdMap<T> {
    pub fn new() -> (m: Self)
        ensures
            m@ == Map::<u128, T>::empty(),
    {
        IdMap { map: HashMap::new() }
    }

    /// Registers `value` under `id`, replacing what was there.
    pub fn insert(&mut self, id: u128, value: T)
        ensures
            final(self)@ == old(self)@.insert(id, value),
    {
        self.map.insert(id, value);
    }

    pub fn contains(&self, id: u128) -> (b: bool)
        ensures
            b == self@.contains_key(id),
    {
        self.map.contains_key(&id)
    }

    pub fn get(&self, id: u128) -> (r: Option<&T>)
        ensures
            match r {
                Some(v) => self@.contains_key(id) && *v == self@[id],
                None => !self@.contains_key(id),
            },
    {
        self.map.get(&id)
    }

    /// The ids that have entries, each once.
    pub fn ids(&self) -> (r: Vec<u128>)
        ensures
            r@.to_set() == self@.dom(),
            r@.no_duplicates(),
    {
        let mut r: Vec<u128> = Vec::new();
        let ghost all = vstd::std_specs::hash::spec_keys_iter(&self.map).remaining().unref();
        for k in it: self.map.keys()
            invariant
                r@ == it.seq().unref().take(it.index() as int),
                it.seq().unref() == all,
                all.to_set() == self@.dom(),
                all.no_duplicates(),
            ensures
                r@ == all,
        {
            r.push(*k);
            assert(r@ =~= it.seq().unref().take(it.index() + 1));
        }
        r
    }

    /// Takes the entry of `id` out, if there is one.
    pub fn remove(&mut self, id: u128) -> (r: Option<T>)
        ensures
            final(self)@ == old(self)@.remove(id),
            match r {
                Some(v) => old(self)@.contains_key(id) && v == old(self)@[id],
                None => !old(self)@.contains_key(id),
            },
    {
        self.map.remove(&id)
    }
}

/// What a poll of an entry does to the table.
pub enum PollStep<T> {
    /// No entry has this id.
    Unknown,
    /// The entry is still running; it stays.
    Running,
    /// The entry has finished and is taken out to be answered.
    Taken(T),
}

/// One poll of `id`, where `finished` says whether its entry has finished:
/// an unknown id changes nothing; a running entry stays; a finished one is
/// removed and handed back.
pub fn poll_step<T>(table: &mut IdMap<T>, id: u128, finished: bool) -> (r: PollStep<T>)
    ensures
        !old(table)@.contains_key(id) ==> r is Unknown && final(table)@ == old(table)@,
        old(table)@.contains_key(id) && !finished ==> r is Running && final(table)@ == old(table)@,
        old(table)@.contains_key(id) && finished ==> r == PollStep::Taken(old(table)@[id])
            && final(table)@ == old(table)@.remove(id),
{
    if !table.contains(id) {
        return PollStep::Unknown;
    }
    if !finished {
        return PollStep::Running;
    }
    match table.remove(id) {
        Some(v) => PollStep::Taken(v),
        None => PollStep::Unknown,
    }
}

/// A registered entry is found until it is taken out: polling it right
/// after it was registered finds it, and a poll that finds it running
/// leaves it registered.
pub proof fn registered_until_taken<T>(m: Map<u128, T>, id: u128, value: T, other: u128)
    ensures
        m.insert(id, value).contains_key(id),
        m.insert(id, value)[id] == value,
        other != id ==> m.insert(id, value).remove(other).contains_key(id),
        !m.remove(id).contains_key(id),
{
}

} // verus!
