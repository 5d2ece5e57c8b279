use vstd::prelude::*;
use std::collections::HashMap;

verus! {

broadcast use vstd::std_specs::hash::group_hash_axioms;

/// Guild id to per-guild entry, with point lookups only. Each entry is its
/// own unit (a session, or a guard around one): an operation on one guild
/// leaves every other guild's entry as it was.
pub struct SessionRegistry<S> {
    entries: HashMap<u64, S>,
}

impl<S> View for SessionRegistry<S> {
    type V = Map<u64, S>;

    closed spec fn view(&self) -> Map<u64, S> {
        self.entries@
    }
}

impl<S> SessionRegistry<S> {
    pub fn new() -> (r: SessionRegistry<S>)
        ensures
            r@ == Map::<u64, S>::empty(),
    {
        SessionRegistry { entries: HashMap::new() }
    }

    /// The entry of `guild`, if there is one.
    pub fn get_or_none(&self, guild: u64) -> (r: Option<&S>)
        ensures
            match r {
                Some(v) => self@.contains_key(guild) && self@[guild] == *v,
                None => !self@.contains_key(guild),
            },
    {
        self.entries.get(&guild)
    }

    pub fn contains(&self, guild: u64) -> (r: bool)
        ensures
            r == self@.contains_key(guild),
    {
        self.entries.contains_key(&guild)
    }

    /// Makes sure `guild` has an entry: `fresh` is stored only when it has
    /// none, so repeated calls converge on one entry. Returns whether `fresh`
    /// was stored.
    pub fn get_or_create(&mut self, guild: u64, fresh: S) -> (r: bool)
        ensures
            r == !old(self)@.contains_key(guild),
            r ==> final(self)@ == old(self)@.insert(guild, fresh),
            !r ==> final(self)@ == old(self)@,
    {
        if self.entries.contains_key(&guild) {
            false
        } else {
            self.entries.insert(guild, fresh);
            true
        }
    }

    /// Drops the entry of `guild`; true when there was one.
    pub fn remove(&mut self, guild: u64) -> (r: bool)
        ensures
            r == old(self)@.contains_key(guild),
            final(self)@ == old(self)@.remove(guild),
    {
        self.entries.remove(&guild).is_some()
    }

    pub fn len(&self) -> (r: usize)
        ensures
            r == self@.len(),
    {
        self.entries.len()
    }
}

/// What an operation does to one guild's entry leaves any other guild's
/// entry as it was: creating or removing the entry of `g1` does not touch
/// that of `g2`.
pub proof fn lemma_guilds_independent<S>(m: Map<u64, S>, g1: u64, g2: u64, fresh: S)
    requires
        g1 != g2,
    ensures
        m.insert(g1, fresh).contains_key(g2) == m.contains_key(g2),
        m.insert(g1, fresh)[g2] == m[g2],
        m.remove(g1).contains_key(g2) == m.contains_key(g2),
        m.remove(g1)[g2] == m[g2],
{
}

/// Removing a guild's entry reports success once; a second removal finds
/// nothing.
pub proof fn lemma_remove_once<S>(m: Map<u64, S>, g: u64)
    ensures
        !m.remove(g).contains_key(g),
        m.remove(g).remove(g) == m.remove(g),
{
    assert(m.remove(g).remove(g) =~= m.remove(g));
}


} // verus!
