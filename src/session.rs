use vstd::prelude::*;

use std::collections::HashMap;

verus! {

broadcast use vstd::std_specs::hash::group_hash_axioms;

/// The sessions after `key` is registered with `context`: a key registered
/// twice keeps the later context.
pub open spec fn registered<C>(sessions: Map<u64, C>, key: u64, context: C) -> Map<u64, C> {
    sessions.insert(key, context)
}

/// The sessions after `key` is evicted.
pub open spec fn evicted<C>(sessions: Map<u64, C>, key: u64) -> Map<u64, C> {
    sessions.remove(key)
}

/// Whether removing `key` from `sessions` finds a context.
pub open spec fn found<C>(sessions: Map<u64, C>, key: u64) -> bool {
    sessions.contains_key(key)
}

/// Maps the key of each live scripting session to its execution context.
pub struct SessionRegistry<C> {
    states: HashMap<u64, C>,
}

impl<C> View for SessionRegistry<C> {
    type V = Map<u64, C>;

    closed spec fn view(&self) -> Map<u64, C> {
        self.states@
    }
}

impl<C> SessionRegistry<C> {
    /// A registry with no session.
    pub fn new() -> (r: Self)
        ensures
            r@ == Map::<u64, C>::empty(),
    {
        SessionRegistry { states: HashMap::new() }
    }

    /// Registers the context built for `key`; a key already present gets the
    /// new context. When the context could not be built, the error is handed
    /// back and the registry is unchanged.
    pub fn create<E>(&mut self, key: u64, built: Result<C, E>) -> (r: Result<(), E>)
        ensures
            match built {
                Ok(c) => r is Ok && final(self)@ == registered(old(self)@, key, c),
                Err(e) => r == Err::<(), E>(e) && final(self)@ == old(self)@,
            },
    {
        match built {
            Ok(context) => {
                self.states.insert(key, context);
                Ok(())
            },
            Err(e) => Err(e),
        }
    }

    /// Evicts the session of `key` and hands back its context, or `None`
    /// when no session has that key.
    pub fn remove(&mut self, key: u64) -> (r: Option<C>)
        ensures
            final(self)@ == evicted(old(self)@, key),
            r is Some <==> found(old(self)@, key),
            r matches Some(c) ==> c == old(self)@[key],
    {
        self.states.remove(&key)
    }

    /// Whether a session with `key` is registered.
    pub fn contains(&self, key: u64) -> (r: bool)
        ensures
            r == self@.contains_key(key),
    {
        self.states.contains_key(&key)
    }

    /// The number of registered sessions.
    pub fn len(&self) -> (r: usize)
        ensures
            r == self@.len(),
    {
        self.states.len()
    }
}

/// A session that was just registered is found by its first removal and not
/// by a second one.
pub proof fn lemma_remove_after_create<C>(sessions: Map<u64, C>, key: u64, context: C)
    ensures
        found(registered(sessions, key, context), key),
        !found(evicted(registered(sessions, key, context), key), key),
{
}

/// Two sessions with distinct keys are both registered, and either one can
/// be removed without disturbing the other.
pub proof fn lemma_sessions_independent<C>(
    sessions: Map<u64, C>,
    k1: u64,
    c1: C,
    k2: u64,
    c2: C,
)
    requires
        k1 != k2,
    ensures
        found(registered(registered(sessions, k1, c1), k2, c2), k1),
        found(registered(registered(sessions, k1, c1), k2, c2), k2),
        found(evicted(registered(registered(sessions, k1, c1), k2, c2), k1), k2),
        found(evicted(registered(registered(sessions, k1, c1), k2, c2), k2), k1),
        evicted(registered(registered(sessions, k1, c1), k2, c2), k1)[k2] == c2,
        evicted(registered(registered(sessions, k1, c1), k2, c2), k2)[k1] == c1,
{
}

} // verus!
