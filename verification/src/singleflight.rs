use vstd::prelude::*;

verus! {

broadcast use vstd::std_specs::hash::group_hash_axioms;

/// The keyed "compute once, share the result" memo. Callers follow the
/// double-checked protocol with one lock over the whole cache: look up
/// (`get`); on a miss take the lock, look up again, and only on a second
/// miss run the producer; then publish the producer's verdict
/// (`complete`). Whoever publishes first wins; every caller that arrives
/// later — including one whose own production was already in flight —
/// observes the published value. A failed production publishes nothing.
pub struct SingleFlight<V> {
    pub map: std::collections::HashMap<u64, V>,
}

/// The cache contents after one `complete` step: a hit changes nothing, a
/// successful first production inserts its value, a failure inserts
/// nothing.
pub open spec fn sf_after<V, E>(
    m: Map<u64, V>,
    key: u64,
    produced: Result<V, E>,
) -> Map<u64, V> {
    if m.contains_key(key) {
        m
    } else {
        match produced {
            Result::Ok(v) => m.insert(key, v),
            Result::Err(_) => m,
        }
    }
}

/// What one `complete` step returns: the already-published value on a hit,
/// otherwise the production's own verdict.
pub open spec fn sf_result<V, E>(m: Map<u64, V>, key: u64, produced: Result<V, E>) -> Result<
    V,
    E,
> {
    if m.contains_key(key) {
        Result::Ok(m[key])
    } else {
        produced
    }
}

impl<V: Copy> SingleFlight<V> {
    pub fn new() -> (r: SingleFlight<V>)
        ensures
            r.map@ == Map::<u64, V>::empty(),
    {
        SingleFlight { map: std::collections::HashMap::new() }
    }

    /// The lookup, used both for the lock-free fast path and for the
    /// re-check under the lock.
    pub fn get(&self, key: u64) -> (r: Option<V>)
        ensures
            match r {
                Some(v) => self.map@.contains_key(key) && v == self.map@[key],
                None => !self.map@.contains_key(key),
            },
    {
        match self.map.get(&key) {
            Some(v) => Some(*v),
            None => None,
        }
    }

    /// Publish the result of one production run, under the cache's lock.
    /// If another caller published first, its value stands and the
    /// argument is discarded; otherwise a success is inserted and a
    /// failure leaves the key absent for a fresh attempt.
    pub fn complete<E>(&mut self, key: u64, produced: Result<V, E>) -> (r: Result<V, E>)
        ensures
            final(self).map@ == sf_after(old(self).map@, key, produced),
            r == sf_result(old(self).map@, key, produced),
    {
        let prior = self.get(key);
        match prior {
            Some(v) => {
                proof {
                    assert(final(self).map@ =~= sf_after(old(self).map@, key, produced));
                }
                Ok(v)
            },
            None => match produced {
                Ok(v) => {
                    self.map.insert(key, v);
                    Ok(v)
                },
                Err(e) => Err(e),
            },
        }
    }
}

/// Single-flight correctness. Callers publishing for one unset key are
/// serialized by the cache's lock; the first successful production
/// publishes its value, and every `complete` that comes after — whatever
/// its own production returned, including one that was already in flight
/// when the winner finished — observes exactly that value, with the cache
/// unchanged. Under the protocol's rule that a producer runs only after a
/// miss under the lock, the producer that populates a key therefore ran
/// exactly once.
pub proof fn lemma_single_flight<V, E>(
    m: Map<u64, V>,
    key: u64,
    v1: V,
    produced2: Result<V, E>,
)
    requires
        !m.contains_key(key),
    ensures
        sf_result::<V, E>(m, key, Result::Ok(v1)) == Result::<V, E>::Ok(v1),
        sf_after::<V, E>(m, key, Result::Ok(v1)) == m.insert(key, v1),
        sf_result(sf_after::<V, E>(m, key, Result::Ok(v1)), key, produced2) == Result::<
            V,
            E,
        >::Ok(v1),
        sf_after(sf_after::<V, E>(m, key, Result::Ok(v1)), key, produced2) == sf_after::<V, E>(
            m,
            key,
            Result::Ok(v1),
        ),
{
}

/// Failed production is retryable: a failure publishes nothing — the key
/// stays absent and the cache is exactly what it was — so a subsequent
/// call finds the key unset, runs its producer afresh, and behaves as the
/// first attempt would have.
pub proof fn lemma_failed_production_retryable<V, E>(
    m: Map<u64, V>,
    key: u64,
    e1: E,
    produced2: Result<V, E>,
)
    requires
        !m.contains_key(key),
    ensures
        sf_result::<V, E>(m, key, Result::Err(e1)) == Result::<V, E>::Err(e1),
        sf_after::<V, E>(m, key, Result::Err(e1)) == m,
        !sf_after::<V, E>(m, key, Result::Err(e1)).contains_key(key),
        sf_after(sf_after::<V, E>(m, key, Result::Err(e1)), key, produced2) == sf_after(
            m,
            key,
            produced2,
        ),
        sf_result(sf_after::<V, E>(m, key, Result::Err(e1)), key, produced2) == sf_result(
            m,
            key,
            produced2,
        ),
{
}

} // verus!
