use vstd::prelude::*;

verus! {

/// Brings the pool to exactly `n` particles: the first `min(len, n)` stay as
/// they were, the rest are cut off or newly spawned at the end.
pub fn resize_pool<P, S: Fn() -> P>(pool: &mut Vec<P>, n: usize, spawn: &S)
    requires
        (*spawn).requires(()),
    ensures
        final(pool)@.len() == n,
        forall|i: int|
            0 <= i < n && i < old(pool)@.len() ==> #[trigger] final(pool)@[i] == old(pool)@[i],
        forall|i: int| old(pool)@.len() <= i < n ==> (*spawn).ensures((), #[trigger] final(pool)@[i]),
{
    if pool.len() < n {
        while pool.len() < n
            invariant
                (*spawn).requires(()),
                old(pool)@.len() <= pool@.len() <= n,
                forall|i: int| 0 <= i < old(pool)@.len() ==> #[trigger] pool@[i] == old(pool)@[i],
                forall|i: int| old(pool)@.len() <= i < pool@.len() ==> (*spawn).ensures((), #[trigger] pool@[i]),
            decreases n - pool@.len(),
        {
            let p = spawn();
            pool.push(p);
        }
    } else {
        pool.truncate(n);
    }
}

/// `after` is `before` if `stale` does not flag it, and a fresh particle
/// from `spawn` if it does.
pub open spec fn kept_or_respawned<P, K: Fn(&P) -> bool, S: Fn() -> P>(
    stale: K,
    spawn: S,
    before: P,
    after: P,
) -> bool {
    ||| stale.ensures((&before,), false) && after == before
    ||| stale.ensures((&before,), true) && spawn.ensures((), after)
}

/// Replaces by a fresh particle every particle that `stale` flags, leaving
/// the others where they are.
pub fn respawn_where<P, K: Fn(&P) -> bool, S: Fn() -> P>(pool: &mut Vec<P>, stale: &K, spawn: &S)
    requires
        forall|p: &P| (*stale).requires((p,)),
        (*spawn).requires(()),
    ensures
        final(pool)@.len() == old(pool)@.len(),
        forall|i: int|
            0 <= i < old(pool)@.len() ==> kept_or_respawned(
                *stale,
                *spawn,
                old(pool)@[i],
                #[trigger] final(pool)@[i],
            ),
{
    let n = pool.len();
    let mut i: usize = 0;
    while i < n
        invariant
            forall|p: &P| (*stale).requires((p,)),
            (*spawn).requires(()),
            n == old(pool)@.len(),
            pool@.len() == n,
            i <= n,
            forall|j: int| i <= j < n ==> #[trigger] pool@[j] == old(pool)@[j],
            forall|j: int|
                0 <= j < i ==> kept_or_respawned(*stale, *spawn, old(pool)@[j], #[trigger] pool@[j]),
        decreases n - i,
    {
        let ghost prev = pool@;
        let is_stale = stale(&pool[i]);
        assert(stale.ensures((&old(pool)@[i as int],), is_stale));
        if is_stale {
            let p = spawn();
            pool.set(i, p);
        }
        assert(kept_or_respawned(*stale, *spawn, old(pool)@[i as int], pool@[i as int]));
        i = i + 1;
    }
}

} // verus!
