use vstd::prelude::*;

use crate::lease::{after_extend_outcome, release_steps, released, Lease, LeasePhase, ReleaseStep};
use crate::store::ExtendOutcome;
use crate::store::{acquirable, after_acquire, after_delete, after_extend, owned_by, Stamp};

verus! {

/// Mutual exclusion: once an acquire of `key` succeeds at `now` with lifetime
/// `ttl`, every other acquire of `key` before `now + ttl` fails and leaves the
/// store as it was.
pub proof fn acquire_excludes_others(
    m: Map<Seq<char>, Stamp>,
    key: Seq<char>,
    mine: u128,
    other: u128,
    now: u64,
    later: u64,
    ttl: u64,
    other_ttl: u64,
)
    requires
        acquirable(m, key, now),
        now + ttl <= u64::MAX,
        now <= later < now + ttl,
    ensures
        !acquirable(after_acquire(m, key, mine, now, ttl), key, later),
        after_acquire(after_acquire(m, key, mine, now, ttl), key, other, later, other_ttl)
            == after_acquire(m, key, mine, now, ttl),
        owned_by(after_acquire(m, key, mine, now, ttl), key, mine),
{
}

/// Mutual exclusion across extends: a successful extend at `now` with
/// lifetime `ttl` keeps every other acquire of `key` out until `now + ttl`.
pub proof fn extend_excludes_others(
    m: Map<Seq<char>, Stamp>,
    key: Seq<char>,
    expected: u128,
    version: u128,
    now: u64,
    later: u64,
    ttl: u64,
)
    requires
        owned_by(m, key, expected),
        now + ttl <= u64::MAX,
        now <= later < now + ttl,
    ensures
        !acquirable(after_extend(m, key, expected, version, now, ttl), key, later),
        owned_by(after_extend(m, key, expected, version, now, ttl), key, version),
{
}

/// Mutual exclusion after a reclaim: once another participant acquires
/// `key` with a new version, the former holder's extends and deletes, bound
/// to its old version, fail and change nothing.
pub proof fn reclaim_defeats_former_holder(
    m: Map<Seq<char>, Stamp>,
    key: Seq<char>,
    former: u128,
    newer: u128,
    now: u64,
    ttl: u64,
    version: u128,
    later: u64,
    later_ttl: u64,
)
    requires
        acquirable(m, key, now),
        former != newer,
        now + ttl <= u64::MAX,
    ensures
        !owned_by(after_acquire(m, key, newer, now, ttl), key, former),
        after_extend(after_acquire(m, key, newer, now, ttl), key, former, version, later, later_ttl)
            == after_acquire(m, key, newer, now, ttl),
        after_delete(after_acquire(m, key, newer, now, ttl), key, former) == after_acquire(
            m,
            key,
            newer,
            now,
            ttl,
        ),
{
}

/// Reclaimability: a record whose expiry has passed, left by a holder that
/// neither extended nor released, does not stop an acquire, and neither does
/// its absence once the expiry sweep has removed it. The acquirer then owns
/// the key.
pub proof fn expired_lease_is_reclaimable(
    m: Map<Seq<char>, Stamp>,
    key: Seq<char>,
    version: u128,
    now: u64,
    ttl: u64,
)
    requires
        m.contains_key(key),
        m[key].0 <= now,
        now + ttl <= u64::MAX,
    ensures
        acquirable(m, key, now),
        acquirable(m.remove(key), key, now),
        owned_by(after_acquire(m, key, version, now, ttl), key, version),
        after_acquire(m, key, version, now, ttl)[key] == ((now + ttl) as u64, version),
{
}

/// Version chain: the versions a live handle holds change only by a
/// successful extend, which appends the new version, distinct from the one
/// before it; any other outcome leaves the chain as it was.
pub proof fn versions_change_only_by_extend(l: Lease, outcome: ExtendOutcome, version: u128)
    requires
        l.wf(),
        l.phase == LeasePhase::Acquired,
        version != l.version,
    ensures
        after_extend_outcome(l, outcome, version).wf(),
        outcome == ExtendOutcome::Extended ==> after_extend_outcome(l, outcome, version).versions@
            == l.versions@.push(version) && after_extend_outcome(l, outcome, version).version
            == version && version != l.versions@.last(),
        outcome != ExtendOutcome::Extended ==> after_extend_outcome(l, outcome, version).versions@
            == l.versions@ && after_extend_outcome(l, outcome, version).phase == LeasePhase::Dead,
{
    let n = after_extend_outcome(l, outcome, version);
    if outcome == ExtendOutcome::Extended {
        assert forall|i: int| 0 < i < n.versions@.len() implies #[trigger] n.versions@[i]
            != n.versions@[i - 1] by {
            if i < l.versions@.len() {
                assert(n.versions@[i] == l.versions@[i]);
            }
        }
    }
}

/// Release idempotence: releasing a handle a second time, as a drop after an
/// explicit release does, leaves it as the first release left it and asks
/// for no further step.
pub proof fn release_is_idempotent(l: Lease)
    requires
        l.wf(),
    ensures
        released(l).is_dropped,
        released(released(l)) == released(l),
        !released(l).local_guard,
{
}

/// The local token goes back strictly before the store delete: when a
/// handle owns the token, its release gives it back in the first step and
/// deletes in the last, and no other step lies between.
pub proof fn local_token_precedes_delete(l: Lease)
    requires
        l.local_guard,
    ensures
        release_steps(l).len() == 2,
        release_steps(l)[0] == ReleaseStep::DropLocalToken,
        release_steps(l)[1] == (ReleaseStep::DeleteIfMine { expected: l.version }),
{
}

} // verus!
