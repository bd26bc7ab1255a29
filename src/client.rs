use vstd::prelude::*;

use crate::config::ClientBuilder;
use crate::lease::{distinct_version, next_token, random_token, random_uuid_format, release_steps, released, Lease, LeasePhase, ReleaseStep};
use crate::registry::LocalRegistry;
use crate::schema::{check_schema, schema_verdict, SchemaError, TableDescription};
use crate::store::{
    acquirable, after_acquire, after_delete, after_extend, AcquireOutcome, ExtendOutcome,
    MemoryStore,
};

verus! {

/// Errors of the acquire paths.
#[derive(PartialEq, Eq, Structural, Clone, Copy, Debug)]
pub enum LeaseError {
    /// The store could not be reached.
    StoreTransient,
    /// The deadline of a bounded acquire passed before the key was acquired.
    TimedOut,
}

/// A conditional acquire to send to the store, after the local token was
/// taken: write `version` for `key` with an expiry `ttl_seconds` from now.
pub struct AcquireAttempt {
    pub key: String,
    pub version: u128,
    pub ttl_seconds: u64,
}

/// What a waiting acquire does after an attempt that did not acquire.
#[derive(PartialEq, Eq, Structural, Clone, Copy, Debug)]
pub enum WaitDecision {
    /// Sleep this long, then try again.
    Sleep { millis: u64 },
    /// Give up: the deadline has passed.
    TimedOut,
}

/// The entry point of the library: a checked configuration.
pub struct Client {
    pub config: ClientBuilder,
}

/// The sleep after an unsuccessful attempt at `now_ms`: one poll period,
/// cut short at the deadline, and a time-out once the deadline is reached.
pub open spec fn wait_after(poll: u64, now_ms: u64, deadline_ms: Option<u64>) -> WaitDecision {
    match deadline_ms {
        None => WaitDecision::Sleep { millis: poll },
        Some(d) => if now_ms >= d {
            WaitDecision::TimedOut
        } else if d - now_ms < poll {
            WaitDecision::Sleep { millis: (d - now_ms) as u64 }
        } else {
            WaitDecision::Sleep { millis: poll }
        },
    }
}

impl ClientBuilder {
    /// Checks the table the store reports and, if it can hold leases, builds
    /// a client with this configuration.
    pub fn build_and_check(self, table: &TableDescription) -> (r: Result<Client, SchemaError>)
        requires
            self.wf(),
        ensures
            match r {
                Ok(c) => schema_verdict(*table) is Ok && c.config == self && c.wf(),
                Err(e) => schema_verdict(*table) == Err::<(), SchemaError>(e),
            },
    {
        match check_schema(table) {
            Ok(()) => Ok(Client { config: self }),
            Err(e) => Err(e),
        }
    }
}

impl Client {
    pub open spec fn wf(&self) -> bool {
        self.config.wf()
    }

    /// Starts an acquire of `key`: takes its local token and draws a fresh
    /// version, different from `previous`, the version the store is known to
    /// hold for the key, if any. Returns nothing, without contacting the
    /// store, if a thread of this process holds the token.
    pub fn begin_try_acquire(
        &self,
        registry: &mut LocalRegistry,
        key: &String,
        previous: Option<u128>,
    ) -> (r: Option<AcquireAttempt>)
        requires
            old(registry).wf(),
        ensures
            final(registry).wf(),
            final(registry)@ == old(registry)@.insert(key@),
            r is Some <==> !old(registry)@.contains(key@),
            r matches Some(a) ==> a.key@ == key@ && a.ttl_seconds == self.config.lease_ttl_seconds,
            r matches Some(a) ==> match previous {
                Some(p) => a.version != p && (random_uuid_format(a.version) || a.version
                    == next_token(p)),
                None => random_uuid_format(a.version),
            },
    {
        if registry.try_lock(key) {
            let drawn = random_token();
            let version = match previous {
                Some(p) => distinct_version(drawn, p),
                None => drawn,
            };
            Some(
                AcquireAttempt {
                    key: key.clone(),
                    version,
                    ttl_seconds: self.config.lease_ttl_seconds,
                },
            )
        } else {
            None
        }
    }

    /// Ends an acquire with the store's outcome. On success the lease is
    /// returned and owns the local token; otherwise the token is given back,
    /// and a store failure is an error.
    pub fn finish_try_acquire(
        &self,
        registry: &mut LocalRegistry,
        attempt: AcquireAttempt,
        outcome: AcquireOutcome,
    ) -> (r: Result<Option<Lease>, LeaseError>)
        requires
            old(registry).wf(),
        ensures
            final(registry).wf(),
            outcome == AcquireOutcome::Acquired ==> final(registry)@ == old(registry)@,
            outcome != AcquireOutcome::Acquired ==> final(registry)@ == old(registry)@.remove(
                attempt.key@,
            ),
            match outcome {
                AcquireOutcome::Acquired => r matches Ok(Some(l)) && l.wf() && l.key@
                    == attempt.key@ && l.version == attempt.version && l.versions@ == seq![
                    attempt.version,
                ] && l.local_guard && !l.is_dropped && l.phase == LeasePhase::Acquired,
                AcquireOutcome::Held => r matches Ok(None),
                AcquireOutcome::TransientFailure => r == Err::<Option<Lease>, LeaseError>(
                    LeaseError::StoreTransient,
                ),
            },
    {
        match outcome {
            AcquireOutcome::Acquired => {
                Ok(Some(Lease::new(attempt.key, attempt.version).with_local_guard()))
            },
            AcquireOutcome::Held => {
                registry.unlock(&attempt.key);
                Ok(None)
            },
            AcquireOutcome::TransientFailure => {
                registry.unlock(&attempt.key);
                Err(LeaseError::StoreTransient)
            },
        }
    }

    /// Tries once to acquire `key` at `now` (seconds since the epoch) against
    /// a store held in memory. Succeeds exactly when no thread of this process
    /// holds the key's local token and the store holds no unexpired lease for
    /// it. The version written differs from the one of any record it replaces.
    pub fn try_acquire(
        &self,
        registry: &mut LocalRegistry,
        store: &mut MemoryStore,
        key: &String,
        now: u64,
    ) -> (r: Option<Lease>)
        requires
            self.wf(),
            old(registry).wf(),
            old(store).wf(),
            now + self.config.lease_ttl_seconds <= u64::MAX,
        ensures
            final(registry).wf(),
            final(store).wf(),
            r is Some <==> (!old(registry)@.contains(key@) && acquirable(old(store)@, key@, now)),
            final(registry)@ == if r is Some {
                old(registry)@.insert(key@)
            } else {
                old(registry)@
            },
            old(registry)@.contains(key@) ==> final(store)@ == old(store)@,
            !old(registry)@.contains(key@) ==> exists|v: u128|
                final(store)@ == after_acquire(
                    old(store)@,
                    key@,
                    v,
                    now,
                    self.config.lease_ttl_seconds,
                ),
            r matches Some(l) ==> l.wf() && l.key@ == key@ && l.local_guard && l.phase
                == LeasePhase::Acquired && final(store)@ == after_acquire(
                old(store)@,
                key@,
                l.version,
                now,
                self.config.lease_ttl_seconds,
            ),
            r matches Some(l) ==> (old(store)@.contains_key(key@) ==> l.version != old(store)@[
                key@].1),
    {
        let previous = match store.get(key) {
            Some(rec) => Some(rec.version),
            None => None,
        };
        match self.begin_try_acquire(registry, key, previous) {
            None => {
                assert(registry@ =~= old(registry)@);
                None
            },
            Some(attempt) => {
                let version = attempt.version;
                let outcome = store.acquire_or_replace(key, version, now, attempt.ttl_seconds);
                let res = self.finish_try_acquire(registry, attempt, outcome);
                assert(outcome != AcquireOutcome::Acquired ==> registry@ =~= old(registry)@);
                match res {
                    Ok(l) => l,
                    Err(_) => None,
                }
            },
        }
    }

    /// One tick of the extension task of `lease` at `now`, against a store
    /// held in memory. Says whether the task goes on.
    pub fn extend(&self, store: &mut MemoryStore, lease: &mut Lease, now: u64) -> (go_on: bool)
        requires
            self.wf(),
            old(store).wf(),
            old(lease).wf(),
            now + self.config.lease_ttl_seconds <= u64::MAX,
        ensures
            final(store).wf(),
            final(lease).wf(),
            final(lease).key == old(lease).key,
            old(lease).phase != LeasePhase::Acquired ==> *final(lease) == *old(lease)
                && final(store)@ == old(store)@ && !go_on,
            old(lease).phase == LeasePhase::Acquired ==> {
                &&& go_on == (old(store)@.contains_key(old(lease).key@) && old(store)@[old(
                    lease,
                ).key@].1 == old(lease).version)
                &&& final(store)@ == after_extend(
                    old(store)@,
                    old(lease).key@,
                    old(lease).version,
                    final(lease).version,
                    now,
                    self.config.lease_ttl_seconds,
                )
                &&& go_on ==> final(lease).version != old(lease).version && final(lease).versions@
                    == old(lease).versions@.push(final(lease).version) && final(lease).phase
                    == LeasePhase::Acquired
                &&& !go_on ==> final(lease).phase == LeasePhase::Dead && final(lease).version
                    == old(lease).version
            },
    {
        match lease.plan_extend() {
            crate::lease::ExtensionAction::Stop => false,
            crate::lease::ExtensionAction::Extend { expected, version } => {
                let outcome = store.extend_if_mine(
                    &lease.key,
                    expected,
                    version,
                    now,
                    self.config.lease_ttl_seconds,
                );
                lease.apply_extend(outcome, version)
            },
        }
    }

    /// Releases `lease` against a store held in memory: gives back the local
    /// token first, then deletes the record if it still carries the lease's
    /// version. Does nothing once release has begun.
    pub fn release(&self, registry: &mut LocalRegistry, store: &mut MemoryStore, lease: &mut Lease)
        requires
            old(registry).wf(),
            old(store).wf(),
            old(lease).wf(),
        ensures
            final(registry).wf(),
            final(store).wf(),
            final(lease).wf(),
            old(lease).is_dropped ==> *final(lease) == *old(lease) && final(registry)@ == old(
                registry,
            )@ && final(store)@ == old(store)@,
            !old(lease).is_dropped ==> {
                &&& *final(lease) == (Lease { phase: LeasePhase::Gone, ..released(*old(lease)) })
                &&& final(registry)@ == if old(lease).local_guard {
                    old(registry)@.remove(old(lease).key@)
                } else {
                    old(registry)@
                }
                &&& final(store)@ == after_delete(old(store)@, old(lease).key@, old(lease).version)
            },
    {
        let ghost l0 = *lease;
        let ghost r0 = registry@;
        let ghost s0 = store@;
        match lease.release() {
            None => {},
            Some(plan) => {
                let n = plan.steps.len();
                let mut i: usize = 0;
                while i < n
                    invariant
                        registry.wf(),
                        store.wf(),
                        n == plan.steps@.len(),
                        plan.key@ == l0.key@,
                        plan.steps@ == release_steps(l0),
                        i <= n,
                        registry@ == if l0.local_guard && i >= 1 {
                            r0.remove(l0.key@)
                        } else {
                            r0
                        },
                        store@ == if i == n {
                            after_delete(s0, l0.key@, l0.version)
                        } else {
                            s0
                        },
                    decreases n - i,
                {
                    match plan.steps[i] {
                        ReleaseStep::DropLocalToken => {
                            registry.unlock(&plan.key);
                        },
                        ReleaseStep::DeleteIfMine { expected } => {
                            store.delete_if_mine(&plan.key, expected);
                        },
                    }
                    i = i + 1;
                }
                lease.finish_release();
            },
        }
    }

    /// What a waiting acquire does after an attempt at `now_ms` that did not
    /// acquire: sleep one poll period, cut short at the deadline if there is
    /// one, or time out once the deadline is reached.
    pub fn next_wait(&self, now_ms: u64, deadline_ms: Option<u64>) -> (r: WaitDecision)
        ensures
            r == wait_after(self.config.acquire_poll_millis, now_ms, deadline_ms),
    {
        let poll = self.config.acquire_poll_millis;
        match deadline_ms {
            None => WaitDecision::Sleep { millis: poll },
            Some(d) => {
                if now_ms >= d {
                    WaitDecision::TimedOut
                } else if d - now_ms < poll {
                    WaitDecision::Sleep { millis: d - now_ms }
                } else {
                    WaitDecision::Sleep { millis: poll }
                }
            },
        }
    }
}

} // verus!
