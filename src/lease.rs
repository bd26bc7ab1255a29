use vstd::prelude::*;

use crate::store::ExtendOutcome;

verus! {

/// A token in the random UUID format: its version field (bits 76 to 79) is
/// 4 and its variant field (bits 62 and 63) is binary 10.
pub open spec fn random_uuid_format(t: u128) -> bool {
    &&& (t >> 76u128) & 0xfu128 == 4u128
    &&& (t >> 62u128) & 0x3u128 == 2u128
}

/// The token after `t`, wrapping at the largest.
pub open spec fn next_token(t: u128) -> u128 {
    if t == u128::MAX {
        0
    } else {
        (t + 1) as u128
    }
}

/// Relies on `uuid::Uuid::new_v4`, read back with `Uuid::as_u128`: a random
/// token whose version field (bits 76 to 79) is 4 and whose variant field
/// (bits 62 and 63) is binary 10.
#[verifier::external_body]
pub(crate) fn random_token() -> (r: u128)
    ensures
        random_uuid_format(r),
{
    uuid::Uuid::new_v4().as_u128()
}

/// Turns a drawn token into a version that differs from `current`: the drawn
/// one where it already does, else the one after it.
pub fn distinct_version(drawn: u128, current: u128) -> (r: u128)
    ensures
        r != current,
        drawn != current ==> r == drawn,
        drawn == current ==> r == next_token(current),
{
    if drawn != current {
        drawn
    } else if drawn == u128::MAX {
        0
    } else {
        drawn + 1
    }
}

/// A freshly drawn version token that differs from `current`: a random one,
/// or the token after `current` where the draw hit `current` itself.
pub fn fresh_version(current: u128) -> (r: u128)
    ensures
        r != current,
        random_uuid_format(r) || r == next_token(current),
{
    distinct_version(random_token(), current)
}

/// Where a lease handle stands in its life.
#[derive(PartialEq, Eq, Structural, Clone, Copy, Debug)]
pub enum LeasePhase {
    /// Held, and extended in the background.
    Acquired,
    /// An extend failed: the record was reclaimed, reaped or unreachable.
    Dead,
    /// Release has begun: the local token is given back and a delete is due.
    Releasing,
    /// The delete has been issued.
    Gone,
}

/// One step of a release, in the order in which it is to be performed.
#[derive(PartialEq, Eq, Structural, Clone, Copy, Debug)]
pub enum ReleaseStep {
    /// Give back the local token for the key.
    DropLocalToken,
    /// Delete the record, bound to the version last written.
    DeleteIfMine { expected: u128 },
}

/// What a release asks of its caller: the steps, for the lease's key.
pub struct ReleasePlan {
    pub key: String,
    pub steps: Vec<ReleaseStep>,
}

/// What the extension task is to do on its next tick.
#[derive(PartialEq, Eq, Structural, Clone, Copy, Debug)]
pub enum ExtensionAction {
    /// The lease is no longer held: the task ends.
    Stop,
    /// Rewrite the record from `expected` to `version`, with a new expiry.
    Extend { expected: u128, version: u128 },
}

/// A held distributed lease.
///
/// `version` is the token last written to the store for `key`; `versions`
/// is every token this handle has held, oldest first. `local_guard` says
/// whether the handle owns the local token for its key, and `is_dropped`
/// whether release has begun.
pub struct Lease {
    pub key: String,
    pub version: u128,
    pub local_guard: bool,
    pub is_dropped: bool,
    pub phase: LeasePhase,
    pub versions: Ghost<Seq<u128>>,
}

/// The steps of releasing `l`: the local token goes back first, if the
/// handle owns it, and the conditional delete comes after.
pub open spec fn release_steps(l: Lease) -> Seq<ReleaseStep> {
    if l.local_guard {
        seq![ReleaseStep::DropLocalToken, ReleaseStep::DeleteIfMine { expected: l.version }]
    } else {
        seq![ReleaseStep::DeleteIfMine { expected: l.version }]
    }
}

/// The handle after a call of `release`: unchanged once release has begun.
pub open spec fn released(l: Lease) -> Lease {
    if l.is_dropped {
        l
    } else {
        Lease { local_guard: false, is_dropped: true, phase: LeasePhase::Releasing, ..l }
    }
}

/// The handle after an extend attempt from a live state that returned
/// `outcome` for `version`.
pub open spec fn after_extend_outcome(l: Lease, outcome: ExtendOutcome, version: u128) -> Lease {
    if l.phase != LeasePhase::Acquired {
        l
    } else if outcome == ExtendOutcome::Extended {
        Lease { version, versions: Ghost(l.versions@.push(version)), ..l }
    } else {
        Lease { phase: LeasePhase::Dead, ..l }
    }
}

impl Lease {
    /// Consecutive versions of the handle are distinct and the last is the
    /// current one; a handle owns the local token only until release begins,
    /// and release has begun exactly in the releasing and gone phases.
    pub open spec fn wf(&self) -> bool {
        &&& self.versions@.len() >= 1
        &&& self.versions@.last() == self.version
        &&& forall|i: int|
            0 < i < self.versions@.len() ==> #[trigger] self.versions@[i] != self.versions@[i
                - 1]
        &&& self.local_guard ==> !self.is_dropped
        &&& self.is_dropped <==> (self.phase == LeasePhase::Releasing || self.phase
            == LeasePhase::Gone)
    }

    /// A handle for a lease just written to the store with `version`.
    pub fn new(key: String, version: u128) -> (r: Lease)
        ensures
            r.wf(),
            r.key@ == key@,
            r.version == version,
            r.versions@ == seq![version],
            !r.local_guard,
            !r.is_dropped,
            r.phase == LeasePhase::Acquired,
    {
        let ghost first = seq![version];
        Lease {
            key,
            version,
            local_guard: false,
            is_dropped: false,
            phase: LeasePhase::Acquired,
            versions: Ghost(first),
        }
    }

    /// Hands the local token for the key to the handle, so that the token
    /// lives as long as the lease.
    pub fn with_local_guard(self) -> (r: Lease)
        requires
            self.wf(),
            !self.is_dropped,
        ensures
            r.wf(),
            r == (Lease { local_guard: true, ..self }),
    {
        Lease { local_guard: true, ..self }
    }

    /// The version token of this lease; it changes on each successful extend.
    pub fn lease_v(&self) -> (r: u128)
        ensures
            r == self.version,
    {
        self.version
    }

    /// Whether the handle still holds its lease.
    pub fn is_live(&self) -> (r: bool)
        ensures
            r == (self.phase == LeasePhase::Acquired),
    {
        match self.phase {
            LeasePhase::Acquired => true,
            _ => false,
        }
    }

    /// The next tick of the extension task: stop once the lease is not held,
    /// else extend from the current version to a fresh one.
    pub fn plan_extend(&self) -> (r: ExtensionAction)
        ensures
            self.phase != LeasePhase::Acquired ==> r == ExtensionAction::Stop,
            self.phase == LeasePhase::Acquired ==> (r matches ExtensionAction::Extend {
                expected,
                version,
            } && expected == self.version && version != self.version && (random_uuid_format(
                version,
            ) || version == next_token(self.version))),
    {
        if self.is_live() {
            ExtensionAction::Extend {
                expected: self.version,
                version: fresh_version(self.version),
            }
        } else {
            ExtensionAction::Stop
        }
    }

    /// Takes in the outcome of an extend to `version`: on success the handle
    /// holds `version`, on any failure the lease is dead. Says whether the
    /// extension task goes on.
    pub fn apply_extend(&mut self, outcome: ExtendOutcome, version: u128) -> (go_on: bool)
        requires
            old(self).wf(),
            version != old(self).version,
        ensures
            final(self).wf(),
            *final(self) == after_extend_outcome(*old(self), outcome, version),
            go_on == (old(self).phase == LeasePhase::Acquired && outcome
                == ExtendOutcome::Extended),
    {
        if !self.is_live() {
            return false;
        }
        match outcome {
            ExtendOutcome::Extended => {
                self.version = version;
                let ghost chain = self.versions@.push(version);
                self.versions = Ghost(chain);
                true
            },
            _ => {
                self.phase = LeasePhase::Dead;
                false
            },
        }
    }

    /// Begins release: marks the handle released, gives up its local token
    /// and returns the steps to perform, the local token first. A second call
    /// returns nothing and changes nothing.
    pub fn release(&mut self) -> (r: Option<ReleasePlan>)
        requires
            old(self).wf(),
        ensures
            final(self).wf(),
            *final(self) == released(*old(self)),
            match r {
                None => old(self).is_dropped,
                Some(plan) => !old(self).is_dropped && plan.key@ == old(self).key@
                    && plan.steps@ == release_steps(*old(self)),
            },
    {
        if self.is_dropped {
            return None;
        }
        let mut steps: Vec<ReleaseStep> = Vec::new();
        if self.local_guard {
            steps.push(ReleaseStep::DropLocalToken);
        }
        steps.push(ReleaseStep::DeleteIfMine { expected: self.version });
        self.local_guard = false;
        self.is_dropped = true;
        self.phase = LeasePhase::Releasing;
        Some(ReleasePlan { key: self.key.clone(), steps })
    }

    /// Marks the delete of a release as issued.
    pub fn finish_release(&mut self)
        requires
            old(self).wf(),
            old(self).phase == LeasePhase::Releasing,
        ensures
            final(self).wf(),
            *final(self) == (Lease { phase: LeasePhase::Gone, ..*old(self) }),
    {
        self.phase = LeasePhase::Gone;
    }
}

} // verus!
