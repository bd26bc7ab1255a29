use vstd::prelude::*;

verus! {

/// A lease record as the store holds it: the key, the absolute expiry in
/// seconds since the epoch, and the version token of the current holder.
pub struct LeaseRecord {
    pub key: String,
    pub expiry: u64,
    pub version: u128,
}

/// What the store holds for a key: its expiry and its version.
pub type Stamp = (u64, u128);

/// Outcome of a conditional acquire.
#[derive(PartialEq, Eq, Structural, Clone, Copy, Debug)]
pub enum AcquireOutcome {
    /// The record was written: the key was free or its lease had expired.
    Acquired,
    /// An unexpired lease of another holder stands.
    Held,
    /// The store could not be reached.
    TransientFailure,
}

/// Outcome of a conditional extend.
#[derive(PartialEq, Eq, Structural, Clone, Copy, Debug)]
pub enum ExtendOutcome {
    /// The record carried the expected version and was rewritten.
    Extended,
    /// The record is gone or carries another version.
    Lost,
    /// The store could not be reached.
    TransientFailure,
}

/// Outcome of a conditional delete.
#[derive(PartialEq, Eq, Structural, Clone, Copy, Debug)]
pub enum DeleteOutcome {
    /// The record carried the expected version and was removed.
    Deleted,
    /// The record is gone or carries another version.
    Lost,
    /// The store could not be reached.
    TransientFailure,
}

/// The acquire condition: no record for `key`, or one whose expiry has passed.
pub open spec fn acquirable(m: Map<Seq<char>, Stamp>, key: Seq<char>, now: u64) -> bool {
    !m.contains_key(key) || m[key].0 <= now
}

/// The extend and delete condition: a record for `key` with version `expected`.
pub open spec fn owned_by(m: Map<Seq<char>, Stamp>, key: Seq<char>, expected: u128) -> bool {
    m.contains_key(key) && m[key].1 == expected
}

/// The store after an acquire attempt of `key` with `version` at `now`.
pub open spec fn after_acquire(
    m: Map<Seq<char>, Stamp>,
    key: Seq<char>,
    version: u128,
    now: u64,
    ttl: u64,
) -> Map<Seq<char>, Stamp> {
    if acquirable(m, key, now) {
        m.insert(key, ((now + ttl) as u64, version))
    } else {
        m
    }
}

/// The store after an extend attempt of `key` from `expected` to `version`.
pub open spec fn after_extend(
    m: Map<Seq<char>, Stamp>,
    key: Seq<char>,
    expected: u128,
    version: u128,
    now: u64,
    ttl: u64,
) -> Map<Seq<char>, Stamp> {
    if owned_by(m, key, expected) {
        m.insert(key, ((now + ttl) as u64, version))
    } else {
        m
    }
}

/// The store after a delete attempt of `key` bound to `expected`.
pub open spec fn after_delete(m: Map<Seq<char>, Stamp>, key: Seq<char>, expected: u128) -> Map<
    Seq<char>,
    Stamp,
> {
    if owned_by(m, key, expected) {
        m.remove(key)
    } else {
        m
    }
}

/// A store held in memory, with the same three conditional writes as a
/// remote one. Each call is atomic, so it never reports a transient failure.
pub struct MemoryStore {
    records: Vec<LeaseRecord>,
    contents: Ghost<Map<Seq<char>, Stamp>>,
}

impl View for MemoryStore {
    type V = Map<Seq<char>, Stamp>;

    closed spec fn view(&self) -> Map<Seq<char>, Stamp> {
        self.contents@
    }
}

impl MemoryStore {
    /// Each key has at most one record, and the records are what the view
    /// holds.
    pub closed spec fn wf(&self) -> bool {
        &&& forall|i: int, j: int|
            0 <= i < j < self.records@.len() ==> #[trigger] self.records@[i].key@
                != #[trigger] self.records@[j].key@
        &&& forall|i: int|
            0 <= i < self.records@.len() ==> {
                let r = #[trigger] self.records@[i];
                self.contents@.contains_key(r.key@) && self.contents@[r.key@] == (
                r.expiry,
                r.version,
            )
            }
        &&& forall|k: Seq<char>|
            #[trigger] self.contents@.contains_key(k) ==> exists|i: int|
                0 <= i < self.records@.len() && (#[trigger] self.records@[i]).key@ == k
    }

    /// An empty store.
    pub fn new() -> (r: MemoryStore)
        ensures
            r.wf(),
            r@ == Map::<Seq<char>, Stamp>::empty(),
    {
        MemoryStore { records: Vec::new(), contents: Ghost(Map::empty()) }
    }

    /// The index of the record for `key`, if there is one.
    fn find(&self, key: &String) -> (r: Option<usize>)
        requires
            self.wf(),
        ensures
            match r {
                Some(i) => i < self.records@.len() && self.records@[i as int].key@ == key@
                    && self@.contains_key(key@),
                None => !self@.contains_key(key@),
            },
    {
        let mut i: usize = 0;
        while i < self.records.len()
            invariant
                self.wf(),
                i <= self.records@.len(),
                forall|j: int| 0 <= j < i ==> self.records@[j].key@ != key@,
            decreases self.records@.len() - i,
        {
            if self.records[i].key == *key {
                return Some(i);
            }
            i = i + 1;
        }
        None
    }

    /// Replaces the record at `i`, which holds `key`.
    fn overwrite(&mut self, i: usize, key: &String, expiry: u64, version: u128)
        requires
            old(self).wf(),
            i < old(self).records@.len(),
            old(self).records@[i as int].key@ == key@,
        ensures
            final(self).wf(),
            final(self)@ == old(self)@.insert(key@, (expiry, version)),
    {
        let ghost m = self.contents@;
        let ghost old_records = self.records@;
        self.records.set(i, LeaseRecord { key: key.clone(), expiry, version });
        self.contents = Ghost(m.insert(key@, (expiry, version)));
        assert forall|k: Seq<char>| #[trigger] self.contents@.contains_key(k) implies exists|
            j: int,
        |
            0 <= j < self.records@.len() && (#[trigger] self.records@[j]).key@ == k by {
            if k != key@ {
                let j = choose|j: int|
                    0 <= j < old_records.len() && (#[trigger] old_records[j]).key@ == k;
                assert(self.records@[j] == old_records[j]);
            } else {
                assert(self.records@[i as int].key@ == k);
            }
        }
    }

    /// Adds a record for `key`, which has none.
    fn append(&mut self, key: &String, expiry: u64, version: u128)
        requires
            old(self).wf(),
            !old(self)@.contains_key(key@),
        ensures
            final(self).wf(),
            final(self)@ == old(self)@.insert(key@, (expiry, version)),
    {
        let ghost m = self.contents@;
        let ghost old_records = self.records@;
        self.records.push(LeaseRecord { key: key.clone(), expiry, version });
        self.contents = Ghost(m.insert(key@, (expiry, version)));
        assert forall|k: Seq<char>| #[trigger] self.contents@.contains_key(k) implies exists|
            j: int,
        |
            0 <= j < self.records@.len() && (#[trigger] self.records@[j]).key@ == k by {
            if k != key@ {
                let j = choose|j: int|
                    0 <= j < old_records.len() && (#[trigger] old_records[j]).key@ == k;
                assert(self.records@[j] == old_records[j]);
            } else {
                assert(self.records@[old_records.len() as int].key@ == k);
            }
        }
    }

    /// Removes the record at `i`, which holds `key`.
    fn erase(&mut self, i: usize, key: &String)
        requires
            old(self).wf(),
            i < old(self).records@.len(),
            old(self).records@[i as int].key@ == key@,
        ensures
            final(self).wf(),
            final(self)@ == old(self)@.remove(key@),
    {
        let ghost m = self.contents@;
        let ghost old_records = self.records@;
        self.records.remove(i);
        self.contents = Ghost(m.remove(key@));
        assert forall|j: int| 0 <= j < self.records@.len() implies {
            let r = #[trigger] self.records@[j];
            self.contents@.contains_key(r.key@) && self.contents@[r.key@] == (r.expiry, r.version)
        } by {
            if j < i {
                assert(self.records@[j] == old_records[j]);
            } else {
                assert(self.records@[j] == old_records[j + 1]);
            }
        }
        assert forall|k: Seq<char>| #[trigger] self.contents@.contains_key(k) implies exists|
            j: int,
        |
            0 <= j < self.records@.len() && (#[trigger] self.records@[j]).key@ == k by {
            let j = choose|j: int|
                0 <= j < old_records.len() && (#[trigger] old_records[j]).key@ == k;
            assert(j != i);
            if j < i {
                assert(self.records@[j] == old_records[j]);
            } else {
                assert(self.records@[j - 1] == old_records[j]);
            }
        }
    }

    /// The record held for `key`, read directly.
    pub fn get(&self, key: &String) -> (r: Option<LeaseRecord>)
        requires
            self.wf(),
        ensures
            match r {
                Some(rec) => self@.contains_key(key@) && rec.key@ == key@ && self@[key@] == (
                rec.expiry,
                rec.version,
            ),
                None => !self@.contains_key(key@),
            },
    {
        match self.find(key) {
            Some(i) => {
                let rec = &self.records[i];
                Some(LeaseRecord { key: rec.key.clone(), expiry: rec.expiry, version: rec.version })
            },
            None => None,
        }
    }

    /// Writes a record unconditionally, as a remnant left by another process
    /// would stand.
    pub fn put(&mut self, record: LeaseRecord)
        requires
            old(self).wf(),
        ensures
            final(self).wf(),
            final(self)@ == old(self)@.insert(record.key@, (record.expiry, record.version)),
    {
        match self.find(&record.key) {
            Some(i) => self.overwrite(i, &record.key, record.expiry, record.version),
            None => self.append(&record.key, record.expiry, record.version),
        }
    }

    /// Writes `{key, version, expiry: now + ttl}` if `key` has no record or
    /// its record has expired at `now`.
    pub fn acquire_or_replace(&mut self, key: &String, version: u128, now: u64, ttl: u64) -> (r:
        AcquireOutcome)
        requires
            old(self).wf(),
            now + ttl <= u64::MAX,
        ensures
            final(self).wf(),
            r == AcquireOutcome::Acquired <==> acquirable(old(self)@, key@, now),
            r == AcquireOutcome::Held <==> !acquirable(old(self)@, key@, now),
            final(self)@ == after_acquire(old(self)@, key@, version, now, ttl),
    {
        match self.find(key) {
            Some(i) => {
                if self.records[i].expiry <= now {
                    self.overwrite(i, key, now + ttl, version);
                    AcquireOutcome::Acquired
                } else {
                    AcquireOutcome::Held
                }
            },
            None => {
                self.append(key, now + ttl, version);
                AcquireOutcome::Acquired
            },
        }
    }

    /// Rewrites the record of `key` to `{version, expiry: now + ttl}` if it
    /// carries `expected`.
    pub fn extend_if_mine(
        &mut self,
        key: &String,
        expected: u128,
        version: u128,
        now: u64,
        ttl: u64,
    ) -> (r: ExtendOutcome)
        requires
            old(self).wf(),
            now + ttl <= u64::MAX,
        ensures
            final(self).wf(),
            r == ExtendOutcome::Extended <==> owned_by(old(self)@, key@, expected),
            r == ExtendOutcome::Lost <==> !owned_by(old(self)@, key@, expected),
            final(self)@ == after_extend(old(self)@, key@, expected, version, now, ttl),
    {
        match self.find(key) {
            Some(i) => {
                if self.records[i].version == expected {
                    self.overwrite(i, key, now + ttl, version);
                    ExtendOutcome::Extended
                } else {
                    ExtendOutcome::Lost
                }
            },
            None => ExtendOutcome::Lost,
        }
    }

    /// Deletes the record of `key` if it carries `expected`.
    pub fn delete_if_mine(&mut self, key: &String, expected: u128) -> (r: DeleteOutcome)
        requires
            old(self).wf(),
        ensures
            final(self).wf(),
            r == DeleteOutcome::Deleted <==> owned_by(old(self)@, key@, expected),
            r == DeleteOutcome::Lost <==> !owned_by(old(self)@, key@, expected),
            final(self)@ == after_delete(old(self)@, key@, expected),
    {
        match self.find(key) {
            Some(i) => {
                if self.records[i].version == expected {
                    self.erase(i, key);
                    DeleteOutcome::Deleted
                } else {
                    DeleteOutcome::Lost
                }
            },
            None => DeleteOutcome::Lost,
        }
    }

    /// The expiry sweep for one key: removes its record if the expiry has
    /// passed at `now`, and says whether it did.
    pub fn evict_if_expired(&mut self, key: &String, now: u64) -> (r: bool)
        requires
            old(self).wf(),
        ensures
            final(self).wf(),
            r == (old(self)@.contains_key(key@) && old(self)@[key@].0 <= now),
            final(self)@ == if r {
                old(self)@.remove(key@)
            } else {
                old(self)@
            },
    {
        match self.find(key) {
            Some(i) => {
                if self.records[i].expiry <= now {
                    self.erase(i, key);
                    true
                } else {
                    false
                }
            },
            None => false,
        }
    }
}

} // verus!
