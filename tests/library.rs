use dynamodb_lease::client::{AcquireAttempt, Client, LeaseError, WaitDecision};
use dynamodb_lease::config::{
    ClientBuilder, DEFAULT_ACQUIRE_POLL_MILLIS, DEFAULT_LEASE_TTL_SECONDS,
};
use dynamodb_lease::lease::{
    distinct_version, fresh_version, ExtensionAction, Lease, LeasePhase, ReleaseStep,
};
use dynamodb_lease::registry::LocalRegistry;
use dynamodb_lease::request::{acquire_request, delete_request, extend_request};
use dynamodb_lease::schema::{check_schema, SchemaError, TableDescription};
use dynamodb_lease::store::{
    AcquireOutcome, DeleteOutcome, ExtendOutcome, LeaseRecord, MemoryStore,
};

fn table() -> TableDescription {
    TableDescription {
        exists: true,
        hash_key_name: "key".to_string(),
        hash_key_is_string: true,
        ttl_attribute: Some("lease_expiry".to_string()),
    }
}

fn client() -> Client {
    ClientBuilder::new("leases".to_string()).build_and_check(&table()).unwrap()
}

#[test]
fn builder_defaults() {
    let b = ClientBuilder::new("t".to_string());
    assert_eq!(b.table_name, "t");
    assert_eq!(b.lease_ttl_seconds, DEFAULT_LEASE_TTL_SECONDS);
    assert_eq!(b.lease_ttl_seconds, 20);
    assert_eq!(b.extend_period_millis, 5000);
    assert_eq!(b.acquire_poll_millis, DEFAULT_ACQUIRE_POLL_MILLIS);
    assert_eq!(b.acquire_poll_millis, 1000);
}

#[test]
fn builder_ttl_sets_quarter_extend_period() {
    let b = ClientBuilder::new("t".to_string()).lease_ttl_seconds(2);
    assert_eq!(b.lease_ttl_seconds, 2);
    assert_eq!(b.extend_period_millis, 500);
    let b = b.extend_period_millis(1500).acquire_poll_millis(250);
    assert_eq!(b.extend_period_millis, 1500);
    assert_eq!(b.acquire_poll_millis, 250);
    assert_eq!(b.lease_ttl_seconds, 2);
}

#[test]
fn schema_accepts_good_table() {
    assert_eq!(check_schema(&table()), Ok(()));
    assert!(ClientBuilder::new("t".to_string()).build_and_check(&table()).is_ok());
}

#[test]
fn schema_checks_in_order() {
    let mut t = table();
    t.ttl_attribute = Some("expiry".to_string());
    assert_eq!(check_schema(&t), Err(SchemaError::TtlDisabled));
    t.hash_key_is_string = false;
    assert_eq!(check_schema(&t), Err(SchemaError::WrongHashKeyType));
    t.hash_key_name = "id".to_string();
    assert_eq!(check_schema(&t), Err(SchemaError::WrongHashKeyName));
    t.exists = false;
    assert_eq!(check_schema(&t), Err(SchemaError::TableMissing));
    match ClientBuilder::new("t".to_string()).build_and_check(&t) {
        Err(e) => assert_eq!(e, SchemaError::TableMissing),
        Ok(_) => panic!("a missing table was accepted"),
    }
}

#[test]
fn store_acquire_condition() {
    let mut s = MemoryStore::new();
    let k = "k".to_string();
    assert_eq!(s.acquire_or_replace(&k, 1, 100, 20), AcquireOutcome::Acquired);
    let r = s.get(&k).unwrap();
    assert_eq!((r.expiry, r.version), (120, 1));
    assert_eq!(s.acquire_or_replace(&k, 2, 119, 20), AcquireOutcome::Held);
    assert_eq!(s.get(&k).unwrap().version, 1);
    // expiry equal to now counts as expired
    assert_eq!(s.acquire_or_replace(&k, 3, 120, 20), AcquireOutcome::Acquired);
    let r = s.get(&k).unwrap();
    assert_eq!((r.expiry, r.version), (140, 3));
}

#[test]
fn store_extend_and_delete_conditions() {
    let mut s = MemoryStore::new();
    let k = "k".to_string();
    let other = "other".to_string();
    assert_eq!(s.extend_if_mine(&k, 1, 2, 100, 20), ExtendOutcome::Lost);
    assert_eq!(s.delete_if_mine(&k, 1), DeleteOutcome::Lost);
    s.acquire_or_replace(&k, 1, 100, 20);
    s.acquire_or_replace(&other, 9, 100, 20);
    assert_eq!(s.extend_if_mine(&k, 7, 2, 110, 20), ExtendOutcome::Lost);
    assert_eq!(s.extend_if_mine(&k, 1, 2, 110, 20), ExtendOutcome::Extended);
    let r = s.get(&k).unwrap();
    assert_eq!((r.expiry, r.version), (130, 2));
    assert_eq!(s.delete_if_mine(&k, 1), DeleteOutcome::Lost);
    assert_eq!(s.delete_if_mine(&k, 2), DeleteOutcome::Deleted);
    assert!(s.get(&k).is_none());
    assert_eq!(s.get(&other).unwrap().version, 9);
}

#[test]
fn store_expiry_sweep() {
    let mut s = MemoryStore::new();
    let k = "k".to_string();
    s.put(LeaseRecord { key: k.clone(), expiry: 50, version: 4 });
    assert!(!s.evict_if_expired(&k, 49));
    assert!(s.evict_if_expired(&k, 50));
    assert!(s.get(&k).is_none());
    assert!(!s.evict_if_expired(&k, 60));
}

#[test]
fn registry_serialises_keys() {
    let mut r = LocalRegistry::new();
    let a = "a".to_string();
    let b = "b".to_string();
    assert!(r.try_lock(&a));
    assert!(!r.try_lock(&a));
    assert!(r.try_lock(&b));
    assert!(r.is_held(&a));
    r.unlock(&a);
    assert!(!r.is_held(&a));
    assert!(r.is_held(&b));
    assert!(r.try_lock(&a));
}

#[test]
fn distinct_version_values() {
    assert_eq!(distinct_version(5, 7), 5);
    assert_eq!(distinct_version(7, 7), 8);
    assert_eq!(distinct_version(u128::MAX, u128::MAX), 0);
}

#[test]
fn fresh_versions_are_random_v4_tokens() {
    let a = fresh_version(0);
    let b = fresh_version(a);
    assert_ne!(a, 0);
    assert_ne!(a, b);
    assert_eq!((a >> 76) & 0xf, 4);
    assert_eq!((b >> 76) & 0xf, 4);
    assert_eq!((a >> 62) & 0x3, 2);
    let c = client();
    let mut reg = LocalRegistry::new();
    let at = c.begin_try_acquire(&mut reg, &"k".to_string(), None).unwrap();
    assert_eq!((at.version >> 76) & 0xf, 4);
    assert_eq!((at.version >> 62) & 0x3, 2);
}

#[test]
fn lease_extension_chain() {
    let mut l = Lease::new("k".to_string(), 10);
    assert_eq!(l.lease_v(), 10);
    assert!(l.is_live());
    match l.plan_extend() {
        ExtensionAction::Extend { expected, version } => {
            assert_eq!(expected, 10);
            assert_ne!(version, 10);
            assert!(l.apply_extend(ExtendOutcome::Extended, version));
            assert_eq!(l.lease_v(), version);
        }
        ExtensionAction::Stop => panic!("a live lease stopped extending"),
    }
    assert!(!l.apply_extend(ExtendOutcome::Lost, 99));
    assert_eq!(l.phase, LeasePhase::Dead);
    assert_eq!(l.plan_extend(), ExtensionAction::Stop);
}

#[test]
fn extend_transient_failure_ends_task() {
    let mut l = Lease::new("k".to_string(), 10);
    assert!(!l.apply_extend(ExtendOutcome::TransientFailure, 11));
    assert_eq!(l.phase, LeasePhase::Dead);
    assert_eq!(l.lease_v(), 10);
}

#[test]
fn release_steps_and_idempotence() {
    let mut l = Lease::new("k".to_string(), 10).with_local_guard();
    let plan = l.release().unwrap();
    assert_eq!(plan.key, "k");
    assert_eq!(
        plan.steps,
        vec![ReleaseStep::DropLocalToken, ReleaseStep::DeleteIfMine { expected: 10 }]
    );
    assert!(l.is_dropped);
    assert!(!l.local_guard);
    assert_eq!(l.phase, LeasePhase::Releasing);
    assert!(l.release().is_none());
    assert_eq!(l.phase, LeasePhase::Releasing);
    assert_eq!(l.plan_extend(), ExtensionAction::Stop);
    l.finish_release();
    assert_eq!(l.phase, LeasePhase::Gone);
}

#[test]
fn release_without_guard_only_deletes() {
    let mut l = Lease::new("k".to_string(), 3);
    let plan = l.release().unwrap();
    assert_eq!(plan.steps, vec![ReleaseStep::DeleteIfMine { expected: 3 }]);
}

#[test]
fn release_then_drop_is_one_release() {
    let c = client();
    let mut reg = LocalRegistry::new();
    let mut store = MemoryStore::new();
    let k = "k".to_string();
    let mut l = c.try_acquire(&mut reg, &mut store, &k, 100).unwrap();
    c.release(&mut reg, &mut store, &mut l);
    assert!(!reg.is_held(&k));
    assert!(store.get(&k).is_none());
    // someone else acquires; a second release of the old handle leaves it be
    let mut other_reg = LocalRegistry::new();
    let l2 = c.try_acquire(&mut other_reg, &mut store, &k, 100).unwrap();
    c.release(&mut reg, &mut store, &mut l);
    assert_eq!(store.get(&k).unwrap().version, l2.lease_v());
    assert_eq!(l.phase, LeasePhase::Gone);
}

#[test]
fn reclaimed_lease_defeats_former_holder() {
    let c = client();
    let mut reg_a = LocalRegistry::new();
    let mut reg_b = LocalRegistry::new();
    let mut store = MemoryStore::new();
    let k = "k".to_string();
    let mut a = c.try_acquire(&mut reg_a, &mut store, &k, 100).unwrap();
    // a crashed: no extends; b reclaims at expiry
    assert!(c.try_acquire(&mut reg_b, &mut store, &k, 119).is_none());
    let b = c.try_acquire(&mut reg_b, &mut store, &k, 120).unwrap();
    assert!(!c.extend(&mut store, &mut a, 121));
    assert_eq!(a.phase, LeasePhase::Dead);
    c.release(&mut reg_a, &mut store, &mut a);
    assert_eq!(store.get(&k).unwrap().version, b.lease_v());
}

#[test]
fn reclaim_after_sweep() {
    let c = client();
    let mut reg_a = LocalRegistry::new();
    let mut reg_b = LocalRegistry::new();
    let mut store = MemoryStore::new();
    let k = "k".to_string();
    let _a = c.try_acquire(&mut reg_a, &mut store, &k, 100).unwrap();
    assert!(store.evict_if_expired(&k, 125));
    assert!(c.try_acquire(&mut reg_b, &mut store, &k, 125).is_some());
}

#[test]
fn finish_acquire_outcomes() {
    let c = client();
    let mut reg = LocalRegistry::new();
    let k = "k".to_string();

    let at = c.begin_try_acquire(&mut reg, &k, Some(77)).unwrap();
    assert_eq!(at.ttl_seconds, 20);
    assert_ne!(at.version, 77);
    assert!(c.begin_try_acquire(&mut reg, &k, None).is_none());
    let v = at.version;
    let l = c.finish_try_acquire(&mut reg, at, AcquireOutcome::Acquired).unwrap().unwrap();
    assert_eq!(l.lease_v(), v);
    assert!(l.local_guard);
    assert!(reg.is_held(&k));

    let k2 = "k2".to_string();
    let at = c.begin_try_acquire(&mut reg, &k2, None).unwrap();
    assert!(c.finish_try_acquire(&mut reg, at, AcquireOutcome::Held).unwrap().is_none());
    assert!(!reg.is_held(&k2));

    let at = c.begin_try_acquire(&mut reg, &k2, None).unwrap();
    match c.finish_try_acquire(&mut reg, at, AcquireOutcome::TransientFailure) {
        Err(e) => assert_eq!(e, LeaseError::StoreTransient),
        Ok(_) => panic!("a store failure was not surfaced"),
    }
    assert!(!reg.is_held(&k2));

    let at = AcquireAttempt { key: "k3".to_string(), version: 1, ttl_seconds: 20 };
    assert!(c.finish_try_acquire(&mut reg, at, AcquireOutcome::Held).unwrap().is_none());
}

#[test]
fn waiting_rule() {
    let c = client();
    assert_eq!(c.next_wait(0, None), WaitDecision::Sleep { millis: 1000 });
    assert_eq!(c.next_wait(0, Some(100)), WaitDecision::Sleep { millis: 100 });
    assert_eq!(c.next_wait(0, Some(5000)), WaitDecision::Sleep { millis: 1000 });
    assert_eq!(c.next_wait(100, Some(100)), WaitDecision::TimedOut);
    assert_eq!(c.next_wait(150, Some(100)), WaitDecision::TimedOut);
    // the timed-out error of the acquire paths
    assert_ne!(LeaseError::TimedOut, LeaseError::StoreTransient);
}

#[test]
fn replacing_acquire_changes_version() {
    let c = client();
    let k = "k".to_string();
    for round in 0..20u64 {
        let mut reg = LocalRegistry::new();
        let mut store = MemoryStore::new();
        let old_v = fresh_version(round as u128);
        store.put(LeaseRecord { key: k.clone(), expiry: 10, version: old_v });
        let l = c.try_acquire(&mut reg, &mut store, &k, 100).unwrap();
        assert_ne!(l.lease_v(), old_v);
        let r = store.get(&k).unwrap();
        assert_eq!((r.expiry, r.version), (120, l.lease_v()));
    }
}

#[test]
fn acquire_request_layout() {
    let r = acquire_request(&"k".to_string(), 0xa1a2a3a4b1b2c1c2d1d2d3d4d5d6d7d8, 100, 20);
    assert_eq!(r.key, "k");
    assert_eq!(r.lease_expiry, 120);
    assert_eq!(r.lease_version, "a1a2a3a4-b1b2-c1c2-d1d2-d3d4d5d6d7d8");
    assert_eq!(r.condition, "attribute_not_exists(lease_version) OR lease_expiry <= :now");
    assert_eq!(r.now, Some(100));
    assert!(r.expected.is_none());
}

#[test]
fn extend_and_delete_request_layout() {
    let r = extend_request(&"k".to_string(), 1, 2, 100, 20);
    assert_eq!(r.lease_expiry, 120);
    assert_eq!(r.lease_version, "00000000-0000-0000-0000-000000000002");
    assert_eq!(r.condition, "attribute_exists(lease_version) AND lease_version = :expected");
    assert_eq!(r.now, None);
    assert_eq!(r.expected, Some("00000000-0000-0000-0000-000000000001".to_string()));
    let d = delete_request(&"k".to_string(), 1);
    assert_eq!(d.key, "k");
    assert_eq!(d.condition, r.condition);
    assert_eq!(d.expected, "00000000-0000-0000-0000-000000000001");
}
