use xan_actor::cache::{CacheLookup, TxCache};
use xan_actor::delivery::{after_lookup, Lookup, NextAttempt, READY_RETRY_LIMIT};
use xan_actor::error::ActorError;

#[test]
fn ready_actor_is_delivered_to() {
    let (next, count) = after_lookup(Lookup::Ready, 3, "/a/1");
    assert!(matches!(next, NextAttempt::Deliver));
    assert_eq!(count, 3);
}

#[test]
fn missing_actor_fails_at_once() {
    let (next, count) = after_lookup(Lookup::Missing, 0, "/a/1");
    match next {
        NextAttempt::Fail(ActorError::AddressNotFound(a)) => assert_eq!(a, "/a/1"),
        other => panic!("unexpected {:?}", other),
    }
    assert_eq!(count, 0);
}

#[test]
fn not_ready_actor_is_looked_up_ten_times() {
    let mut count = 0;
    let mut lookups = 0;
    loop {
        lookups += 1;
        let (next, c) = after_lookup(Lookup::NotReady, count, "/slow");
        count = c;
        match next {
            NextAttempt::RetryAfterPause => continue,
            NextAttempt::FailAfterPause(ActorError::ActorNotReady(a)) => {
                assert_eq!(a, "/slow");
                break;
            }
            other => panic!("unexpected {:?}", other),
        }
    }
    assert_eq!(lookups, 10);
    assert_eq!(READY_RETRY_LIMIT, 10);
}

#[test]
fn cache_hits_only_for_the_cached_type() {
    let mut cache: TxCache<u32> = TxCache::new();
    assert!(matches!(cache.lookup("/a/1", "A"), CacheLookup::Miss));
    cache.remember("/a/1".to_string(), "A".to_string(), 4);
    assert!(matches!(cache.lookup("/a/1", "A"), CacheLookup::Hit(&4)));
    assert!(matches!(cache.lookup("/a/1", "B"), CacheLookup::Stale));
    cache.remember_if_absent("/a/1".to_string(), "B".to_string(), 5);
    assert!(matches!(cache.lookup("/a/1", "A"), CacheLookup::Hit(&4)));
    cache.evict("/a/1");
    assert!(matches!(cache.lookup("/a/1", "A"), CacheLookup::Miss));
    cache.remember_if_absent("/a/1".to_string(), "B".to_string(), 5);
    assert!(matches!(cache.lookup("/a/1", "B"), CacheLookup::Hit(&5)));
    cache.remember("/a/1".to_string(), "A".to_string(), 6);
    assert!(matches!(cache.lookup("/a/1", "A"), CacheLookup::Hit(&6)));
}
