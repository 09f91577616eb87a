use xan_actor::cache::{CachedSend, TxCache};
use xan_actor::error::ActorError;
use xan_actor::inter_node::address::{plan_broadcast, route, Address, BroadcastResult, NodeFilter, Route};
use xan_actor::registry::Registry;
use xan_actor::LifeCycle;

fn register_rejected(node: &str, foreign: &str) {
    let mut reg: Registry<u32> = Registry::new();
    let err = reg
        .register_address(Address::new(foreign, "/foreign/echo"), node, "RemoteActor".to_string(), 1, LifeCycle::Starting, false)
        .expect_err("foreign-node address should be rejected");
    match err {
        ActorError::AddressNotOwned(s) => assert_eq!(s, format!("{}:/foreign/echo", foreign)),
        other => panic!("expected AddressNotOwned, got {other:?}"),
    }
    assert!(reg.find("/foreign/echo", "RemoteActor").is_none());
}

#[test]
fn foreign_address_refused_by_registry() {
    register_rejected("node-a4", "node-b4");
}

#[test]
fn foreign_address_refused_without_broker() {
    // A node that runs without a broker still owns only its own addresses.
    register_rejected("node-a", "node-b");
}

fn local_routing(node: &str) {
    let mut reg: Registry<u32> = Registry::new();
    reg.register_address(Address::new(node, "/local/only"), node, "RemoteActor".to_string(), 7, LifeCycle::Starting, false)
        .expect("register local actor");
    reg.set_life_cycle("/local/only", LifeCycle::Receiving);
    let target = Address::new(node, "/local/only");
    match route(&target, node, true).expect("local routing") {
        Route::Local(name) => assert_eq!(reg.find(&name, "RemoteActor"), Some((&7, true))),
        Route::Remote => panic!("an address of this node must stay local"),
    }
}

#[test]
fn own_address_resolves_locally_with_broker() {
    local_routing("solo");
}

#[test]
fn own_address_resolves_locally_elsewhere() {
    local_routing("ub-solo");
}

fn broadcast_fan_out(me: &str, peer: &str, pattern: &str) -> BroadcastResult {
    let mut reg: Registry<u32> = Registry::new();
    reg.register_address(Address::new(me, "/bc/local/1"), me, "RemoteActor".to_string(), 1, LifeCycle::Receiving, false)
        .expect("register local");
    let plan = plan_broadcast(&NodeFilter::Peers(vec![me.to_string(), peer.to_string()]), me, true).unwrap();
    assert!(plan.run_local);
    assert_eq!(plan.remote_nodes, vec![peer.to_string()]);
    let local: Vec<Result<(), ActorError>> = reg.filter(pattern).unwrap().iter().map(|_| Ok(())).collect();
    let remote: Vec<Result<(), ActorError>> = plan.remote_nodes.iter().map(|_| Ok(())).collect();
    BroadcastResult { local, remote }
}

#[test]
fn broadcast_plan_covers_local_matches_and_each_peer() {
    let r = broadcast_fan_out("node-a6", "node-b6", "/bc/*");
    assert_eq!(r.local.len(), 1, "expected 1 local match");
    assert_eq!(r.remote.len(), 1, "expected 1 remote peer ack");
    assert!(r.all_ok(), "fan-out failed: {:?}", r);
}

#[test]
fn broadcast_plan_counts_every_entry() {
    let r = broadcast_fan_out("ub-node-a6", "ub-node-b6", "/bc/*");
    assert_eq!(r.iter().len(), 2, "expected 2 entries");
    for e in r.iter() {
        assert!(e.is_ok(), "fan-out element failed: {:?}", e);
    }
}

#[test]
fn failed_cached_send_is_resolved_afresh() {
    let mut cache: TxCache<u32> = TxCache::new();
    cache.remember("/a/1".to_string(), "T".to_string(), 5);
    assert_eq!(cache.after_cached_send("/a/1", true), CachedSend::Delivered);
    assert!(matches!(cache.lookup("/a/1", "T"), xan_actor::cache::CacheLookup::Hit(&5)));
    assert_eq!(cache.after_cached_send("/a/1", false), CachedSend::Resolve);
    assert!(matches!(cache.lookup("/a/1", "T"), xan_actor::cache::CacheLookup::Miss));
}

#[test]
fn job_start_without_cache_leaves_cache_alone() {
    let mut cache: TxCache<u32> = TxCache::new();
    cache.remember_job_target(false, "/job/1".to_string(), "T".to_string(), 1);
    assert!(matches!(cache.lookup("/job/1", "T"), xan_actor::cache::CacheLookup::Miss));
    cache.remember_job_target(true, "/job/1".to_string(), "T".to_string(), 1);
    assert!(matches!(cache.lookup("/job/1", "T"), xan_actor::cache::CacheLookup::Hit(&1)));
    cache.remember_job_target(true, "/job/1".to_string(), "T".to_string(), 2);
    assert!(matches!(cache.lookup("/job/1", "T"), xan_actor::cache::CacheLookup::Hit(&1)));
}
