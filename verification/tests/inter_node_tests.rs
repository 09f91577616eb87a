use xan_actor::error::ActorError;
use xan_actor::inter_node::address::{plan_broadcast, registration_name, route, Address, BroadcastResult, NodeFilter, Route};
use xan_actor::inter_node::decoder::find_decoder;
use xan_actor::inter_node::envelope::{call_envelope, fire_envelope, broadcast_envelope, outcome_result, reply_outcome, InterNodeMessage, ResponseOutcome, Topic, TopicKind};
use xan_actor::inter_node::pending::PendingRequests;

#[test]
fn address_parts_and_text() {
    let a = Address::new("node-a", "/echo/1");
    assert_eq!(a.node, "node-a");
    assert_eq!(a.name, "/echo/1");
    assert_eq!(a.to_string(), "node-a:/echo/1");
    let b = Address::new(String::from("n"), String::from("x"));
    assert_eq!(b.to_string(), "n:x");
}

#[test]
fn routing_by_node() {
    let local = Address::new("solo", "/local/only");
    assert_eq!(route(&local, "solo", false).unwrap(), Route::Local("/local/only".to_string()));
    let remote = Address::new("node-b", "/remote/echo");
    assert_eq!(route(&remote, "node-a", true).unwrap(), Route::Remote);
    assert!(matches!(route(&remote, "node-a", false), Err(ActorError::InterNodeNotConfigured)));
}

#[test]
fn registration_name_ownership() {
    let r = registration_name(Address::new("node-b4", "/foreign/echo"), "node-a4");
    assert!(matches!(r, Err(ActorError::AddressNotOwned(s)) if s == "node-b4:/foreign/echo"));
    assert_eq!(registration_name(Address::new("node-a4", "/x"), "node-a4").unwrap(), "/x");
    let r = registration_name(Address::new("elsewhere", "/x"), "node-a4");
    assert!(matches!(r, Err(ActorError::AddressNotOwned(s)) if s == "elsewhere:/x"));
}

#[test]
fn broadcast_plans() {
    let p = plan_broadcast(&NodeFilter::SelfOnly, "a", false).unwrap();
    assert!(p.run_local);
    assert!(p.remote_nodes.is_empty());
    let p = plan_broadcast(&NodeFilter::Node("a".to_string()), "a", false).unwrap();
    assert!(p.run_local && p.remote_nodes.is_empty());
    let p = plan_broadcast(&NodeFilter::Node("b".to_string()), "a", true).unwrap();
    assert!(!p.run_local);
    assert_eq!(p.remote_nodes, vec!["b".to_string()]);
    let peers = NodeFilter::Peers(vec!["b".into(), "a".into(), "c".into(), "b".into(), "a".into()]);
    let p = plan_broadcast(&peers, "a", true).unwrap();
    assert!(p.run_local);
    assert_eq!(p.remote_nodes, vec!["b".to_string(), "c".to_string()]);
    assert!(matches!(plan_broadcast(&peers, "a", false), Err(ActorError::InterNodeNotConfigured)));
    // only this node: no broker needed
    assert!(plan_broadcast(&NodeFilter::Peers(vec!["a".into()]), "a", false).is_ok());
}

#[test]
fn broadcast_result_views() {
    let r = BroadcastResult { local: vec![Ok(()), Ok(())], remote: vec![Ok(())] };
    assert!(r.all_ok());
    assert_eq!(r.iter().len(), 3);
    let r = BroadcastResult { local: vec![Ok(())], remote: vec![Err(ActorError::InterNodeNotConfigured)] };
    assert!(!r.all_ok());
    let all = r.iter();
    assert!(all[0].is_ok());
    assert!(matches!(all[1], Err(ActorError::InterNodeNotConfigured)));
    let r = BroadcastResult { local: vec![Err(ActorError::MessageTypeMismatch)], remote: vec![] };
    assert!(!r.all_ok());
    assert!(BroadcastResult::default().all_ok());
}

#[test]
fn topics_and_envelopes() {
    let t = Topic::request("node-b");
    assert_eq!(t.node, "node-b");
    assert_eq!(t.kind, TopicKind::Request);
    let t = Topic::response("node-a".to_string());
    assert_eq!(t.kind, TopicKind::Response);
    let target = Address::new("node-b", "/remote/echo");
    let (topic, env) = fire_envelope(&target, "Remote", vec![1, 2]);
    assert_eq!(topic.node, "node-b");
    assert!(matches!(env, InterNodeMessage::Fire { ref actor_type, ref target_name, ref payload }
        if actor_type == "Remote" && target_name == "/remote/echo" && payload == &vec![1u8, 2]));
    let (topic, env) = call_envelope(&target, "node-a", "Remote", 7, vec![3]);
    assert_eq!(topic.kind, TopicKind::Request);
    match env {
        InterNodeMessage::Call { reply_to, req_id, .. } => {
            assert_eq!(req_id, 7);
            assert_eq!(reply_to.node, "node-a");
            assert_eq!(reply_to.kind, TopicKind::Response);
        }
        other => panic!("unexpected {:?}", other),
    }
    let (topic, env) = broadcast_envelope("node-c", "Remote", "/bc/*", vec![]);
    assert_eq!(topic.node, "node-c");
    assert!(matches!(env, InterNodeMessage::BroadcastFire { ref name_regex, .. } if name_regex == "/bc/*"));
}

#[test]
fn replies_round_trip() {
    assert!(matches!(reply_outcome(Ok(vec![9])), ResponseOutcome::Success(ref b) if b == &vec![9u8]));
    assert!(matches!(outcome_result(reply_outcome(Ok(vec![9]))), Ok(b) if b == vec![9u8]));
    assert!(matches!(outcome_result(reply_outcome(Err("boom".to_string()))), Err(ActorError::InterNodeRemote(m)) if m == "boom"));
}

#[test]
fn decoder_lookup() {
    let types = vec!["A".to_string(), "B".to_string(), "B".to_string()];
    assert_eq!(find_decoder(&types, "B").unwrap(), 1);
    assert!(matches!(find_decoder(&types, "C"), Err(ActorError::InterNodeDecoderMissing(t)) if t == "C"));
}

#[test]
fn pending_requests_are_answered_once() {
    let mut p: PendingRequests<&str> = PendingRequests::new();
    let a = p.issue("first");
    let b = p.issue("second");
    assert_eq!(a, 1);
    assert_eq!(b, 2);
    assert_eq!(p.complete(b), Some("second"));
    assert_eq!(p.complete(b), None);
    assert_eq!(p.complete(99), None);
    assert_eq!(p.complete(a), Some("first"));
}
