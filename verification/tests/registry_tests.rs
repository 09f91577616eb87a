use xan_actor::error::ActorError;
use xan_actor::registry::{JobTable, Registry};
use xan_actor::LifeCycle;

fn names(v: &[String]) -> Vec<&str> {
    v.iter().map(|s| s.as_str()).collect()
}

#[test]
fn duplicated_registration_is_refused() {
    let mut reg: Registry<u32> = Registry::new();
    assert!(reg.register("/some/address/1/2".to_string(), "MyActor1".to_string(), 1, LifeCycle::Starting, false).is_ok());
    let dup = reg.register("/some/address/1/2".to_string(), "MyActor2".to_string(), 2, LifeCycle::Starting, false);
    match dup {
        Err(ActorError::AddressAlreadyExist(a)) => assert_eq!(a, "/some/address/1/2"),
        other => panic!("unexpected {:?}", other),
    }
    // the first record is kept
    assert_eq!(reg.record("/some/address/1/2").unwrap().actor_type, "MyActor1");
    assert_eq!(reg.record("/some/address/1/2").unwrap().handle, 1);
}

#[test]
fn restart_registration_replaces_record() {
    let mut reg: Registry<u32> = Registry::new();
    reg.register("/a/1".to_string(), "A".to_string(), 1, LifeCycle::Starting, false).unwrap();
    reg.register("/a/1".to_string(), "A".to_string(), 7, LifeCycle::Restarting, true).unwrap();
    let rec = reg.record("/a/1").unwrap();
    assert_eq!(rec.handle, 7);
    assert_eq!(rec.life_cycle, LifeCycle::Restarting);
}

#[test]
fn find_reports_readiness_and_type() {
    let mut reg: Registry<u32> = Registry::new();
    reg.register("/a/1".to_string(), "A".to_string(), 5, LifeCycle::Starting, false).unwrap();
    assert_eq!(reg.find("/a/1", "A"), Some((&5, false)));
    // not yet receiving: handed out as not ready even for another type
    assert_eq!(reg.find("/a/1", "B"), Some((&5, false)));
    reg.set_life_cycle("/a/1", LifeCycle::Receiving);
    assert_eq!(reg.find("/a/1", "A"), Some((&5, true)));
    assert_eq!(reg.find("/a/1", "B"), None);
    assert_eq!(reg.find("/a/2", "A"), None);
    // unknown names are ignored
    reg.set_life_cycle("/nobody", LifeCycle::Receiving);
    assert!(reg.record("/nobody").is_none());
}

#[test]
fn filter_matches_wildcards_in_registration_order() {
    let mut reg: Registry<u32> = Registry::new();
    for (i, n) in ["/some/address/1/1", "/some/address/2/1", "/some/address/1/2"].iter().enumerate() {
        reg.register(n.to_string(), "A".to_string(), i as u32, LifeCycle::Receiving, false).unwrap();
    }
    let hit = reg.filter("/some/address/1/*").unwrap();
    assert_eq!(names(&hit), vec!["/some/address/1/1", "/some/address/1/2"]);
    let all = reg.filter("*").unwrap();
    assert_eq!(all.len(), 3);
    let exact = reg.filter("/some/address/2/1").unwrap();
    assert_eq!(names(&exact), vec!["/some/address/2/1"]);
    // regular-expression syntax beside `*` keeps its meaning
    let dotted = reg.filter("/some/address/.*").unwrap();
    assert_eq!(dotted.len(), 3);
    assert!(reg.filter("(").is_err());
}

#[test]
fn restart_marks_matches_restarting() {
    let mut reg: Registry<u32> = Registry::new();
    reg.register("/a/1".to_string(), "A".to_string(), 1, LifeCycle::Receiving, false).unwrap();
    reg.register("/b/1".to_string(), "A".to_string(), 2, LifeCycle::Receiving, false).unwrap();
    let hit = reg.restart_matching("/a/*").unwrap();
    assert_eq!(names(&hit), vec!["/a/1"]);
    assert_eq!(reg.record("/a/1").unwrap().life_cycle, LifeCycle::Restarting);
    assert_eq!(reg.record("/b/1").unwrap().life_cycle, LifeCycle::Receiving);
    assert_eq!(reg.find("/a/1", "A"), Some((&1, false)));
    assert!(reg.restart_matching("[").is_err());
}

#[test]
fn unregister_removes_matches() {
    let mut reg: Registry<u32> = Registry::new();
    reg.register("/a/1".to_string(), "A".to_string(), 1, LifeCycle::Receiving, false).unwrap();
    reg.register("/b/1".to_string(), "A".to_string(), 2, LifeCycle::Receiving, false).unwrap();
    reg.register("/a/2".to_string(), "A".to_string(), 3, LifeCycle::Receiving, false).unwrap();
    let removed = reg.unregister_matching("/a/*").unwrap();
    let removed_names: Vec<&str> = removed.iter().map(|r| r.name.as_str()).collect();
    assert_eq!(removed_names, vec!["/a/1", "/a/2"]);
    assert_eq!(removed[1].handle, 3);
    assert!(reg.find("/a/1", "A").is_none());
    assert!(reg.find("/a/2", "A").is_none());
    assert_eq!(reg.find("/b/1", "A"), Some((&2, true)));
    // the name is free again
    assert!(reg.register("/a/1".to_string(), "A".to_string(), 9, LifeCycle::Starting, false).is_ok());
    let everything = reg.unregister_matching("*").unwrap();
    assert_eq!(everything.len(), 2);
    assert!(reg.filter("*").unwrap().is_empty());
}

#[test]
fn remove_exact_name() {
    let mut reg: Registry<u32> = Registry::new();
    reg.register("/a/1".to_string(), "A".to_string(), 1, LifeCycle::Receiving, false).unwrap();
    assert!(reg.remove("/a/2").is_none());
    assert_eq!(reg.remove("/a/1").unwrap().handle, 1);
    assert!(reg.record("/a/1").is_none());
}

#[test]
fn job_table_read_after_write() {
    let mut jobs: JobTable<u8> = JobTable::new();
    assert!(jobs.get("job").is_none());
    jobs.insert("job".to_string(), 1);
    jobs.insert("other".to_string(), 2);
    assert_eq!(jobs.get("job"), Some(&1));
    jobs.insert("job".to_string(), 3);
    assert_eq!(jobs.get("job"), Some(&3));
    assert_eq!(jobs.get("other"), Some(&2));
}

#[test]
fn aborted_job_is_removed() {
    let mut jobs: JobTable<u8> = JobTable::new();
    jobs.insert("job".to_string(), 1);
    jobs.insert("other".to_string(), 2);
    assert_eq!(jobs.remove("job"), Some(1));
    assert!(jobs.get("job").is_none());
    assert_eq!(jobs.remove("job"), None);
    assert_eq!(jobs.get("other"), Some(&2));
}
