use helpline::db::Db;
use helpline::model::{HelpRequest, HelpRequestState};

fn request(owner: &str, notes: &str) -> HelpRequest {
    HelpRequest {
        picture: "pic".to_owned(),
        notes: notes.to_owned(),
        creation_time: 17,
        state: HelpRequestState::Pending,
        username: owner.to_owned(),
    }
}

#[test]
fn a_fresh_collection_is_empty() {
    let db: Db<HelpRequest> = Db::open("help-requests");
    assert_eq!(db.name(), "help-requests");
    assert!(!db.contains("a"));
    assert!(db.get("a").is_none());
    assert!(db.iter().is_empty());
}

#[test]
fn add_then_get_returns_the_record() {
    let mut db: Db<HelpRequest> = Db::open("help-requests");
    db.add("a", request("alice", "one"));
    assert!(db.contains("a"));
    assert_eq!(db.get("a"), Some(&request("alice", "one")));
    assert!(db.get("b").is_none());
}

#[test]
fn add_replaces_the_record_under_a_key() {
    let mut db: Db<HelpRequest> = Db::open("help-requests");
    db.add("a", request("alice", "one"));
    db.add("b", request("bob", "two"));
    db.add("a", request("alice", "three"));
    assert_eq!(db.get("a"), Some(&request("alice", "three")));
    assert_eq!(db.get("b"), Some(&request("bob", "two")));
    assert_eq!(db.iter().len(), 2);
}

#[test]
fn delete_hands_out_the_prior_record() {
    let mut db: Db<HelpRequest> = Db::open("help-requests");
    db.add("a", request("alice", "one"));
    db.add("b", request("bob", "two"));
    assert_eq!(db.delete("a"), Some(request("alice", "one")));
    assert_eq!(db.delete("a"), None);
    assert!(!db.contains("a"));
    assert_eq!(db.get("b"), Some(&request("bob", "two")));
}

#[test]
fn iter_visits_every_pair_once() {
    let mut db: Db<HelpRequest> = Db::open("help-requests");
    db.add("a", request("alice", "one"));
    db.add("b", request("bob", "two"));
    db.add("c", request("carol", "three"));
    db.delete("b");
    let mut keys: Vec<String> = db.iter().into_iter().map(|(k, _)| k).collect();
    keys.sort();
    assert_eq!(keys, vec!["a".to_owned(), "c".to_owned()]);
    for (key, value) in db.iter() {
        assert_eq!(db.get(&key), Some(value));
    }
}

#[test]
fn update_applies_the_mutator_to_a_present_key() {
    let mut db: Db<HelpRequest> = Db::open("help-requests");
    db.add("a", request("alice", "one"));
    let done = db.update("a", |mut r: HelpRequest| {
        r.state = HelpRequestState::AcceptedBy("bob".to_owned());
        r
    });
    assert_eq!(done, Some(()));
    let mut expected = request("alice", "one");
    expected.state = HelpRequestState::AcceptedBy("bob".to_owned());
    assert_eq!(db.get("a"), Some(&expected));
}

#[test]
fn update_of_an_absent_key_changes_nothing() {
    let mut db: Db<HelpRequest> = Db::open("help-requests");
    db.add("a", request("alice", "one"));
    let done = db.update("zz", |r: HelpRequest| r);
    assert_eq!(done, None);
    assert_eq!(db.iter().len(), 1);
    assert_eq!(db.get("a"), Some(&request("alice", "one")));
}
