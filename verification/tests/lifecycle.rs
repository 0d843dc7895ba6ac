use base64::Engine;
use geo::GeodesicDistance;
use helpline::accounts::{
    create_account_with_salt, plan_create_account_with_salt, CreateAccountInfo, UserDB,
    UserTypeChoice,
};
use helpline::db::Db;
use helpline::errors::Error;
use helpline::help_requests::{
    delete_help_request, get_help_request, help_request_endpoint, plan_delete_help_request,
    plan_request_help, request_help, request_help_with_id, Deletion, HelpRequestDB,
    RequestHelpInfo,
};
use helpline::model::{HelpRequest, HelpRequestState, Location, UserType};
use helpline::ranking::{rank_candidates, Measured};
use helpline::transaction::{commit, transaction, Journal, Write};
use helpline::volunteering::{
    accept_request, accepted_requests, candidates, get_request, marking_as_completed,
    plan_marking_as_completed, request_work, volunteering_endpoint,
};

fn account(username: &str, choice: UserTypeChoice, lat: f64, lon: f64) -> CreateAccountInfo {
    CreateAccountInfo {
        username: username.to_owned(),
        name: format!("{} name", username),
        address: format!("{} street", username),
        location: Location { latitude_bits: lat.to_bits(), longitude_bits: lon.to_bits() },
        user_type: choice,
        password: "pw".to_owned(),
    }
}

fn world() -> (UserDB, HelpRequestDB) {
    let mut users: UserDB = Db::open("users");
    let requests: HelpRequestDB = Db::open("help-requests");
    create_account_with_salt(
        &mut users,
        &account("alice", UserTypeChoice::Senior, 40.000, -75.000),
        [1u8; 32],
    )
    .unwrap();
    create_account_with_salt(
        &mut users,
        &account("bob", UserTypeChoice::Volunteer, 40.001, -75.001),
        [2u8; 32],
    )
    .unwrap();
    create_account_with_salt(
        &mut users,
        &account("carol", UserTypeChoice::Volunteer, 41.0, -74.0),
        [3u8; 32],
    )
    .unwrap();
    (users, requests)
}

fn help_info() -> RequestHelpInfo {
    RequestHelpInfo { picture: "cat.png".to_owned(), notes: "groceries".to_owned() }
}

fn meters(a: Location, b: Location) -> u64 {
    let from = geo::Point::new(f64::from_bits(a.latitude_bits), f64::from_bits(a.longitude_bits));
    let to = geo::Point::new(f64::from_bits(b.latitude_bits), f64::from_bits(b.longitude_bits));
    from.geodesic_distance(&to).to_bits()
}

fn active_id(users: &UserDB, username: &str) -> Option<String> {
    match &users.get(username).unwrap().user_type {
        UserType::Senior(id) => id.clone(),
        UserType::Volunteer(_) => panic!("not a senior"),
    }
}

#[test]
fn senior_and_volunteer_go_through_a_whole_request() {
    let (mut users, mut requests) = world();

    assert_eq!(request_help(&mut users, &mut requests, "alice", &help_info()), Ok(()));
    let id = active_id(&users, "alice").expect("the pointer is stamped");
    let listed = requests.iter();
    assert_eq!(listed.len(), 1);
    assert_eq!(listed[0].0, id);
    assert_eq!(listed[0].1.state, HelpRequestState::Pending);
    assert_eq!(listed[0].1.username, "alice");

    let bob = volunteering_endpoint(&users, "bob").unwrap().clone();
    let listed = candidates(&bob, &requests, &users).unwrap();
    assert_eq!(listed.len(), 1);
    assert_eq!(listed[0].id, id);
    assert_eq!(listed[0].state, HelpRequestState::Pending);
    let ranked = request_work(&bob, &requests, &users, meters).unwrap();
    assert_eq!(ranked.len(), 1);
    assert_eq!(ranked[0].id, id);
    let distance = f64::from_bits(ranked[0].distance_bits);
    assert!(distance >= 0.0 && distance < 200.0);

    assert_eq!(accept_request(&mut users, &mut requests, "bob", &id), Ok(()));
    assert_eq!(requests.get(&id).unwrap().state, HelpRequestState::AcceptedBy("bob".to_owned()));
    let bob = volunteering_endpoint(&users, "bob").unwrap().clone();
    assert_eq!(accepted_requests(&bob), Ok(vec![id.clone()]));

    assert_eq!(marking_as_completed("bob", &id, &mut requests), Ok(()));
    assert_eq!(
        requests.get(&id).unwrap().state,
        HelpRequestState::MarkedCompletedBy("bob".to_owned())
    );

    assert_eq!(delete_help_request(&mut users, &mut requests, "alice"), Ok(Deletion::Deleted));
    assert!(requests.iter().is_empty());
    assert_eq!(active_id(&users, "alice"), None);
}

#[test]
fn request_ids_are_base64_of_sixteen_random_bytes() {
    let (mut users, mut requests) = world();
    request_help(&mut users, &mut requests, "alice", &help_info()).unwrap();
    let id = active_id(&users, "alice").unwrap();
    assert_eq!(id.len(), 24);
    let bytes = base64::engine::general_purpose::URL_SAFE.decode(&id).expect("url-safe base64");
    assert_eq!(bytes.len(), 16);
    assert!(requests.get(&id).unwrap().creation_time > 1_600_000_000_000);
}

#[test]
fn request_help_files_a_pending_request_and_stamps_the_senior() {
    let (mut users, mut requests) = world();
    let done = request_help_with_id(&mut users, &mut requests, "alice", &help_info(), 1234, "id-1");
    assert_eq!(done, Ok(()));
    assert_eq!(
        requests.get("id-1"),
        Some(&HelpRequest {
            picture: "cat.png".to_owned(),
            notes: "groceries".to_owned(),
            creation_time: 1234,
            state: HelpRequestState::Pending,
            username: "alice".to_owned(),
        })
    );
    let alice = users.get("alice").unwrap();
    assert_eq!(alice.user_type, UserType::Senior(Some("id-1".to_owned())));
    assert_eq!(alice.name, "alice name");
    assert_eq!(alice.salt, [1u8; 32]);
}

#[test]
fn a_second_request_is_refused_and_one_request_remains() {
    let (mut users, mut requests) = world();
    request_help(&mut users, &mut requests, "alice", &help_info()).unwrap();
    let id = active_id(&users, "alice").unwrap();
    assert_eq!(
        request_help(&mut users, &mut requests, "alice", &help_info()),
        Err(Error::AlreadyRequestedHelp)
    );
    assert_eq!(
        request_help_with_id(&mut users, &mut requests, "alice", &help_info(), 5, "other"),
        Err(Error::AlreadyRequestedHelp)
    );
    let owned: Vec<String> = requests
        .iter()
        .into_iter()
        .filter(|(_, r)| r.username == "alice")
        .map(|(k, _)| k)
        .collect();
    assert_eq!(owned, vec![id.clone()]);
    assert_eq!(active_id(&users, "alice"), Some(id));
}

#[test]
fn a_request_can_be_filed_again_after_a_withdrawal() {
    let (mut users, mut requests) = world();
    request_help_with_id(&mut users, &mut requests, "alice", &help_info(), 1, "id-1").unwrap();
    delete_help_request(&mut users, &mut requests, "alice").unwrap();
    assert_eq!(
        request_help_with_id(&mut users, &mut requests, "alice", &help_info(), 2, "id-2"),
        Ok(())
    );
    assert_eq!(requests.iter().len(), 1);
    assert_eq!(active_id(&users, "alice"), Some("id-2".to_owned()));
}

#[test]
fn only_a_senior_may_ask_for_help() {
    let (mut users, mut requests) = world();
    assert_eq!(
        request_help(&mut users, &mut requests, "bob", &help_info()),
        Err(Error::NotSenior)
    );
    assert_eq!(
        request_help(&mut users, &mut requests, "nobody", &help_info()),
        Err(Error::Unexpected("Oofy token".to_owned()))
    );
    assert!(requests.iter().is_empty());
    assert_eq!(users.get("bob").unwrap().user_type, UserType::Volunteer(Vec::new()));
    assert_eq!(help_request_endpoint(&users, "bob").err(), Some(Error::NotSenior));
    assert_eq!(volunteering_endpoint(&users, "alice").err(), Some(Error::NotVolunteer));
    assert_eq!(help_request_endpoint(&users, "alice").unwrap().username, "alice");
}

#[test]
fn an_id_that_is_taken_is_refused_without_a_trace() {
    let (mut users, mut requests) = world();
    create_account_with_salt(
        &mut users,
        &account("dora", UserTypeChoice::Senior, 1.0, 1.0),
        [4u8; 32],
    )
    .unwrap();
    request_help_with_id(&mut users, &mut requests, "alice", &help_info(), 1, "id-1").unwrap();
    let clash = request_help_with_id(&mut users, &mut requests, "dora", &help_info(), 2, "id-1");
    assert_eq!(
        clash,
        Err(Error::Unexpected("The id drawn for the help request is taken".to_owned()))
    );
    assert_eq!(requests.get("id-1").unwrap().username, "alice");
    assert_eq!(active_id(&users, "dora"), None);
}

#[test]
fn own_request_is_shown_to_its_senior() {
    let (mut users, mut requests) = world();
    let alice = users.get("alice").unwrap().clone();
    assert_eq!(get_help_request(&alice, &requests), Err(Error::DidntRequestHelp));
    request_help_with_id(&mut users, &mut requests, "alice", &help_info(), 77, "id-1").unwrap();
    let alice = users.get("alice").unwrap().clone();
    let shown = get_help_request(&alice, &requests).unwrap();
    assert_eq!(shown.picture, "cat.png");
    assert_eq!(shown.notes, "groceries");
    assert_eq!(shown.creation_time, 77);
    assert_eq!(shown.state, HelpRequestState::Pending);
    let bob = users.get("bob").unwrap().clone();
    assert_eq!(get_help_request(&bob, &requests), Err(Error::DidntRequestHelp));
}

#[test]
fn a_dangling_pointer_is_an_unexpected_failure() {
    let (mut users, mut requests) = world();
    request_help_with_id(&mut users, &mut requests, "alice", &help_info(), 77, "id-1").unwrap();
    requests.delete("id-1");
    let alice = users.get("alice").unwrap().clone();
    let text = "The ID for the help request stored in the server doesn't exist in the database";
    assert_eq!(get_help_request(&alice, &requests), Err(Error::Unexpected(text.to_owned())));
    assert_eq!(
        delete_help_request(&mut users, &mut requests, "alice"),
        Err(Error::Unexpected(text.to_owned()))
    );
    assert_eq!(active_id(&users, "alice"), Some("id-1".to_owned()));
}

#[test]
fn withdrawing_nothing_succeeds_and_changes_nothing() {
    let (mut users, mut requests) = world();
    request_help_with_id(&mut users, &mut requests, "alice", &help_info(), 1, "id-1").unwrap();
    create_account_with_salt(
        &mut users,
        &account("dora", UserTypeChoice::Senior, 1.0, 1.0),
        [4u8; 32],
    )
    .unwrap();
    assert_eq!(
        delete_help_request(&mut users, &mut requests, "dora"),
        Ok(Deletion::NothingToDelete)
    );
    assert_eq!(requests.iter().len(), 1);
    assert_eq!(active_id(&users, "dora"), None);
    assert_eq!(active_id(&users, "alice"), Some("id-1".to_owned()));
    assert_eq!(delete_help_request(&mut users, &mut requests, "bob"), Err(Error::NotSenior));
}

#[test]
fn completing_is_for_the_volunteer_who_accepted() {
    let (mut users, mut requests) = world();
    request_help_with_id(&mut users, &mut requests, "alice", &help_info(), 1, "id-1").unwrap();
    assert_eq!(
        marking_as_completed("bob", "id-1", &mut requests),
        Err(Error::RequestNotAcceptedByUser)
    );
    accept_request(&mut users, &mut requests, "bob", "id-1").unwrap();
    assert_eq!(
        marking_as_completed("carol", "id-1", &mut requests),
        Err(Error::RequestNotAcceptedByUser)
    );
    assert_eq!(
        requests.get("id-1").unwrap().state,
        HelpRequestState::AcceptedBy("bob".to_owned())
    );
    assert_eq!(marking_as_completed("bob", "id-1", &mut requests), Ok(()));
    assert_eq!(
        marking_as_completed("bob", "id-1", &mut requests),
        Err(Error::RequestNotAcceptedByUser)
    );
    assert_eq!(
        marking_as_completed("bob", "missing", &mut requests),
        Err(Error::RequestDoesntExist)
    );
}

#[test]
fn accepting_appends_to_the_list_in_order() {
    let (mut users, mut requests) = world();
    create_account_with_salt(
        &mut users,
        &account("dora", UserTypeChoice::Senior, 1.0, 1.0),
        [4u8; 32],
    )
    .unwrap();
    request_help_with_id(&mut users, &mut requests, "alice", &help_info(), 1, "id-1").unwrap();
    request_help_with_id(&mut users, &mut requests, "dora", &help_info(), 2, "id-2").unwrap();
    accept_request(&mut users, &mut requests, "bob", "id-2").unwrap();
    accept_request(&mut users, &mut requests, "bob", "id-1").unwrap();
    accept_request(&mut users, &mut requests, "bob", "id-2").unwrap();
    let bob = users.get("bob").unwrap().clone();
    assert_eq!(
        accepted_requests(&bob),
        Ok(vec!["id-2".to_owned(), "id-1".to_owned(), "id-2".to_owned()])
    );
    let alice = users.get("alice").unwrap().clone();
    assert_eq!(
        accepted_requests(&alice),
        Err(Error::Unexpected(
            "The user isn't a volunteer, this case should've been filtered earlier".to_owned()
        ))
    );
}

#[test]
fn accepting_fails_without_touching_anything() {
    let (mut users, mut requests) = world();
    request_help_with_id(&mut users, &mut requests, "alice", &help_info(), 1, "id-1").unwrap();
    assert_eq!(
        accept_request(&mut users, &mut requests, "bob", "missing"),
        Err(Error::RequestDoesntExist)
    );
    assert_eq!(
        accept_request(&mut users, &mut requests, "alice", "id-1"),
        Err(Error::NotVolunteer)
    );
    assert_eq!(
        accept_request(&mut users, &mut requests, "nobody", "id-1"),
        Err(Error::Unexpected("There exists a token for a user that doesn't exist".to_owned()))
    );
    assert_eq!(requests.get("id-1").unwrap().state, HelpRequestState::Pending);
    assert_eq!(users.get("bob").unwrap().user_type, UserType::Volunteer(Vec::new()));
}

#[test]
fn an_accepted_request_can_be_taken_over() {
    let (mut users, mut requests) = world();
    request_help_with_id(&mut users, &mut requests, "alice", &help_info(), 1, "id-1").unwrap();
    accept_request(&mut users, &mut requests, "bob", "id-1").unwrap();
    accept_request(&mut users, &mut requests, "carol", "id-1").unwrap();
    assert_eq!(
        requests.get("id-1").unwrap().state,
        HelpRequestState::AcceptedBy("carol".to_owned())
    );
    assert_eq!(
        marking_as_completed("bob", "id-1", &mut requests),
        Err(Error::RequestNotAcceptedByUser)
    );
}

#[test]
fn request_detail_joins_the_request_and_its_senior() {
    let (mut users, mut requests) = world();
    request_help_with_id(&mut users, &mut requests, "alice", &help_info(), 1, "id-1").unwrap();
    let bob = users.get("bob").unwrap().clone();
    let detail = get_request("id-1", &bob, &users, &requests, meters).unwrap();
    assert_eq!(detail.username, "alice");
    assert_eq!(detail.name, "alice name");
    assert_eq!(detail.address, "alice street");
    assert_eq!(detail.picture, "cat.png");
    assert_eq!(detail.notes, "groceries");
    let alice = users.get("alice").unwrap().clone();
    assert_eq!(detail.distance_bits, meters(bob.location, alice.location));
    let distance = f64::from_bits(detail.distance_bits);
    assert!(distance > 100.0 && distance < 200.0);
    assert_eq!(
        get_request("missing", &bob, &users, &requests, meters).err(),
        Some(Error::RequestDoesntExist)
    );
}

#[test]
fn candidates_cover_the_registry_and_rank_by_distance() {
    let (mut users, mut requests) = world();
    create_account_with_salt(
        &mut users,
        &account("dora", UserTypeChoice::Senior, 41.0, -74.0),
        [4u8; 32],
    )
    .unwrap();
    request_help_with_id(&mut users, &mut requests, "dora", &help_info(), 1, "far").unwrap();
    request_help_with_id(&mut users, &mut requests, "alice", &help_info(), 2, "near").unwrap();
    let bob = users.get("bob").unwrap().clone();
    let listed = candidates(&bob, &requests, &users).unwrap();
    let mut listed_ids: Vec<&str> = listed.iter().map(|c| c.id.as_str()).collect();
    listed_ids.sort();
    assert_eq!(listed_ids, vec!["far", "near"]);
    let measured: Vec<Measured> = listed
        .iter()
        .map(|c| Measured {
            distance_bits: meters(c.volunteer_location, c.senior_location),
            id: c.id.clone(),
        })
        .collect();
    let expected = rank_candidates(&measured);
    let ranked = request_work(&bob, &requests, &users, meters).unwrap();
    assert_eq!(ranked, expected);
    let ids: Vec<&str> = ranked.iter().map(|m| m.id.as_str()).collect();
    assert_eq!(ids, vec!["near", "far"]);
    assert!(f64::from_bits(ranked[0].distance_bits) < f64::from_bits(ranked[1].distance_bits));
}

#[test]
fn requests_at_an_unmeasurable_distance_are_not_offered() {
    let (mut users, mut requests) = world();
    create_account_with_salt(
        &mut users,
        &account("dora", UserTypeChoice::Senior, f64::NAN, 0.0),
        [4u8; 32],
    )
    .unwrap();
    request_help_with_id(&mut users, &mut requests, "dora", &help_info(), 1, "lost").unwrap();
    request_help_with_id(&mut users, &mut requests, "alice", &help_info(), 2, "near").unwrap();
    let bob = users.get("bob").unwrap().clone();
    let unmeasurable = |_: Location, to: Location| {
        if f64::from_bits(to.latitude_bits).is_nan() {
            f64::NAN.to_bits()
        } else {
            12.5f64.to_bits()
        }
    };
    let ranked = request_work(&bob, &requests, &users, unmeasurable).unwrap();
    assert_eq!(ranked.len(), 1);
    assert_eq!(ranked[0].id, "near");
    assert_eq!(f64::from_bits(ranked[0].distance_bits), 12.5);
}

#[test]
fn at_most_a_hundred_requests_are_offered() {
    let (mut users, mut requests) = world();
    for i in 0..120u32 {
        let name = format!("senior{}", i);
        create_account_with_salt(
            &mut users,
            &account(&name, UserTypeChoice::Senior, f64::from(i), 0.0),
            [5u8; 32],
        )
        .unwrap();
        let id = format!("r{}", i);
        request_help_with_id(&mut users, &mut requests, &name, &help_info(), 1, &id).unwrap();
    }
    let bob = users.get("bob").unwrap().clone();
    let by_latitude = |_: Location, to: Location| to.latitude_bits;
    let ranked = request_work(&bob, &requests, &users, by_latitude).unwrap();
    assert_eq!(ranked.len(), 100);
    for (i, m) in ranked.iter().enumerate() {
        assert_eq!(m.id, format!("r{}", i));
    }
}

#[test]
fn a_request_without_its_owner_fails_the_listing() {
    let (users, mut requests) = world();
    requests.add(
        "orphan",
        HelpRequest {
            picture: String::new(),
            notes: String::new(),
            creation_time: 0,
            state: HelpRequestState::Pending,
            username: "ghost".to_owned(),
        },
    );
    let bob = users.get("bob").unwrap().clone();
    let text = "The username in the help request doesn't exist in the database";
    assert_eq!(
        request_work(&bob, &requests, &users, meters),
        Err(Error::Unexpected(text.to_owned()))
    );
    assert_eq!(candidates(&bob, &requests, &users), Err(Error::Unexpected(text.to_owned())));
    assert_eq!(
        get_request("orphan", &bob, &users, &requests, meters).err(),
        Some(Error::Unexpected(
            "The senior in the request doesn't exist in the database".to_owned()
        ))
    );
}

#[test]
fn an_aborted_unit_of_work_leaves_no_write_behind() {
    let (mut users, mut requests) = world();
    let failed: Result<(), Error> = transaction(&mut users, &mut requests, |u, r| {
        let ((), mut journal) = plan_request_help(u, r, "alice", &help_info(), 1, "id-1")?;
        journal.users.clear();
        assert_eq!(journal.requests.len(), 1);
        Err(Error::msg("fault between the two writes"))
    });
    assert_eq!(failed, Err(Error::Unexpected("fault between the two writes".to_owned())));
    assert!(requests.iter().is_empty());
    assert_eq!(active_id(&users, "alice"), None);
}

#[test]
fn a_plan_changes_nothing_until_it_is_committed() {
    let (mut users, mut requests) = world();
    let ((), journal) = plan_request_help(&users, &requests, "alice", &help_info(), 9, "id-9")
        .expect("alice may ask");
    assert!(requests.iter().is_empty());
    assert_eq!(active_id(&users, "alice"), None);
    assert_eq!(journal.requests.len(), 1);
    assert_eq!(journal.users.len(), 1);
    commit(&mut users, &mut requests, journal);
    assert_eq!(requests.get("id-9").unwrap().creation_time, 9);
    assert_eq!(active_id(&users, "alice"), Some("id-9".to_owned()));
}

#[test]
fn plans_of_a_single_collection_leave_the_other_alone() {
    let (mut users, mut requests) = world();
    request_help_with_id(&mut users, &mut requests, "alice", &help_info(), 1, "id-1").unwrap();
    accept_request(&mut users, &mut requests, "bob", "id-1").unwrap();
    let ((), journal) = plan_marking_as_completed("bob", "id-1", &requests).unwrap();
    assert!(journal.users.is_empty());
    assert_eq!(journal.requests.len(), 1);
    let ((), journal) = plan_create_account_with_salt(
        &users,
        &account("erin", UserTypeChoice::Volunteer, 0.0, 0.0),
        [8u8; 32],
    )
    .unwrap();
    assert!(journal.requests.is_empty());
    assert_eq!(journal.users.len(), 1);
    let (outcome, journal) = plan_delete_help_request(&users, &requests, "alice").unwrap();
    assert_eq!(outcome, Deletion::Deleted);
    assert_eq!(journal.requests, vec![Write::Delete("id-1".to_owned())]);
    assert!(requests.contains("id-1"));
}

#[test]
fn a_unit_of_work_applies_its_writes_in_order() {
    let (mut users, mut requests) = world();
    let request = HelpRequest {
        picture: String::new(),
        notes: "n".to_owned(),
        creation_time: 3,
        state: HelpRequestState::Pending,
        username: "alice".to_owned(),
    };
    let kept = request.clone();
    let done = transaction(&mut users, &mut requests, move |_, _| {
        let mut journal = Journal::new();
        journal.requests.push(Write::Put("a".to_owned(), request.clone()));
        journal.requests.push(Write::Put("b".to_owned(), request));
        journal.requests.push(Write::Delete("a".to_owned()));
        journal.users.push(Write::Delete("carol".to_owned()));
        Ok((7u8, journal))
    });
    assert_eq!(done, Ok(7u8));
    assert!(!requests.contains("a"));
    assert_eq!(requests.get("b"), Some(&kept));
    assert!(!users.contains("carol"));
    assert!(users.contains("alice"));
}
