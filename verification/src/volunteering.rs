//! What a volunteer can do: look for requests nearby, read one, accept it,
//! and mark it as completed.

use crate::accounts::UserDB;
use crate::errors::{Error, ErrorView};
use crate::help_requests::{consistent, HelpRequestDB};
use crate::model::{
    copy_texts, texts, HelpRequestState, HelpRequestStateView, HelpRequestView,
    Location, User, UserType, UserTypeView, UserView,
};
use crate::ranking::{
    is_finite, is_ranking, order_key, rank_candidates, views, Measured, CANDIDATE_LIMIT,
};
use crate::transaction::{
    apply, lemma_replay_short, plan_meets, requests_plan_meets, transaction, Journal, Write,
};
use vstd::prelude::*;

verus! {

/// A request seen from a volunteer: where the volunteer is and where the
/// senior who owns the request is.
#[derive(Debug, PartialEq, Eq)]
pub struct Candidate {
    pub id: String,
    /// Where the request stands, for a caller who wants pending ones only.
    pub state: HelpRequestState,
    pub volunteer_location: Location,
    pub senior_location: Location,
}

/// What a volunteer may read of a request and of the senior who owns it.
#[derive(Debug, PartialEq, Eq)]
pub struct RequestDetail {
    pub username: String,
    pub name: String,
    pub picture: String,
    pub notes: String,
    /// The distance from the volunteer to the senior, in metres, as the bit
    /// pattern of its IEEE 754 binary64 value.
    pub distance_bits: u64,
    pub address: String,
}

/// The account every volunteer operation starts from, or the reason the
/// caller is turned away.
pub open spec fn volunteer_guard(users: Map<Seq<char>, UserView>, username: Seq<char>) -> Result<
    UserView,
    ErrorView,
> {
    if !users.contains_key(username) {
        Err(ErrorView::Unexpected("Oofy token"@))
    } else if users[username].user_type is Volunteer {
        Ok(users[username])
    } else {
        Err(ErrorView::NotVolunteer)
    }
}

/// What accepting does to the two collections: the request is marked as
/// accepted by the volunteer and its id joins the end of the volunteer's
/// list, both or neither. The state the request was in is not looked at.
pub open spec fn accept_request_spec(
    users: Map<Seq<char>, UserView>,
    requests: Map<Seq<char>, HelpRequestView>,
    username: Seq<char>,
    id: Seq<char>,
) -> Result<(Map<Seq<char>, UserView>, Map<Seq<char>, HelpRequestView>), ErrorView> {
    if !users.contains_key(username) {
        Err(ErrorView::Unexpected("There exists a token for a user that doesn't exist"@))
    } else {
        match users[username].user_type {
            UserTypeView::Senior(_) => Err(ErrorView::NotVolunteer),
            UserTypeView::Volunteer(accepted) => if !requests.contains_key(id) {
                Err(ErrorView::RequestDoesntExist)
            } else {
                Ok(
                    (
                        users.insert(
                            username,
                            UserView {
                                user_type: UserTypeView::Volunteer(accepted.push(id)),
                                ..users[username]
                            },
                        ),
                        requests.insert(
                            id,
                            HelpRequestView {
                                state: HelpRequestStateView::AcceptedBy(username),
                                ..requests[id]
                            },
                        ),
                    ),
                )
            },
        }
    }
}

/// What marking as completed does to the registry: only the volunteer who
/// holds the request may complete it.
pub open spec fn marking_as_completed_spec(
    requests: Map<Seq<char>, HelpRequestView>,
    username: Seq<char>,
    id: Seq<char>,
) -> Result<Map<Seq<char>, HelpRequestView>, ErrorView> {
    if !requests.contains_key(id) {
        Err(ErrorView::RequestDoesntExist)
    } else if requests[id].state == HelpRequestStateView::AcceptedBy(username) {
        Ok(
            requests.insert(
                id,
                HelpRequestView {
                    state: HelpRequestStateView::MarkedCompletedBy(username),
                    ..requests[id]
                },
            ),
        )
    } else {
        Err(ErrorView::RequestNotAcceptedByUser)
    }
}

/// Loads the account of `username` and checks that it is a volunteer's.
pub fn volunteering_endpoint<'a>(user_db: &'a UserDB, username: &str) -> (res: Result<
    &'a User,
    Error,
>)
    requires
        user_db.wf(),
    ensures
        match (res, volunteer_guard(user_db@, username@)) {
            (Ok(user), Ok(expected)) => user@ == expected,
            (Err(e), Err(expected)) => e@ == expected,
            _ => false,
        },
{
    match user_db.get(username) {
        None => Err(Error::msg("Oofy token")),
        Some(user) => match &user.user_type {
            UserType::Volunteer(_) => Ok(user),
            UserType::Senior(_) => Err(Error::NotVolunteer),
        },
    }
}

/// `list` names every request of the registry once, in scan order, each
/// with its state, the volunteer's place and the place of its owner.
pub open spec fn lists_registry(
    list: Seq<Candidate>,
    user: User,
    help_requests: HelpRequestDB,
    user_db: UserDB,
) -> bool {
    &&& list.len() == help_requests.scan().len()
    &&& forall|i: int|
        0 <= i < list.len() ==> {
            let id = help_requests.scan()[i];
            &&& (#[trigger] list[i]).id@ == id
            &&& list[i].volunteer_location == user.location
            &&& help_requests@.contains_key(id)
            &&& list[i].state@ == help_requests@[id].state
            &&& user_db@.contains_key(help_requests@[id].username)
            &&& list[i].senior_location == user_db@[help_requests@[id].username].location
        }
}

/// Some request of the registry is owned by a username without an account.
pub open spec fn has_orphan(
    requests: Map<Seq<char>, HelpRequestView>,
    users: Map<Seq<char>, UserView>,
) -> bool {
    exists|id: Seq<char>|
        requests.contains_key(id) && !users.contains_key((#[trigger] requests[id]).username)
}

/// Lists every request of the registry with the two places a distance is
/// to be measured between: the volunteer's and the owning senior's. The
/// list follows the registry's scan, one entry for each request.
pub fn candidates(user: &User, help_requests: &HelpRequestDB, user_db: &UserDB) -> (res: Result<
    Vec<Candidate>,
    Error,
>)
    requires
        help_requests.wf(),
        user_db.wf(),
    ensures
        match res {
            Ok(list) => lists_registry(list@, *user, *help_requests, *user_db),
            Err(e) => e@ == ErrorView::Unexpected(
                "The username in the help request doesn't exist in the database"@,
            ) && has_orphan(help_requests@, user_db@),
        },
{
    let pairs = help_requests.iter();
    let mut list: Vec<Candidate> = Vec::new();
    let mut i: usize = 0;
    while i < pairs.len()
        invariant
            user_db.wf(),
            i <= pairs@.len(),
            list@.len() == i,
            pairs@.len() == help_requests.scan().len(),
            forall|j: int|
                0 <= j < pairs@.len() ==> (#[trigger] pairs@[j]).0@ == help_requests.scan()[j]
                    && help_requests@.contains_key(pairs@[j].0@) && pairs@[j].1@
                    == help_requests@[pairs@[j].0@],
            forall|j: int|
                0 <= j < i ==> {
                    let id = help_requests.scan()[j];
                    &&& (#[trigger] list@[j]).id@ == id
                    &&& list@[j].volunteer_location == user.location
                    &&& help_requests@.contains_key(id)
                    &&& list@[j].state@ == help_requests@[id].state
                    &&& user_db@.contains_key(help_requests@[id].username)
                    &&& list@[j].senior_location == user_db@[help_requests@[id].username].location
                },
        decreases pairs@.len() - i,
    {
        let id = &pairs[i].0;
        let request = pairs[i].1;
        match request.get_user(user_db) {
            Ok(senior) => {
                list.push(
                    Candidate {
                        id: id.clone(),
                        state: request.state.clone(),
                        volunteer_location: user.location,
                        senior_location: senior.location,
                    },
                );
            },
            Err(e) => {
                assert(!user_db@.contains_key(help_requests@[pairs@[i as int].0@].username));
                return Err(e);
            },
        }
        i += 1;
    }
    Ok(list)
}

/// `measured` pairs every candidate of `list` with a distance that
/// `distance` gave for its two places, in the order of `list`.
pub open spec fn measures<F: Fn(Location, Location) -> u64>(
    measured: Seq<(u64, Seq<char>)>,
    list: Seq<Candidate>,
    distance: F,
) -> bool {
    &&& measured.len() == list.len()
    &&& forall|i: int|
        0 <= i < list.len() ==> (#[trigger] measured[i]).1 == list[i].id@ && distance.ensures(
            (list[i].volunteer_location, list[i].senior_location),
            measured[i].0,
        )
}

/// The requests a volunteer may take up, nearest first: every request of
/// the registry is measured with `distance` from the volunteer to the
/// owning senior, those whose distance is not a finite number are left out,
/// and the nearest hundred are handed out in order of distance. A distance
/// is the bit pattern of an IEEE 754 binary64 number of metres.
pub fn request_work<F: Fn(Location, Location) -> u64>(
    user: &User,
    help_requests: &HelpRequestDB,
    user_db: &UserDB,
    distance: F,
) -> (res: Result<Vec<Measured>, Error>)
    requires
        help_requests.wf(),
        user_db.wf(),
        forall|from: Location, to: Location| distance.requires((from, to)),
    ensures
        match res {
            Ok(ranked) => {
                &&& ranked@.len() <= CANDIDATE_LIMIT
                &&& forall|i: int|
                    0 <= i < ranked@.len() ==> is_finite(#[trigger] ranked@[i].distance_bits)
                &&& forall|i: int, j: int|
                    0 <= i < j < ranked@.len() ==> order_key(#[trigger] ranked@[i].distance_bits)
                        <= order_key(#[trigger] ranked@[j].distance_bits)
                &&& exists|list: Seq<Candidate>, measured: Seq<(u64, Seq<char>)>|
                    lists_registry(list, *user, *help_requests, *user_db) && #[trigger] measures(
                        measured,
                        list,
                        distance,
                    ) && is_ranking(measured, views(ranked@))
            },
            Err(e) => e@ == ErrorView::Unexpected(
                "The username in the help request doesn't exist in the database"@,
            ) && has_orphan(help_requests@, user_db@),
        },
{
    let list = match candidates(user, help_requests, user_db) {
        Ok(list) => list,
        Err(e) => {
            return Err(e);
        },
    };
    let mut measured: Vec<Measured> = Vec::new();
    let mut i: usize = 0;
    while i < list.len()
        invariant
            i <= list@.len(),
            measured@.len() == i,
            forall|from: Location, to: Location| distance.requires((from, to)),
            forall|j: int|
                0 <= j < i ==> (#[trigger] measured@[j]).id@ == list@[j].id@ && distance.ensures(
                    (list@[j].volunteer_location, list@[j].senior_location),
                    measured@[j].distance_bits,
                ),
        decreases list@.len() - i,
    {
        let candidate = &list[i];
        let distance_bits = distance(candidate.volunteer_location, candidate.senior_location);
        measured.push(Measured { distance_bits, id: candidate.id.clone() });
        i += 1;
    }
    let ranked = rank_candidates(&measured);
    assert(measures(views(measured@), list@, distance));
    Ok(ranked)
}

/// The request under `id` as a volunteer may read it, with the distance
/// that `distance` gives from the volunteer to the senior who owns it.
pub fn get_request<F: Fn(Location, Location) -> u64>(
    id: &str,
    user: &User,
    user_db: &UserDB,
    help_requests: &HelpRequestDB,
    distance: F,
) -> (res: Result<RequestDetail, Error>)
    requires
        user_db.wf(),
        help_requests.wf(),
        forall|from: Location, to: Location| distance.requires((from, to)),
    ensures
        match res {
            Ok(detail) => {
                &&& help_requests@.contains_key(id@)
                &&& user_db@.contains_key(help_requests@[id@].username)
                &&& detail.username@ == user_db@[help_requests@[id@].username].username
                &&& detail.name@ == user_db@[help_requests@[id@].username].name
                &&& detail.address@ == user_db@[help_requests@[id@].username].address
                &&& detail.picture@ == help_requests@[id@].picture
                &&& detail.notes@ == help_requests@[id@].notes
                &&& distance.ensures(
                    (user.location, user_db@[help_requests@[id@].username].location),
                    detail.distance_bits,
                )
            },
            Err(e) => if !help_requests@.contains_key(id@) {
                e@ == ErrorView::RequestDoesntExist
            } else {
                !user_db@.contains_key(help_requests@[id@].username) && e@
                    == ErrorView::Unexpected(
                    "The senior in the request doesn't exist in the database"@,
                )
            },
        },
{
    match help_requests.get(id) {
        Some(request) => {
            let senior = match user_db.get(request.username.as_str()) {
                Some(v) => v,
                None => {
                    return Err(
                        Error::msg("The senior in the request doesn't exist in the database"),
                    );
                },
            };
            let distance_bits = distance(user.location, senior.location);
            Ok(
                RequestDetail {
                    username: senior.username.clone(),
                    name: senior.name.clone(),
                    picture: request.picture.clone(),
                    notes: request.notes.clone(),
                    distance_bits,
                    address: senior.address.clone(),
                },
            )
        },
        None => Err(Error::RequestDoesntExist),
    }
}

/// The writes that accept the request under `id` for the volunteer
/// `username`, or the reason why it is not accepted.
pub fn plan_accept_request(
    user_db: &UserDB,
    help_requests: &HelpRequestDB,
    username: &str,
    id: &str,
) -> (res: Result<((), Journal), Error>)
    requires
        user_db.wf(),
        help_requests.wf(),
    ensures
        plan_meets(
            res,
            accept_request_spec(user_db@, help_requests@, username@, id@),
            user_db@,
            help_requests@,
        ),
{
    let user = match user_db.get(username) {
        Some(user) => user.clone(),
        None => {
            return Err(Error::msg("There exists a token for a user that doesn't exist"));
        },
    };
    let User { username: holder, name, address, location, user_type, salt, password_hash } = user;
    let mut accepted = match user_type {
        UserType::Volunteer(accepted) => accepted,
        UserType::Senior(_) => {
            return Err(Error::NotVolunteer);
        },
    };
    let mut help_request = match help_requests.get(id) {
        Some(v) => v.clone(),
        None => {
            return Err(Error::RequestDoesntExist);
        },
    };
    help_request.state = HelpRequestState::AcceptedBy(username.to_owned());
    let ghost before = accepted@;
    accepted.push(id.to_owned());
    assert(texts(accepted@) =~= texts(before).push(id@));
    let user = User {
        username: holder,
        name,
        address,
        location,
        user_type: UserType::Volunteer(accepted),
        salt,
        password_hash,
    };
    let mut journal = Journal::new();
    journal.requests.push(Write::Put(id.to_owned(), help_request));
    journal.users.push(Write::Put(username.to_owned(), user));
    proof {
        assert(journal.users@ =~= seq![journal.users@[0]]);
        assert(journal.requests@ =~= seq![journal.requests@[0]]);
        lemma_replay_short(journal.users@[0], user_db@);
        lemma_replay_short(journal.requests@[0], help_requests@);
    }
    Ok(((), journal))
}

/// Accepts the request under `id` for the volunteer `username`: the request
/// changes hands and the volunteer's list grows in one unit of work. On any
/// failure both collections stay as they were.
pub fn accept_request(
    user_db: &mut UserDB,
    help_requests: &mut HelpRequestDB,
    username: &str,
    id: &str,
) -> (res: Result<(), Error>)
    requires
        old(user_db).wf(),
        old(help_requests).wf(),
    ensures
        final(user_db).wf(),
        final(help_requests).wf(),
        match (res, accept_request_spec(old(user_db)@, old(help_requests)@, username@, id@)) {
            (Ok(_), Ok(after)) => final(user_db)@ == after.0 && final(help_requests)@ == after.1,
            (Err(e), Err(expected)) => e@ == expected && final(user_db)@ == old(user_db)@
                && final(help_requests)@ == old(help_requests)@,
            _ => false,
        },
{
    let body = |u: &UserDB, r: &HelpRequestDB| -> (planned: Result<((), Journal), Error>)
        requires
            u.wf(),
            r.wf(),
        ensures
            plan_meets(planned, accept_request_spec(u@, r@, username@, id@), u@, r@),
        { plan_accept_request(u, r, username, id) };
    transaction(user_db, help_requests, body)
}

/// The ids of the requests a volunteer accepted, oldest first.
pub fn accepted_requests(user: &User) -> (res: Result<Vec<String>, Error>)
    ensures
        match res {
            Ok(ids) => user@.user_type == UserTypeView::Volunteer(texts(ids@)),
            Err(e) => user@.user_type is Senior && e@ == ErrorView::Unexpected(
                "The user isn't a volunteer, this case should've been filtered earlier"@,
            ),
        },
{
    match &user.user_type {
        UserType::Volunteer(accepted) => Ok(copy_texts(accepted)),
        UserType::Senior(_) => Err(
            Error::msg("The user isn't a volunteer, this case should've been filtered earlier"),
        ),
    }
}

/// The write that marks the request under `id` as completed by `username`,
/// who must be the volunteer that holds it, or the reason why it is not
/// marked.
pub fn plan_marking_as_completed(username: &str, id: &str, help_requests: &HelpRequestDB) -> (res:
    Result<((), Journal), Error>)
    requires
        help_requests.wf(),
    ensures
        requests_plan_meets(
            res,
            marking_as_completed_spec(help_requests@, username@, id@),
            help_requests@,
        ),
{
    let mut request = match help_requests.get(id) {
        Some(v) => v.clone(),
        None => {
            return Err(Error::RequestDoesntExist);
        },
    };
    let wanted = username.to_owned();
    let held = match &request.state {
        HelpRequestState::AcceptedBy(accepted_by) => *accepted_by == wanted,
        _ => false,
    };
    if !held {
        return Err(Error::RequestNotAcceptedByUser);
    }
    request.state = HelpRequestState::MarkedCompletedBy(wanted);
    let mut journal = Journal::new();
    journal.requests.push(Write::Put(id.to_owned(), request));
    proof {
        assert(journal.requests@ =~= seq![journal.requests@[0]]);
        lemma_replay_short(journal.requests@[0], help_requests@);
    }
    Ok(((), journal))
}

/// Marks the request under `id` as completed by `username`, who must be
/// the volunteer that holds it. On any failure the registry stays as it
/// was.
pub fn marking_as_completed(username: &str, id: &str, help_requests: &mut HelpRequestDB) -> (res:
    Result<(), Error>)
    requires
        old(help_requests).wf(),
    ensures
        final(help_requests).wf(),
        match (res, marking_as_completed_spec(old(help_requests)@, username@, id@)) {
            (Ok(_), Ok(after)) => final(help_requests)@ == after,
            (Err(e), Err(expected)) => e@ == expected && final(help_requests)@ == old(
                help_requests
            )@,
            _ => false,
        },
{
    match plan_marking_as_completed(username, id, help_requests) {
        Ok((_, journal)) => {
            apply(help_requests, journal.requests);
            Ok(())
        },
        Err(e) => Err(e),
    }
}

/// Accepting a request keeps the two collections consistent.
pub proof fn law_accept_keeps_consistency(
    users: Map<Seq<char>, UserView>,
    requests: Map<Seq<char>, HelpRequestView>,
    username: Seq<char>,
    id: Seq<char>,
)
    requires
        consistent(users, requests),
        accept_request_spec(users, requests, username, id) is Ok,
    ensures
        ({
            let after = accept_request_spec(users, requests, username, id)->Ok_0;
            consistent(after.0, after.1)
        }),
{
    let after = accept_request_spec(users, requests, username, id)->Ok_0;
    let users2 = after.0;
    let requests2 = after.1;
    assert forall|u: Seq<char>, k: Seq<char>|
        users2.contains_key(u) && (#[trigger] users2[u]).user_type == UserTypeView::Senior(
            Some(k),
        ) implies requests2.contains_key(k) && (#[trigger] requests2[k]).username == u by {
        assert(users[u].user_type == UserTypeView::Senior(Some(k)));
        assert(requests[k].username == u);
    }
    assert forall|k: Seq<char>| requests2.contains_key(k) implies users2.contains_key(
        (#[trigger] requests2[k]).username,
    ) && users2[requests2[k].username].user_type == UserTypeView::Senior(Some(k)) by {
        assert(requests[k].username == requests2[k].username);
    }
}

/// Marking a request as completed keeps the two collections consistent.
pub proof fn law_completion_keeps_consistency(
    users: Map<Seq<char>, UserView>,
    requests: Map<Seq<char>, HelpRequestView>,
    username: Seq<char>,
    id: Seq<char>,
)
    requires
        consistent(users, requests),
        marking_as_completed_spec(requests, username, id) is Ok,
    ensures
        consistent(users, marking_as_completed_spec(requests, username, id)->Ok_0),
{
    let requests2 = marking_as_completed_spec(requests, username, id)->Ok_0;
    assert forall|u: Seq<char>, k: Seq<char>|
        users.contains_key(u) && (#[trigger] users[u]).user_type == UserTypeView::Senior(Some(k))
        implies requests2.contains_key(k) && (#[trigger] requests2[k]).username == u by {
        assert(requests[k].username == u);
    }
    assert forall|k: Seq<char>| requests2.contains_key(k) implies users.contains_key(
        (#[trigger] requests2[k]).username,
    ) && users[requests2[k].username].user_type == UserTypeView::Senior(Some(k)) by {
        assert(requests[k].username == requests2[k].username);
    }
}

/// The life of a request: once a volunteer accepts it, it is held by that
/// volunteer, whatever state it was in; the same volunteer can then mark it
/// as completed, and any other volunteer who tries is refused.
pub proof fn law_accept_then_complete(
    users: Map<Seq<char>, UserView>,
    requests: Map<Seq<char>, HelpRequestView>,
    username: Seq<char>,
    id: Seq<char>,
    other: Seq<char>,
)
    requires
        accept_request_spec(users, requests, username, id) is Ok,
        other != username,
    ensures
        ({
            let accepted = accept_request_spec(users, requests, username, id)->Ok_0;
            &&& accepted.1[id].state == HelpRequestStateView::AcceptedBy(username)
            &&& accepted.0[username].user_type is Volunteer
            &&& accepted.0[username].user_type->Volunteer_0.last() == id
            &&& marking_as_completed_spec(accepted.1, other, id) == Err::<
                Map<Seq<char>, HelpRequestView>,
                ErrorView,
            >(ErrorView::RequestNotAcceptedByUser)
            &&& marking_as_completed_spec(accepted.1, username, id) is Ok
            &&& marking_as_completed_spec(accepted.1, username, id)->Ok_0[id].state
                == HelpRequestStateView::MarkedCompletedBy(username)
            &&& marking_as_completed_spec(
                marking_as_completed_spec(accepted.1, username, id)->Ok_0,
                username,
                id,
            ) is Err
        }),
{
}

} // verus!
