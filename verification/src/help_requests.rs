//! What a senior can do: ask for help, look at the open request, and
//! withdraw it.

use crate::accounts::UserDB;
use crate::db::Db;
use crate::errors::{Error, ErrorView};
use crate::model::{
    HelpRequest, HelpRequestState, HelpRequestStateView, HelpRequestView, User, UserType,
    UserTypeView, UserView,
};
use crate::primitives::{base64_url_safe, encode_base64, random_bytes, unix_millis};
use crate::transaction::{
    lemma_replay_none, lemma_replay_short, plan_meets, transaction, Journal, Write,
};
use vstd::prelude::*;

verus! {

/// The registry of help requests, keyed by id.
pub type HelpRequestDB = Db<HelpRequest>;

/// How many candidate ids `request_help` draws before it gives up: more
/// than it could ever need, since a drawn id is taken once in 2^128 tries
/// for each request on file.
pub const ID_ATTEMPTS: u64 = 0xffff_ffff_ffff_ffff;

/// What a senior supplies with a request for help.
#[derive(Debug)]
pub struct RequestHelpInfo {
    pub picture: String,
    pub notes: String,
}

/// How a withdrawal ended.
#[derive(Clone, Copy, Debug, PartialEq, Eq, Structural)]
pub enum Deletion {
    Deleted,
    NothingToDelete,
}

/// The two collections agree with each other: every account is stored under
/// its own username, a senior's open request exists and belongs to that
/// senior, and every request in the registry is the open request of its
/// owner.
pub open spec fn consistent(
    users: Map<Seq<char>, UserView>,
    requests: Map<Seq<char>, HelpRequestView>,
) -> bool {
    &&& forall|u: Seq<char>| users.contains_key(u) ==> (#[trigger] users[u]).username == u
    &&& forall|u: Seq<char>, id: Seq<char>|
        users.contains_key(u) && (#[trigger] users[u]).user_type == UserTypeView::Senior(Some(id))
            ==> requests.contains_key(id) && (#[trigger] requests[id]).username == u
    &&& forall|id: Seq<char>|
        requests.contains_key(id) ==> users.contains_key((#[trigger] requests[id]).username)
            && users[requests[id].username].user_type == UserTypeView::Senior(Some(id))
}

/// The account every senior operation starts from, or the reason the caller
/// is turned away.
pub open spec fn senior_guard(users: Map<Seq<char>, UserView>, username: Seq<char>) -> Result<
    UserView,
    ErrorView,
> {
    if !users.contains_key(username) {
        Err(ErrorView::Unexpected("Oofy token"@))
    } else if users[username].user_type is Senior {
        Ok(users[username])
    } else {
        Err(ErrorView::NotSenior)
    }
}

/// `username` is a senior without an open request.
pub open spec fn may_ask(users: Map<Seq<char>, UserView>, username: Seq<char>) -> bool {
    senior_guard(users, username) is Ok && senior_guard(users, username)->Ok_0.user_type
        == UserTypeView::Senior(None)
}

/// The request that `request_help` files.
pub open spec fn pending_request(
    username: Seq<char>,
    picture: Seq<char>,
    notes: Seq<char>,
    now: i64,
) -> HelpRequestView {
    HelpRequestView {
        picture,
        notes,
        creation_time: now,
        state: HelpRequestStateView::Pending,
        username,
    }
}

/// What asking for help does to the two collections. The request is filed
/// under `id` and the senior's account points to it; both happen or
/// neither.
pub open spec fn request_help_spec(
    users: Map<Seq<char>, UserView>,
    requests: Map<Seq<char>, HelpRequestView>,
    username: Seq<char>,
    picture: Seq<char>,
    notes: Seq<char>,
    now: i64,
    id: Seq<char>,
) -> Result<(Map<Seq<char>, UserView>, Map<Seq<char>, HelpRequestView>), ErrorView> {
    match senior_guard(users, username) {
        Err(e) => Err(e),
        Ok(user) => if user.user_type != UserTypeView::Senior(None) {
            Err(ErrorView::AlreadyRequestedHelp)
        } else if requests.contains_key(id) {
            Err(ErrorView::Unexpected("The id drawn for the help request is taken"@))
        } else {
            Ok(
                (
                    users.insert(
                        username,
                        UserView { user_type: UserTypeView::Senior(Some(id)), ..user },
                    ),
                    requests.insert(id, pending_request(username, picture, notes, now)),
                ),
            )
        },
    }
}

/// What a senior gets when asking for the open request.
pub open spec fn get_help_request_spec(
    user: UserView,
    requests: Map<Seq<char>, HelpRequestView>,
) -> Result<HelpRequestView, ErrorView> {
    match user.user_type {
        UserTypeView::Senior(Some(id)) => if requests.contains_key(id) {
            Ok(requests[id])
        } else {
            Err(
                ErrorView::Unexpected(
                    "The ID for the help request stored in the server doesn't exist in the database"@,
                ),
            )
        },
        _ => Err(ErrorView::DidntRequestHelp),
    }
}

/// What withdrawing does to the two collections. Without an open request
/// nothing changes; with one, the request leaves the registry and the
/// account's pointer is cleared, both or neither.
pub open spec fn delete_help_request_spec(
    users: Map<Seq<char>, UserView>,
    requests: Map<Seq<char>, HelpRequestView>,
    username: Seq<char>,
) -> Result<(Deletion, Map<Seq<char>, UserView>, Map<Seq<char>, HelpRequestView>), ErrorView> {
    if !users.contains_key(username) {
        Err(ErrorView::Unexpected("There exists a token for a username that doesn't exist"@))
    } else {
        match users[username].user_type {
            UserTypeView::Senior(Some(id)) => if requests.contains_key(id) {
                Ok(
                    (
                        Deletion::Deleted,
                        users.insert(
                            username,
                            UserView { user_type: UserTypeView::Senior(None), ..users[username] },
                        ),
                        requests.remove(id),
                    ),
                )
            } else {
                Err(
                    ErrorView::Unexpected(
                        "The ID for the help request stored in the server doesn't exist in the database"@,
                    ),
                )
            },
            UserTypeView::Senior(None) => Ok((Deletion::NothingToDelete, users, requests)),
            UserTypeView::Volunteer(_) => Err(ErrorView::NotSenior),
        }
    }
}

/// The collections `users_after` and `requests_after` are what asking for
/// help leaves behind for some time stamp and for the id that encodes some
/// sixteen bytes.
pub open spec fn filed_somehow(
    users: Map<Seq<char>, UserView>,
    requests: Map<Seq<char>, HelpRequestView>,
    username: Seq<char>,
    picture: Seq<char>,
    notes: Seq<char>,
    users_after: Map<Seq<char>, UserView>,
    requests_after: Map<Seq<char>, HelpRequestView>,
) -> bool {
    exists|now: i64, bytes: Seq<u8>|
        bytes.len() == 16 && #[trigger] request_help_spec(
            users,
            requests,
            username,
            picture,
            notes,
            now,
            base64_url_safe(bytes),
        ) == Ok::<(Map<Seq<char>, UserView>, Map<Seq<char>, HelpRequestView>), ErrorView>(
            (users_after, requests_after),
        )
}

/// Why asking for help under a fresh id fails: anyone who is no senior is
/// turned away, and so is a senior who has a request open. Any other failure
/// is an unexpected one, and there is none while the registry is empty, as
/// no id can then be taken.
pub open spec fn new_request_refused(
    e: ErrorView,
    users: Map<Seq<char>, UserView>,
    requests: Map<Seq<char>, HelpRequestView>,
    username: Seq<char>,
) -> bool {
    match senior_guard(users, username) {
        Err(expected) => e == expected,
        Ok(user) => if user.user_type != UserTypeView::Senior(None) {
            e == ErrorView::AlreadyRequestedHelp
        } else {
            e is Unexpected && !(requests.dom() =~= Set::<Seq<char>>::empty())
        },
    }
}

impl HelpRequest {
    /// The account of the senior who owns the request.
    pub fn get_user<'a>(&self, user_db: &'a UserDB) -> (res: Result<&'a User, Error>)
        requires
            user_db.wf(),
        ensures
            match res {
                Ok(user) => user_db@.contains_key(self.username@) && user@
                    == user_db@[self.username@],
                Err(e) => !user_db@.contains_key(self.username@) && e@ == ErrorView::Unexpected(
                    "The username in the help request doesn't exist in the database"@,
                ),
            },
    {
        match user_db.get(self.username.as_str()) {
            Some(user) => Ok(user),
            None => Err(
                Error::msg("The username in the help request doesn't exist in the database"),
            ),
        }
    }
}

/// Loads the account of `username` and checks that it is a senior's.
pub fn help_request_endpoint<'a>(user_db: &'a UserDB, username: &str) -> (res: Result<
    &'a User,
    Error,
>)
    requires
        user_db.wf(),
    ensures
        match (res, senior_guard(user_db@, username@)) {
            (Ok(user), Ok(expected)) => user@ == expected,
            (Err(e), Err(expected)) => e@ == expected,
            _ => false,
        },
{
    match user_db.get(username) {
        None => Err(Error::msg("Oofy token")),
        Some(user) => match &user.user_type {
            UserType::Senior(_) => Ok(user),
            UserType::Volunteer(_) => Err(Error::NotSenior),
        },
    }
}

/// The writes that file a request for help under the given id, at the
/// given time, or the reason why none is filed.
pub fn plan_request_help(
    users: &UserDB,
    help_requests: &HelpRequestDB,
    username: &str,
    info: &RequestHelpInfo,
    now: i64,
    id: &str,
) -> (res: Result<((), Journal), Error>)
    requires
        users.wf(),
        help_requests.wf(),
    ensures
        plan_meets(
            res,
            request_help_spec(
                users@,
                help_requests@,
                username@,
                info.picture@,
                info.notes@,
                now,
                id@,
            ),
            users@,
            help_requests@,
        ),
{
    let mut stamped = match help_request_endpoint(users, username) {
        Ok(user) => user.clone(),
        Err(e) => {
            return Err(e);
        },
    };
    if let UserType::Senior(Some(_)) = &stamped.user_type {
        return Err(Error::AlreadyRequestedHelp);
    }
    if help_requests.contains(id) {
        return Err(Error::msg("The id drawn for the help request is taken"));
    }
    let help_request = HelpRequest {
        picture: info.picture.clone(),
        notes: info.notes.clone(),
        creation_time: now,
        state: HelpRequestState::Pending,
        username: username.to_owned(),
    };
    stamped.user_type = UserType::Senior(Some(id.to_owned()));
    let mut journal = Journal::new();
    journal.requests.push(Write::Put(id.to_owned(), help_request));
    journal.users.push(Write::Put(username.to_owned(), stamped));
    proof {
        assert(journal.users@ =~= seq![journal.users@[0]]);
        assert(journal.requests@ =~= seq![journal.requests@[0]]);
        lemma_replay_short(journal.users@[0], users@);
        lemma_replay_short(journal.requests@[0], help_requests@);
    }
    Ok(((), journal))
}

/// Files a request for help under the given id, at the given time: the
/// request is stored and the senior's account stamped in one unit of work.
pub fn request_help_with_id(
    users: &mut UserDB,
    help_requests: &mut HelpRequestDB,
    username: &str,
    info: &RequestHelpInfo,
    now: i64,
    id: &str,
) -> (res: Result<(), Error>)
    requires
        old(users).wf(),
        old(help_requests).wf(),
    ensures
        final(users).wf(),
        final(help_requests).wf(),
        match (
            res,
            request_help_spec(
                old(users)@,
                old(help_requests)@,
                username@,
                info.picture@,
                info.notes@,
                now,
                id@,
            ),
        ) {
            (Ok(_), Ok(after)) => final(users)@ == after.0 && final(help_requests)@ == after.1,
            (Err(e), Err(expected)) => e@ == expected && final(users)@ == old(users)@
                && final(help_requests)@ == old(help_requests)@,
            _ => false,
        },
{
    let body = |u: &UserDB, r: &HelpRequestDB| -> (planned: Result<((), Journal), Error>)
        requires
            u.wf(),
            r.wf(),
        ensures
            plan_meets(
                planned,
                request_help_spec(u@, r@, username@, info.picture@, info.notes@, now, id@),
                u@,
                r@,
            ),
        { plan_request_help(u, r, username, info, now, id) };
    transaction(users, help_requests, body)
}

/// `planned` is what asking for help comes to for some time stamp and some
/// fresh id, or the refusal that is due.
pub open spec fn new_request_planned(
    planned: Result<((), Journal), Error>,
    users: Map<Seq<char>, UserView>,
    requests: Map<Seq<char>, HelpRequestView>,
    username: Seq<char>,
    picture: Seq<char>,
    notes: Seq<char>,
) -> bool {
    match planned {
        Ok(p) => filed_somehow(
            users,
            requests,
            username,
            picture,
            notes,
            p.1.users_after(users),
            p.1.requests_after(requests),
        ),
        Err(e) => new_request_refused(e@, users, requests, username),
    }
}

/// Plans a request for help under a fresh random id, dated now: draws ids
/// until one is free in the registry, and answers with the writes that file
/// the request and stamp the senior's account.
pub fn plan_new_request(
    users: &UserDB,
    help_requests: &HelpRequestDB,
    username: &str,
    info: &RequestHelpInfo,
) -> (res: Result<((), Journal), Error>)
    requires
        users.wf(),
        help_requests.wf(),
    ensures
        new_request_planned(
            res,
            users@,
            help_requests@,
            username@,
            info.picture@,
            info.notes@,
        ),
        help_requests@.dom() =~= Set::<Seq<char>>::empty() && may_ask(users@, username@)
            ==> res is Ok,
{
    match help_request_endpoint(users, username) {
        Ok(user) => {
            if let UserType::Senior(Some(_)) = &user.user_type {
                return Err(Error::AlreadyRequestedHelp);
            }
        },
        Err(e) => {
            return Err(e);
        },
    }
    let mut attempts: u64 = 0;
    while attempts < ID_ATTEMPTS
        invariant
            users.wf(),
            help_requests.wf(),
            senior_guard(users@, username@) is Ok,
            senior_guard(users@, username@)->Ok_0.user_type == UserTypeView::Senior(None),
            help_requests@.dom() =~= Set::<Seq<char>>::empty() ==> attempts == 0,
        decreases ID_ATTEMPTS - attempts,
    {
        let bytes = random_bytes::<16>();
        let id = encode_base64(&bytes);
        if !help_requests.contains(id.as_str()) {
            let now = unix_millis();
            let res = plan_request_help(users, help_requests, username, info, now, id.as_str());
            assert(res is Ok);
            assert(request_help_spec(
                users@,
                help_requests@,
                username@,
                info.picture@,
                info.notes@,
                now,
                base64_url_safe(bytes@),
            ) == Ok::<(Map<Seq<char>, UserView>, Map<Seq<char>, HelpRequestView>), ErrorView>(
                (res->Ok_0.1.users_after(users@), res->Ok_0.1.requests_after(help_requests@)),
            ));
            return res;
        }
        assert(help_requests@.dom().contains(id@));
        attempts += 1;
    }
    Err(Error::msg("No free id was found for the help request"))
}

/// Files a request for help under a fresh random id, dated now. A senior
/// who has a request open is refused, and so is anyone who is no senior;
/// on any failure both collections stay as they were. A senior without an
/// open request always succeeds while the registry is empty.
pub fn request_help(
    users: &mut UserDB,
    help_requests: &mut HelpRequestDB,
    username: &str,
    info: &RequestHelpInfo,
) -> (res: Result<(), Error>)
    requires
        old(users).wf(),
        old(help_requests).wf(),
    ensures
        final(users).wf(),
        final(help_requests).wf(),
        match res {
            Ok(_) => filed_somehow(
                old(users)@,
                old(help_requests)@,
                username@,
                info.picture@,
                info.notes@,
                final(users)@,
                final(help_requests)@,
            ),
            Err(e) => final(users)@ == old(users)@ && final(help_requests)@ == old(help_requests)@
                && new_request_refused(e@, old(users)@, old(help_requests)@, username@),
        },
        old(help_requests)@.dom() =~= Set::<Seq<char>>::empty() && may_ask(
            old(users)@,
            username@,
        ) ==> res is Ok,
{
    let body = |u: &UserDB, r: &HelpRequestDB| -> (planned: Result<((), Journal), Error>)
        requires
            u.wf(),
            r.wf(),
        ensures
            new_request_planned(planned, u@, r@, username@, info.picture@, info.notes@),
        { plan_new_request(u, r, username, info) };
    transaction(users, help_requests, body)
}

/// The request a senior has open.
pub fn get_help_request(user: &User, help_requests: &HelpRequestDB) -> (res: Result<
    HelpRequest,
    Error,
>)
    requires
        help_requests.wf(),
    ensures
        match (res, get_help_request_spec(user@, help_requests@)) {
            (Ok(request), Ok(expected)) => request@ == expected,
            (Err(e), Err(expected)) => e@ == expected,
            _ => false,
        },
{
    if let UserType::Senior(Some(id)) = &user.user_type {
        match help_requests.get(id.as_str()) {
            Some(request) => Ok(request.clone()),
            None => Err(
                Error::msg(
                    "The ID for the help request stored in the server doesn't exist in the database",
                ),
            ),
        }
    } else {
        Err(Error::DidntRequestHelp)
    }
}

/// A plan for a withdrawal answers what was wanted of it.
pub open spec fn withdrawal_planned(
    planned: Result<(Deletion, Journal), Error>,
    wanted: Result<
        (Deletion, Map<Seq<char>, UserView>, Map<Seq<char>, HelpRequestView>),
        ErrorView,
    >,
    users: Map<Seq<char>, UserView>,
    requests: Map<Seq<char>, HelpRequestView>,
) -> bool {
    match (planned, wanted) {
        (Ok(p), Ok(after)) => p.0 == after.0 && p.1.users_after(users) == after.1
            && p.1.requests_after(requests) == after.2,
        (Err(e), Err(expected)) => e@ == expected,
        _ => false,
    }
}

/// The writes that withdraw the request a senior has open, or the reason
/// why nothing is withdrawn.
pub fn plan_delete_help_request(users: &UserDB, help_requests: &HelpRequestDB, username: &str)
    -> (res: Result<(Deletion, Journal), Error>)
    requires
        users.wf(),
        help_requests.wf(),
    ensures
        withdrawal_planned(
            res,
            delete_help_request_spec(users@, help_requests@, username@),
            users@,
            help_requests@,
        ),
{
    let mut cleared = match users.get(username) {
        Some(user) => user.clone(),
        None => {
            return Err(Error::msg("There exists a token for a username that doesn't exist"));
        },
    };
    let mut journal = Journal::new();
    match &cleared.user_type {
        UserType::Senior(Some(id)) => {
            if !help_requests.contains(id.as_str()) {
                return Err(
                    Error::msg(
                        "The ID for the help request stored in the server doesn't exist in the database",
                    ),
                );
            }
            journal.requests.push(Write::Delete(id.clone()));
        },
        UserType::Senior(None) => {
            proof {
                lemma_replay_none::<User>(users@);
                lemma_replay_none::<HelpRequest>(help_requests@);
            }
            return Ok((Deletion::NothingToDelete, journal));
        },
        UserType::Volunteer(_) => {
            return Err(Error::NotSenior);
        },
    }
    cleared.user_type = UserType::Senior(None);
    journal.users.push(Write::Put(username.to_owned(), cleared));
    proof {
        assert(journal.users@ =~= seq![journal.users@[0]]);
        assert(journal.requests@ =~= seq![journal.requests@[0]]);
        lemma_replay_short(journal.users@[0], users@);
        lemma_replay_short(journal.requests@[0], help_requests@);
    }
    Ok((Deletion::Deleted, journal))
}

/// Withdraws the request a senior has open: the request leaves the registry
/// and the account's pointer is cleared in one unit of work. With none open
/// this succeeds and changes nothing.
pub fn delete_help_request(users: &mut UserDB, help_requests: &mut HelpRequestDB, username: &str)
    -> (res: Result<Deletion, Error>)
    requires
        old(users).wf(),
        old(help_requests).wf(),
    ensures
        final(users).wf(),
        final(help_requests).wf(),
        match (res, delete_help_request_spec(old(users)@, old(help_requests)@, username@)) {
            (Ok(outcome), Ok(after)) => outcome == after.0 && final(users)@ == after.1
                && final(help_requests)@ == after.2,
            (Err(e), Err(expected)) => e@ == expected && final(users)@ == old(users)@
                && final(help_requests)@ == old(help_requests)@,
            _ => false,
        },
{
    let body = |u: &UserDB, r: &HelpRequestDB| -> (planned: Result<(Deletion, Journal), Error>)
        requires
            u.wf(),
            r.wf(),
        ensures
            withdrawal_planned(planned, delete_help_request_spec(u@, r@, username@), u@, r@),
        { plan_delete_help_request(u, r, username) };
    transaction(users, help_requests, body)
}

/// Two empty collections are consistent.
pub proof fn law_empty_collections_are_consistent()
    ensures
        consistent(Map::empty(), Map::empty()),
{
}

/// Asking for help keeps the two collections consistent.
pub proof fn law_request_help_keeps_consistency(
    users: Map<Seq<char>, UserView>,
    requests: Map<Seq<char>, HelpRequestView>,
    username: Seq<char>,
    picture: Seq<char>,
    notes: Seq<char>,
    now: i64,
    id: Seq<char>,
)
    requires
        consistent(users, requests),
        request_help_spec(users, requests, username, picture, notes, now, id) is Ok,
    ensures
        ({
            let after = request_help_spec(users, requests, username, picture, notes, now, id)->Ok_0;
            consistent(after.0, after.1)
        }),
{
    let after = request_help_spec(users, requests, username, picture, notes, now, id)->Ok_0;
    let users2 = after.0;
    let requests2 = after.1;
    assert forall|u: Seq<char>, k: Seq<char>|
        users2.contains_key(u) && (#[trigger] users2[u]).user_type == UserTypeView::Senior(
            Some(k),
        ) implies requests2.contains_key(k) && (#[trigger] requests2[k]).username == u by {
        if u != username {
            assert(users[u].user_type == UserTypeView::Senior(Some(k)));
            assert(requests[k].username == u);
        }
    }
    assert forall|k: Seq<char>| requests2.contains_key(k) implies users2.contains_key(
        (#[trigger] requests2[k]).username,
    ) && users2[requests2[k].username].user_type == UserTypeView::Senior(Some(k)) by {
        if k != id {
            assert(requests[k].username != username);
        }
    }
}

/// A senior who has asked for help is refused when asking again, and the
/// registry holds exactly one request owned by that senior: the one filed.
pub proof fn law_second_request_is_refused(
    users: Map<Seq<char>, UserView>,
    requests: Map<Seq<char>, HelpRequestView>,
    username: Seq<char>,
    picture: Seq<char>,
    notes: Seq<char>,
    now: i64,
    id: Seq<char>,
    picture_again: Seq<char>,
    notes_again: Seq<char>,
    now_again: i64,
    id_again: Seq<char>,
)
    requires
        consistent(users, requests),
        request_help_spec(users, requests, username, picture, notes, now, id) is Ok,
    ensures
        ({
            let after = request_help_spec(users, requests, username, picture, notes, now, id)->Ok_0;
            &&& request_help_spec(
                after.0,
                after.1,
                username,
                picture_again,
                notes_again,
                now_again,
                id_again,
            ) == Err::<
                (Map<Seq<char>, UserView>, Map<Seq<char>, HelpRequestView>),
                ErrorView,
            >(ErrorView::AlreadyRequestedHelp)
            &&& forall|k: Seq<char>|
                after.1.contains_key(k) && (#[trigger] after.1[k]).username == username <==> k
                    == id
        }),
{
    let after = request_help_spec(users, requests, username, picture, notes, now, id)->Ok_0;
    assert forall|k: Seq<char>|
        after.1.contains_key(k) && (#[trigger] after.1[k]).username == username implies k
            == id by {
        if k != id {
            assert(requests[k].username == username);
        }
    }
}

/// Withdrawing with no request open succeeds and changes nothing. With a
/// request open, it takes that request out of the registry and clears the
/// senior's pointer, and the collections stay consistent.
pub proof fn law_withdrawal(
    users: Map<Seq<char>, UserView>,
    requests: Map<Seq<char>, HelpRequestView>,
    username: Seq<char>,
)
    requires
        consistent(users, requests),
        users.contains_key(username),
        users[username].user_type is Senior,
    ensures
        delete_help_request_spec(users, requests, username) is Ok,
        ({
            let after = delete_help_request_spec(users, requests, username)->Ok_0;
            &&& consistent(after.1, after.2)
            &&& after.1[username].user_type == UserTypeView::Senior(None)
            &&& match users[username].user_type {
                UserTypeView::Senior(Some(id)) => after.0 == Deletion::Deleted
                    && !after.2.contains_key(id) && after.2 == requests.remove(id),
                _ => after.0 == Deletion::NothingToDelete && after.1 == users && after.2
                    == requests,
            }
        }),
{
    match users[username].user_type {
        UserTypeView::Senior(Some(id)) => {
            assert(requests[id].username == username);
            let after = delete_help_request_spec(users, requests, username)->Ok_0;
            let users2 = after.1;
            let requests2 = after.2;
            assert forall|u: Seq<char>, k: Seq<char>|
                users2.contains_key(u) && (#[trigger] users2[u]).user_type
                    == UserTypeView::Senior(Some(k)) implies requests2.contains_key(k) && (
                #[trigger] requests2[k]).username == u by {
                assert(users[u].user_type == UserTypeView::Senior(Some(k)));
                assert(requests[k].username == u);
            }
            assert forall|k: Seq<char>| requests2.contains_key(k) implies users2.contains_key(
                (#[trigger] requests2[k]).username,
            ) && users2[requests2[k].username].user_type == UserTypeView::Senior(Some(k)) by {
                assert(requests[k].username != username);
            }
        },
        _ => {},
    }
}

} // verus!
