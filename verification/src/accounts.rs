//! The account directory: sign-up, login and the public side of an account.

use crate::authorization::{
    accepted, create_token, hash_password, issued, password_digest, SecretKey, Token,
    TOKEN_LIFETIME,
};
use crate::db::Db;
use crate::errors::{Error, ErrorView};
use crate::help_requests::consistent;
use crate::model::{
    texts, HelpRequestView, Location, User, UserType, UserTypeView, UserView,
};
use crate::primitives::random_bytes;
use crate::transaction::{apply, lemma_replay_short, users_plan_meets, Journal, Write};
use vstd::prelude::*;

verus! {

/// The collection of accounts, keyed by username.
pub type UserDB = Db<User>;

/// The role a new account asks for.
#[derive(Clone, Copy, Debug, PartialEq, Eq, Structural)]
pub enum UserTypeChoice {
    Volunteer,
    Senior,
}

/// What a caller supplies to sign up.
#[derive(Debug)]
pub struct CreateAccountInfo {
    pub username: String,
    pub name: String,
    pub address: String,
    pub location: Location,
    pub user_type: UserTypeChoice,
    pub password: String,
}

/// What a caller supplies to log in.
#[derive(Debug)]
pub struct LoginInfo {
    pub username: String,
    pub password: String,
}

/// What anyone may see of an account: everything but the salt and the
/// password hash.
#[derive(Debug, PartialEq, Eq)]
pub struct PublicProfile {
    pub username: String,
    pub name: String,
    pub address: String,
    pub location: Location,
    pub user_type: UserType,
}

/// The account that sign-up stores for `info` under the given salt.
pub open spec fn new_account(info: CreateAccountInfo, salt: Seq<u8>) -> UserView {
    UserView {
        username: info.username@,
        name: info.name@,
        address: info.address@,
        location: info.location,
        user_type: match info.user_type {
            UserTypeChoice::Volunteer => UserTypeView::Volunteer(Seq::empty()),
            UserTypeChoice::Senior => UserTypeView::Senior(None),
        },
        salt,
        password_hash: password_digest(info.password@, salt),
    }
}

/// What sign-up does to the directory: it refuses a username that is
/// taken, and otherwise stores the new account under it.
pub open spec fn create_account_spec(
    users: Map<Seq<char>, UserView>,
    info: CreateAccountInfo,
    salt: Seq<u8>,
) -> Result<Map<Seq<char>, UserView>, ErrorView> {
    if users.contains_key(info.username@) {
        Err(ErrorView::UsernameAlreadyExists(info.username@))
    } else {
        Ok(users.insert(info.username@, new_account(info, salt)))
    }
}

/// Whether a login with these credentials passes.
pub open spec fn login_spec(
    users: Map<Seq<char>, UserView>,
    username: Seq<char>,
    password: Seq<char>,
) -> Result<(), ErrorView> {
    if !users.contains_key(username) {
        Err(ErrorView::UsernameDoesntExist(username))
    } else if users[username].password_hash != password_digest(password, users[username].salt) {
        Err(ErrorView::IncorrectPassword(username))
    } else {
        Ok(())
    }
}

/// Tells whether two byte vectors hold the same bytes.
pub fn same_bytes(a: &Vec<u8>, b: &Vec<u8>) -> (same: bool)
    ensures
        same == (a@ == b@),
{
    if a.len() != b.len() {
        return false;
    }
    let mut i: usize = 0;
    while i < a.len()
        invariant
            a@.len() == b@.len(),
            i <= a@.len(),
            forall|j: int| 0 <= j < i ==> a@[j] == b@[j],
        decreases a@.len() - i,
    {
        if a[i] != b[i] {
            return false;
        }
        i += 1;
    }
    assert(a@ =~= b@);
    true
}

/// The write that stores the account for `info` with the given salt, or
/// the refusal of a username that is taken.
pub fn plan_create_account_with_salt(db: &UserDB, info: &CreateAccountInfo, salt: [u8; 32]) -> (res:
    Result<((), Journal), Error>)
    requires
        db.wf(),
    ensures
        users_plan_meets(res, create_account_spec(db@, *info, salt@), db@),
{
    if db.contains(info.username.as_str()) {
        return Err(Error::UsernameAlreadyExists(info.username.clone()));
    }
    let password_hash = hash_password(info.password.as_str(), salt);
    let user = User {
        username: info.username.clone(),
        name: info.name.clone(),
        address: info.address.clone(),
        location: info.location,
        user_type: match info.user_type {
            UserTypeChoice::Volunteer => UserType::Volunteer(Vec::new()),
            UserTypeChoice::Senior => UserType::Senior(None),
        },
        salt,
        password_hash,
    };
    assert(texts(Seq::<String>::empty()) =~= Seq::<Seq<char>>::empty());
    let mut journal = Journal::new();
    journal.users.push(Write::Put(info.username.clone(), user));
    proof {
        assert(journal.users@ =~= seq![journal.users@[0]]);
        lemma_replay_short(journal.users@[0], db@);
    }
    Ok(((), journal))
}

/// Stores the account for `info` with the given salt, unless the username is
/// taken.
pub fn create_account_with_salt(db: &mut UserDB, info: &CreateAccountInfo, salt: [u8; 32]) -> (res:
    Result<(), Error>)
    requires
        old(db).wf(),
    ensures
        final(db).wf(),
        match (res, create_account_spec(old(db)@, *info, salt@)) {
            (Ok(_), Ok(users)) => final(db)@ == users,
            (Err(e), Err(expected)) => e@ == expected && final(db)@ == old(db)@,
            _ => false,
        },
{
    match plan_create_account_with_salt(db, info, salt) {
        Ok((_, journal)) => {
            apply(db, journal.users);
            Ok(())
        },
        Err(e) => Err(e),
    }
}

/// `planned` is what signing up with `info` comes to for some salt, some
/// time and some nonce: a token for the username and the write that stores
/// the new account.
pub open spec fn sign_up_planned(
    planned: (Token, Journal),
    users: Map<Seq<char>, UserView>,
    key: Seq<u8>,
    info: CreateAccountInfo,
) -> bool {
    exists|salt: Seq<u8>, now: i64, nonce: Seq<u8>|
        {
            &&& salt.len() == 32
            &&& nonce.len() == 12
            &&& #[trigger] create_account_spec(users, info, salt) == Ok::<
                Map<Seq<char>, UserView>,
                ErrorView,
            >(planned.1.users_after(users))
            &&& planned.1.requests@.len() == 0
            &&& now + TOKEN_LIFETIME <= i64::MAX
            &&& planned.0@ == #[trigger] issued(key, info.username@, now, nonce)
        }
}

/// Plans a sign-up: draws a fresh random salt, issues the first token, and
/// answers with the write that stores the new account. A username that is
/// taken is refused.
pub fn plan_create_account(db: &UserDB, key: &SecretKey, info: &CreateAccountInfo) -> (res: Result<
    (Token, Journal),
    Error,
>)
    requires
        db.wf(),
    ensures
        match res {
            Ok(planned) => sign_up_planned(planned, db@, key@, *info),
            Err(e) => if db@.contains_key(info.username@) {
                e@ == ErrorView::UsernameAlreadyExists(info.username@)
            } else {
                e@ is Unexpected
            },
        },
{
    if db.contains(info.username.as_str()) {
        return Err(Error::UsernameAlreadyExists(info.username.clone()));
    }
    let token = match create_token(key, info.username.as_str()) {
        Ok(token) => token,
        Err(e) => {
            return Err(e);
        },
    };
    let salt = random_bytes::<32>();
    match plan_create_account_with_salt(db, info, salt) {
        Ok((_, journal)) => {
            assert(create_account_spec(db@, *info, salt@) == Ok::<
                Map<Seq<char>, UserView>,
                ErrorView,
            >(journal.users_after(db@)));
            Ok((token, journal))
        },
        Err(e) => Err(e),
    }
}

/// Signs up: stores a new account under a fresh random salt and issues its
/// first token. A username that is taken is refused, and a failure leaves
/// the directory as it was.
pub fn create_account(db: &mut UserDB, key: &SecretKey, info: &CreateAccountInfo) -> (res: Result<
    Token,
    Error,
>)
    requires
        old(db).wf(),
    ensures
        final(db).wf(),
        match res {
            Ok(token) => exists|salt: Seq<u8>, now: i64, nonce: Seq<u8>|
                salt.len() == 32 && #[trigger] create_account_spec(old(db)@, *info, salt) == Ok::<
                    Map<Seq<char>, UserView>,
                    ErrorView,
                >(final(db)@) && now + TOKEN_LIFETIME <= i64::MAX && nonce.len() == 12 && token@
                    == #[trigger] issued(key@, info.username@, now, nonce),
            Err(e) => final(db)@ == old(db)@ && if old(db)@.contains_key(info.username@) {
                e@ == ErrorView::UsernameAlreadyExists(info.username@)
            } else {
                e@ is Unexpected
            },
        },
{
    match plan_create_account(db, key, info) {
        Ok((token, journal)) => {
            apply(db, journal.users);
            Ok(token)
        },
        Err(e) => Err(e),
    }
}

/// Checks a username and a password against the directory.
pub fn check_credentials(db: &UserDB, username: &str, password: &str) -> (res: Result<(), Error>)
    requires
        db.wf(),
    ensures
        match (res, login_spec(db@, username@, password@)) {
            (Ok(_), Ok(_)) => true,
            (Err(e), Err(expected)) => e@ == expected,
            _ => false,
        },
{
    let user = match db.get(username) {
        Some(user) => user,
        None => {
            return Err(Error::UsernameDoesntExist(username.to_owned()));
        },
    };
    let hash = hash_password(password, user.salt);
    if !same_bytes(&user.password_hash, &hash) {
        return Err(Error::IncorrectPassword(username.to_owned()));
    }
    Ok(())
}

/// Logs in: issues a token where the credentials pass. Wrong credentials
/// are refused with the error that tells which part was wrong.
pub fn login(db: &UserDB, key: &SecretKey, info: &LoginInfo) -> (res: Result<Token, Error>)
    requires
        db.wf(),
    ensures
        match res {
            Ok(token) => login_spec(db@, info.username@, info.password@) is Ok && exists|
                now: i64,
                nonce: Seq<u8>,
            |
                now + TOKEN_LIFETIME <= i64::MAX && nonce.len() == 12 && token@ == issued(
                    key@,
                    info.username@,
                    now,
                    nonce,
                ),
            Err(e) => match login_spec(db@, info.username@, info.password@) {
                Err(expected) => e@ == expected,
                Ok(_) => e@ is Unexpected,
            },
        },
{
    match check_credentials(db, info.username.as_str(), info.password.as_str()) {
        Ok(_) => create_token(key, info.username.as_str()),
        Err(e) => Err(e),
    }
}

/// The public side of the account stored under `username`. An account
/// that is missing is reported as an unexpected failure: the username came
/// out of a token that this directory issued.
pub fn get_account_info(username: &str, db: &UserDB) -> (res: Result<PublicProfile, Error>)
    requires
        db.wf(),
    ensures
        match res {
            Ok(profile) => db@.contains_key(username@) && profile.username@
                == db@[username@].username && profile.name@ == db@[username@].name
                && profile.address@ == db@[username@].address && profile.location
                == db@[username@].location && profile.user_type@ == db@[username@].user_type,
            Err(e) => !db@.contains_key(username@) && e@ == ErrorView::Unexpected(
                "The username doesn't exist in the database"@,
            ),
        },
{
    match db.get(username) {
        Some(user) => Ok(
            PublicProfile {
                username: user.username.clone(),
                name: user.name.clone(),
                address: user.address.clone(),
                location: user.location,
                user_type: user.user_type.clone(),
            },
        ),
        None => Err(Error::msg("The username doesn't exist in the database")),
    }
}

/// A second sign-up under a username always fails, and the directory then
/// still holds the account that the first one stored.
pub proof fn law_username_is_taken_once(
    users: Map<Seq<char>, UserView>,
    first: CreateAccountInfo,
    first_salt: Seq<u8>,
    second: CreateAccountInfo,
    second_salt: Seq<u8>,
)
    requires
        first.username@ == second.username@,
        create_account_spec(users, first, first_salt) is Ok,
    ensures
        ({
            let after = create_account_spec(users, first, first_salt)->Ok_0;
            &&& create_account_spec(after, second, second_salt) == Err::<
                Map<Seq<char>, UserView>,
                ErrorView,
            >(ErrorView::UsernameAlreadyExists(first.username@))
            &&& after[first.username@] == new_account(first, first_salt)
            &&& after.dom() == users.dom().insert(first.username@)
        }),
{
}

/// Of two sign-ups under one free username, whichever runs first succeeds
/// and the other is refused as taken, in either order. The directory then
/// holds exactly one account of that username, under that username, and it
/// is the account of the sign-up that succeeded.
pub proof fn law_one_sign_up_wins(
    users: Map<Seq<char>, UserView>,
    first: CreateAccountInfo,
    first_salt: Seq<u8>,
    second: CreateAccountInfo,
    second_salt: Seq<u8>,
)
    requires
        first.username@ == second.username@,
        !users.contains_key(first.username@),
        forall|k: Seq<char>| users.contains_key(k) ==> (#[trigger] users[k]).username == k,
    ensures
        create_account_spec(users, first, first_salt) is Ok,
        create_account_spec(users, second, second_salt) is Ok,
        ({
            let after = create_account_spec(users, first, first_salt)->Ok_0;
            &&& create_account_spec(after, second, second_salt) == Err::<
                Map<Seq<char>, UserView>,
                ErrorView,
            >(ErrorView::UsernameAlreadyExists(first.username@))
            &&& after[first.username@] == new_account(first, first_salt)
            &&& forall|k: Seq<char>|
                after.contains_key(k) && (#[trigger] after[k]).username == first.username@ <==> k
                    == first.username@
        }),
        ({
            let after = create_account_spec(users, second, second_salt)->Ok_0;
            &&& create_account_spec(after, first, first_salt) == Err::<
                Map<Seq<char>, UserView>,
                ErrorView,
            >(ErrorView::UsernameAlreadyExists(first.username@))
            &&& after[first.username@] == new_account(second, second_salt)
            &&& forall|k: Seq<char>|
                after.contains_key(k) && (#[trigger] after[k]).username == first.username@ <==> k
                    == first.username@
        }),
{
}

/// A username that is taken stays taken: every later sign-up under it is
/// refused, whatever else it asks for.
pub proof fn law_taken_username_stays_taken(
    users: Map<Seq<char>, UserView>,
    info: CreateAccountInfo,
    salt: Seq<u8>,
)
    requires
        users.contains_key(info.username@),
    ensures
        create_account_spec(users, info, salt) == Err::<Map<Seq<char>, UserView>, ErrorView>(
            ErrorView::UsernameAlreadyExists(info.username@),
        ),
{
}

/// After a sign-up, a login with the same username and password passes,
/// and the token it earns is accepted for that username.
pub proof fn law_sign_up_then_login(
    users: Map<Seq<char>, UserView>,
    info: CreateAccountInfo,
    salt: Seq<u8>,
    key: Seq<u8>,
    now: i64,
    nonce: Seq<u8>,
)
    requires
        create_account_spec(users, info, salt) is Ok,
        now + TOKEN_LIFETIME <= i64::MAX,
    ensures
        login_spec(create_account_spec(users, info, salt)->Ok_0, info.username@, info.password@)
            is Ok,
        accepted(key, issued(key, info.username@, now, nonce), now),
        issued(key, info.username@, now, nonce).username == info.username@,
{
}

/// Signing up keeps the two collections consistent.
pub proof fn law_sign_up_keeps_consistency(
    users: Map<Seq<char>, UserView>,
    requests: Map<Seq<char>, HelpRequestView>,
    info: CreateAccountInfo,
    salt: Seq<u8>,
)
    requires
        consistent(users, requests),
        create_account_spec(users, info, salt) is Ok,
    ensures
        consistent(create_account_spec(users, info, salt)->Ok_0, requests),
{
    let users2 = create_account_spec(users, info, salt)->Ok_0;
    assert forall|u: Seq<char>, k: Seq<char>|
        users2.contains_key(u) && (#[trigger] users2[u]).user_type == UserTypeView::Senior(
            Some(k),
        ) implies requests.contains_key(k) && (#[trigger] requests[k]).username == u by {
        assert(users[u].user_type == UserTypeView::Senior(Some(k)));
    }
    assert forall|k: Seq<char>| requests.contains_key(k) implies users2.contains_key(
        (#[trigger] requests[k]).username,
    ) && users2[requests[k].username].user_type == UserTypeView::Senior(Some(k)) by {
        assert(users.contains_key(requests[k].username));
    }
}

} // verus!
