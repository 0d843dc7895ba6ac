//! The persisted records and their mathematical views.

use vstd::prelude::*;

verus! {

/// A position on the globe. Each coordinate is kept as the bit pattern of
/// its IEEE 754 binary64 value, so that a record can be compared and copied
/// exactly.
#[derive(Clone, Copy, Debug, PartialEq, Eq, Structural)]
pub struct Location {
    pub latitude_bits: u64,
    pub longitude_bits: u64,
}

/// The role of an account together with what that role carries.
#[derive(Debug, PartialEq, Eq)]
pub enum UserType {
    /// Ids of the requests this volunteer accepted, oldest first.
    Volunteer(Vec<String>),
    /// Id of the request this senior currently has open, if any.
    Senior(Option<String>),
}

pub enum UserTypeView {
    Volunteer(Seq<Seq<char>>),
    Senior(Option<Seq<char>>),
}

/// The texts held by a sequence of strings, in order.
pub open spec fn texts(strings: Seq<String>) -> Seq<Seq<char>> {
    Seq::new(strings.len(), |i: int| strings[i]@)
}

impl View for UserType {
    type V = UserTypeView;

    open spec fn view(&self) -> UserTypeView {
        match self {
            UserType::Volunteer(accepted) => UserTypeView::Volunteer(texts(accepted@)),
            UserType::Senior(Some(id)) => UserTypeView::Senior(Some(id@)),
            UserType::Senior(None) => UserTypeView::Senior(None),
        }
    }
}

/// An account, keyed in its collection by `username`.
#[derive(Debug, PartialEq, Eq)]
pub struct User {
    pub username: String,
    pub name: String,
    pub address: String,
    pub location: Location,
    pub user_type: UserType,
    pub salt: [u8; 32],
    pub password_hash: Vec<u8>,
}

pub struct UserView {
    pub username: Seq<char>,
    pub name: Seq<char>,
    pub address: Seq<char>,
    pub location: Location,
    pub user_type: UserTypeView,
    pub salt: Seq<u8>,
    pub password_hash: Seq<u8>,
}

impl View for User {
    type V = UserView;

    open spec fn view(&self) -> UserView {
        UserView {
            username: self.username@,
            name: self.name@,
            address: self.address@,
            location: self.location,
            user_type: self.user_type@,
            salt: self.salt@,
            password_hash: self.password_hash@,
        }
    }
}

/// Where a help request stands in its lifecycle.
#[derive(Debug, PartialEq, Eq)]
pub enum HelpRequestState {
    Pending,
    AcceptedBy(String),
    MarkedCompletedBy(String),
}

pub enum HelpRequestStateView {
    Pending,
    AcceptedBy(Seq<char>),
    MarkedCompletedBy(Seq<char>),
}

impl View for HelpRequestState {
    type V = HelpRequestStateView;

    open spec fn view(&self) -> HelpRequestStateView {
        match self {
            HelpRequestState::Pending => HelpRequestStateView::Pending,
            HelpRequestState::AcceptedBy(v) => HelpRequestStateView::AcceptedBy(v@),
            HelpRequestState::MarkedCompletedBy(v) => HelpRequestStateView::MarkedCompletedBy(v@),
        }
    }
}

/// One senior's request for help. `username` is the senior who owns it and
/// `creation_time` counts milliseconds since the Unix epoch.
#[derive(Debug, PartialEq, Eq)]
pub struct HelpRequest {
    pub picture: String,
    pub notes: String,
    pub creation_time: i64,
    pub state: HelpRequestState,
    pub username: String,
}

pub struct HelpRequestView {
    pub picture: Seq<char>,
    pub notes: Seq<char>,
    pub creation_time: i64,
    pub state: HelpRequestStateView,
    pub username: Seq<char>,
}

impl View for HelpRequest {
    type V = HelpRequestView;

    open spec fn view(&self) -> HelpRequestView {
        HelpRequestView {
            picture: self.picture@,
            notes: self.notes@,
            creation_time: self.creation_time,
            state: self.state@,
            username: self.username@,
        }
    }
}

/// Copies a byte vector.
pub fn copy_bytes(bytes: &Vec<u8>) -> (res: Vec<u8>)
    ensures
        res@ == bytes@,
{
    let mut res: Vec<u8> = Vec::new();
    let mut i: usize = 0;
    while i < bytes.len()
        invariant
            i <= bytes.len(),
            res@ == bytes@.subrange(0, i as int),
        decreases bytes.len() - i,
    {
        res.push(bytes[i]);
        i += 1;
        assert(res@ =~= bytes@.subrange(0, i as int));
    }
    assert(bytes@.subrange(0, bytes.len() as int) =~= bytes@);
    res
}

/// Copies a list of strings, keeping their order.
pub fn copy_texts(strings: &Vec<String>) -> (res: Vec<String>)
    ensures
        texts(res@) == texts(strings@),
{
    let mut res: Vec<String> = Vec::new();
    let mut i: usize = 0;
    while i < strings.len()
        invariant
            i <= strings.len(),
            res@.len() == i,
            forall|j: int| 0 <= j < i ==> res@[j]@ == strings@[j]@,
        decreases strings.len() - i,
    {
        res.push(strings[i].clone());
        i += 1;
    }
    assert(texts(res@) =~= texts(strings@));
    res
}

impl Clone for UserType {
    fn clone(&self) -> (res: Self)
        ensures
            res@ == self@,
    {
        match self {
            UserType::Volunteer(accepted) => UserType::Volunteer(copy_texts(accepted)),
            UserType::Senior(Some(id)) => UserType::Senior(Some(id.clone())),
            UserType::Senior(None) => UserType::Senior(None),
        }
    }
}

impl Clone for User {
    fn clone(&self) -> (res: Self)
        ensures
            res@ == self@,
    {
        User {
            username: self.username.clone(),
            name: self.name.clone(),
            address: self.address.clone(),
            location: self.location,
            user_type: self.user_type.clone(),
            salt: self.salt,
            password_hash: copy_bytes(&self.password_hash),
        }
    }
}

impl Clone for HelpRequestState {
    fn clone(&self) -> (res: Self)
        ensures
            res@ == self@,
    {
        match self {
            HelpRequestState::Pending => HelpRequestState::Pending,
            HelpRequestState::AcceptedBy(v) => HelpRequestState::AcceptedBy(v.clone()),
            HelpRequestState::MarkedCompletedBy(v) => HelpRequestState::MarkedCompletedBy(
                v.clone(),
            ),
        }
    }
}

impl Clone for HelpRequest {
    fn clone(&self) -> (res: Self)
        ensures
            res@ == self@,
    {
        HelpRequest {
            picture: self.picture.clone(),
            notes: self.notes.clone(),
            creation_time: self.creation_time,
            state: self.state.clone(),
            username: self.username.clone(),
        }
    }
}

} // verus!
