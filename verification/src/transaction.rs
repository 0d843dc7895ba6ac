//! Units of work that span the account directory and the request registry.
//!
//! A unit of work reads the two collections and answers with the writes it
//! wants, or aborts. The writes of a unit that does not abort are applied
//! together; those of one that aborts are never applied.

use crate::accounts::UserDB;
use crate::db::Db;
use crate::errors::{Error, ErrorView};
use crate::help_requests::HelpRequestDB;
use crate::model::{HelpRequest, HelpRequestView, User, UserView};
use vstd::prelude::*;

verus! {

/// One write to a collection.
#[derive(Debug, PartialEq, Eq)]
pub enum Write<V> {
    /// Store the record under the key, replacing what was there.
    Put(String, V),
    /// Remove whatever is stored under the key.
    Delete(String),
}

/// What one write makes of a collection.
pub open spec fn write_effect<V: View>(w: Write<V>, records: Map<Seq<char>, V::V>) -> Map<
    Seq<char>,
    V::V,
> {
    match w {
        Write::Put(key, value) => records.insert(key@, value@),
        Write::Delete(key) => records.remove(key@),
    }
}

/// What a list of writes makes of a collection, applied first to last.
pub open spec fn replay<V: View>(writes: Seq<Write<V>>, records: Map<Seq<char>, V::V>) -> Map<
    Seq<char>,
    V::V,
>
    decreases writes.len(),
{
    if writes.len() == 0 {
        records
    } else {
        replay(writes.drop_first(), write_effect(writes[0], records))
    }
}

/// Replaying no write leaves a collection as it is.
pub proof fn lemma_replay_none<V: View>(records: Map<Seq<char>, V::V>)
    ensures
        forall|writes: Seq<Write<V>>|
            writes.len() == 0 ==> #[trigger] replay(writes, records) == records,
{
}

/// Replaying one write has the effect of that write.
pub proof fn lemma_replay_short<V: View>(w: Write<V>, records: Map<Seq<char>, V::V>)
    ensures
        replay(seq![w], records) == write_effect(w, records),
{
    reveal_with_fuel(replay, 3);
    assert(seq![w].drop_first() =~= Seq::<Write<V>>::empty());
}

/// The writes a unit of work wants, for each of the two collections.
#[derive(Debug, PartialEq, Eq)]
pub struct Journal {
    pub users: Vec<Write<User>>,
    pub requests: Vec<Write<HelpRequest>>,
}

impl Journal {
    /// The account directory after the journal is applied to `users`.
    pub open spec fn users_after(&self, users: Map<Seq<char>, UserView>) -> Map<
        Seq<char>,
        UserView,
    > {
        replay(self.users@, users)
    }

    /// The request registry after the journal is applied to `requests`.
    pub open spec fn requests_after(&self, requests: Map<Seq<char>, HelpRequestView>) -> Map<
        Seq<char>,
        HelpRequestView,
    > {
        replay(self.requests@, requests)
    }

    /// A journal without writes.
    pub fn new() -> (journal: Journal)
        ensures
            journal.users@.len() == 0,
            journal.requests@.len() == 0,
    {
        Journal { users: Vec::new(), requests: Vec::new() }
    }
}

/// A plan answers what was wanted of it: its journal leads from the given
/// collections to the wanted ones, or it fails with the wanted error.
pub open spec fn plan_meets<R>(
    planned: Result<(R, Journal), Error>,
    wanted: Result<(Map<Seq<char>, UserView>, Map<Seq<char>, HelpRequestView>), ErrorView>,
    users: Map<Seq<char>, UserView>,
    requests: Map<Seq<char>, HelpRequestView>,
) -> bool {
    match (planned, wanted) {
        (Ok(p), Ok(after)) => p.1.users_after(users) == after.0 && p.1.requests_after(requests)
            == after.1,
        (Err(e), Err(expected)) => e@ == expected,
        _ => false,
    }
}

/// A plan that writes to the account directory alone answers what was
/// wanted of it.
pub open spec fn users_plan_meets<R>(
    planned: Result<(R, Journal), Error>,
    wanted: Result<Map<Seq<char>, UserView>, ErrorView>,
    users: Map<Seq<char>, UserView>,
) -> bool {
    match (planned, wanted) {
        (Ok(p), Ok(after)) => p.1.users_after(users) == after && p.1.requests@.len() == 0,
        (Err(e), Err(expected)) => e@ == expected,
        _ => false,
    }
}

/// A plan that writes to the request registry alone answers what was wanted
/// of it.
pub open spec fn requests_plan_meets<R>(
    planned: Result<(R, Journal), Error>,
    wanted: Result<Map<Seq<char>, HelpRequestView>, ErrorView>,
    requests: Map<Seq<char>, HelpRequestView>,
) -> bool {
    match (planned, wanted) {
        (Ok(p), Ok(after)) => p.1.requests_after(requests) == after && p.1.users@.len() == 0,
        (Err(e), Err(expected)) => e@ == expected,
        _ => false,
    }
}

/// Applies a list of writes to a collection, first to last.
pub fn apply<V: View>(db: &mut Db<V>, writes: Vec<Write<V>>)
    requires
        old(db).wf(),
    ensures
        final(db).wf(),
        final(db)@ == replay(writes@, old(db)@),
        final(db).label() == old(db).label(),
{
    let mut rest = writes;
    while rest.len() > 0
        invariant
            db.wf(),
            db.label() == old(db).label(),
            replay(rest@, db@) == replay(writes@, old(db)@),
        decreases rest@.len(),
    {
        let ghost before = rest@;
        let w = rest.remove(0);
        assert(rest@ =~= before.drop_first());
        match w {
            Write::Put(key, value) => {
                db.add(key.as_str(), value);
            },
            Write::Delete(key) => {
                let _ = db.delete(key.as_str());
            },
        }
    }
}

/// Applies a journal to the two collections.
pub fn commit(users: &mut UserDB, requests: &mut HelpRequestDB, journal: Journal)
    requires
        old(users).wf(),
        old(requests).wf(),
    ensures
        final(users).wf(),
        final(requests).wf(),
        final(users)@ == journal.users_after(old(users)@),
        final(requests)@ == journal.requests_after(old(requests)@),
{
    let Journal { users: user_writes, requests: request_writes } = journal;
    apply(users, user_writes);
    apply(requests, request_writes);
}

/// Runs a unit of work on the two collections. Where `body` answers with a
/// result and a journal, the journal is applied to both collections and the
/// result handed on; where it aborts, both collections stay as they were
/// and the error is handed on. Nothing is tried a second time.
pub fn transaction<R, F>(users: &mut UserDB, requests: &mut HelpRequestDB, body: F) -> (res: Result<
    R,
    Error,
>) where F: FnOnce(&UserDB, &HelpRequestDB) -> Result<(R, Journal), Error>
    requires
        old(users).wf(),
        old(requests).wf(),
        body.requires((&*old(users), &*old(requests))),
    ensures
        final(users).wf(),
        final(requests).wf(),
        match res {
            Ok(r) => exists|journal: Journal|
                #[trigger] body.ensures(
                    (&*old(users), &*old(requests)),
                    Ok::<(R, Journal), Error>((r, journal)),
                ) && final(users)@ == journal.users_after(old(users)@) && final(requests)@
                    == journal.requests_after(old(requests)@),
            Err(e) => body.ensures((&*old(users), &*old(requests)), Err::<(R, Journal), Error>(e))
                && final(users)@ == old(users)@ && final(requests)@ == old(requests)@,
        },
{
    match body(&*users, &*requests) {
        Ok((r, journal)) => {
            let ghost wanted = journal;
            commit(users, requests, journal);
            let res = Ok::<R, Error>(r);
            assert(res matches Ok(x) && body.ensures(
                (&*old(users), &*old(requests)),
                Ok::<(R, Journal), Error>((x, wanted)),
            ));
            res
        },
        Err(e) => Err(e),
    }
}

} // verus!
