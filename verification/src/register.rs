//! Registration.

use crate::password::hash_password;
use crate::reply::{reply_to_write, Reply};
use crate::request::AuthBody;
use crate::statement::InsertUser;
use vstd::prelude::*;

verus! {

/// Whether `insert` is the statement for a new user, given the hash of the
/// password. Without a hash there is none.
pub open spec fn inserts(
    insert: Option<InsertUser>,
    email: Seq<char>,
    hash: Option<Seq<char>>,
) -> bool {
    match insert {
        Some(insert) => insert.email@ == email && hash == Some(insert.password@),
        None => hash is None,
    }
}

/// The statement for a new user, given the hash of the password.
pub fn insert_user(email: String, hash: Option<String>) -> (insert: Option<InsertUser>)
    ensures
        inserts(insert, email@, crate::text::optional(hash)),
{
    match hash {
        Some(password) => Some(InsertUser { email, password }),
        None => None,
    }
}

/// Registers a user: the statement that stores the address and a hash of the
/// password. There is none where the system has no random numbers to salt the
/// hash with.
pub fn register(body: AuthBody) -> (insert: Option<InsertUser>)
    ensures
        exists|hash: Option<Seq<char>>| #[trigger]
            crate::password::hashing_gave(body.password@, hash) && inserts(
                insert,
                body.email@,
                hash,
            ),
        insert matches Some(insert) ==> {
            &&& insert.email@ == body.email@
            &&& crate::password::default_cost_hash(insert.password@)
            &&& crate::password::opens(body.password@, insert.password@)
        },
{
    let hash: Option<String> = hash_password(body.password.as_str());
    insert_user(body.email, hash)
}

/// Answers a registration, given what became of its statement.
pub fn register_reply(outcome: Result<(), String>) -> (reply: Reply)
    ensures
        reply@ == crate::reply::write_reply(outcome, "register success"@),
{
    reply_to_write(outcome, "register success")
}

} // verus!
