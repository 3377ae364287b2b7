//! Login.

use crate::password::password_answer;
use crate::reply::{Reply, UNAUTHORIZED};
use crate::request::AuthBody;
use crate::role::{parse_role, Role};
use crate::statement::{FindUser, UserRow};
use crate::token::{create_token, issue_token};
use vstd::prelude::*;

verus! {

/// The mathematical content of a row of the user table.
pub struct UserView {
    pub id: i32,
    pub password: Option<Seq<char>>,
    pub role: Option<Seq<char>>,
}

impl View for UserRow {
    type V = UserView;

    open spec fn view(&self) -> UserView {
        UserView {
            id: self.id,
            password: crate::text::optional(self.password),
            role: crate::text::optional(self.role),
        }
    }
}

/// The row that was found, if one was.
pub open spec fn found(user: Option<&UserRow>) -> Option<UserView> {
    match user {
        Some(row) => Some(row@),
        None => None,
    }
}

/// The answer of the password check for a row; a row without a password has
/// none.
pub open spec fn answer_for(user: Option<UserView>, password: Seq<char>) -> Option<bool> {
    match user {
        Some(row) => match row.password {
            Some(hash) => crate::password::bcrypt_answer(password, hash),
            None => None,
        },
        None => None,
    }
}

/// The verdict on a login, given the answer of the password check: the user
/// and the role to issue a token for, or the text that refuses the login.
pub open spec fn verdict(user: Option<UserView>, answer: Option<bool>) -> Result<
    (i32, Role),
    Seq<char>,
> {
    match user {
        None => Err("user not found"@),
        Some(row) => if row.password is None {
            Err("no password"@)
        } else if answer != Some(true) {
            Err("wrong password"@)
        } else {
            Ok((row.id, crate::role::role_of_column(row.role)))
        },
    }
}

/// Whether `judged` is the verdict, every refusal being an unauthorized one.
pub open spec fn judged_as(
    judged: Result<(i32, Role), Reply>,
    verdict: Result<(i32, Role), Seq<char>>,
) -> bool {
    match (judged, verdict) {
        (Ok(granted), Ok(owed)) => granted == owed,
        (Err(reply), Err(text)) => reply@ == crate::reply::text_reply(UNAUTHORIZED, text),
        _ => false,
    }
}

/// Whether `reply` answers a login with this verdict at the time `now`: the
/// refusal, or a token that carries the claims of the user. There is no reply
/// where the token's expiry is no representable moment.
pub open spec fn answered_at(
    reply: Option<Reply>,
    now: i64,
    verdict: Result<(i32, Role), Seq<char>>,
    hours: i64,
    secret: Seq<char>,
) -> bool {
    match verdict {
        Err(text) => match reply {
            Some(reply) => reply@ == crate::reply::text_reply(UNAUTHORIZED, text),
            None => false,
        },
        Ok((user_id, role)) => match crate::token::issued_claims(now, user_id, role, hours) {
            Some(claims) => match reply {
                Some(reply) => {
                    let token = crate::token::token_of_claims(claims, secret);
                    &&& reply@ == crate::reply::token_reply(token)
                    &&& crate::token::carried_claims(token, secret) == Some(claims)
                },
                None => false,
            },
            None => reply is None,
        },
    }
}

/// Starts a login: the statement that looks the user up.
pub fn login(body: &AuthBody) -> (find: FindUser)
    ensures
        find.email@ == body.email@,
{
    FindUser { email: body.email.clone() }
}

/// Judges a login by the row that was found and the answer of the password
/// check.
pub fn judge_login(user: Option<&UserRow>, answer: Option<bool>) -> (judged: Result<
    (i32, Role),
    Reply,
>)
    ensures
        judged_as(judged, verdict(found(user), answer)),
{
    let row: &UserRow = match user {
        Some(row) => row,
        None => return Err(Reply::text(UNAUTHORIZED, "user not found".to_owned())),
    };
    if row.password.is_none() {
        return Err(Reply::text(UNAUTHORIZED, "no password".to_owned()));
    }
    match answer {
        Some(true) => {},
        _ => return Err(Reply::text(UNAUTHORIZED, "wrong password".to_owned())),
    }
    let role: Role = match &row.role {
        Some(role) => parse_role(role.as_str()),
        None => parse_role("user"),
    };
    Ok((row.id, role))
}

/// Judges a login by the row that was found and the password that was sent.
pub fn check_login(user: Option<&UserRow>, password: &str) -> (judged: Result<(i32, Role), Reply>)
    ensures
        judged_as(judged, verdict(found(user), answer_for(found(user), password@))),
{
    let answer: Option<bool> = match user {
        Some(row) => match &row.password {
            Some(hash) => password_answer(password, hash.as_str()),
            None => None,
        },
        None => None,
    };
    judge_login(user, answer)
}

/// Hands out a token, if there is one.
pub fn hand_out(token: Option<String>) -> (reply: Option<Reply>)
    ensures
        match token {
            Some(token) => reply matches Some(r) && r@ == crate::reply::token_reply(token@),
            None => reply is None,
        },
{
    match token {
        Some(token) => Some(Reply::token(token)),
        None => None,
    }
}

/// Answers a login at the time `now`. There is no reply where a token is owed
/// whose expiry is no representable moment.
pub fn login_reply_at(
    now: i64,
    user: Option<&UserRow>,
    password: &str,
    hours: i64,
    secret: &str,
) -> (reply: Option<Reply>)
    ensures
        answered_at(
            reply,
            now,
            verdict(found(user), answer_for(found(user), password@)),
            hours,
            secret@,
        ),
{
    match check_login(user, password) {
        Ok((user_id, role)) => hand_out(issue_token(now, user_id, role, hours, secret)),
        Err(refusal) => Some(refusal),
    }
}

/// Answers a granted login now, with a token for the user and the role. There
/// is no reply where the token's expiry is no representable moment.
pub fn grant(user_id: i32, role: Role, hours: i64, secret: &str) -> (reply: Option<Reply>)
    ensures
        exists|now: i64|
            crate::clock::clock_gave(now) && crate::clock::clock_reading(now)
                && #[trigger] answered_at(
                reply,
                now,
                Ok((user_id, role)),
                hours,
                secret@,
            ),
{
    let token: Option<String> = create_token(user_id, role, hours, secret);
    let reply: Option<Reply> = hand_out(token);
    proof {
        let now = choose|now: i64|
            crate::clock::clock_gave(now) && crate::clock::clock_reading(now)
                && #[trigger] crate::token::issued_at(
                token,
                now,
                user_id,
                role,
                hours,
                secret@,
            );
        assert(answered_at(reply, now, Ok((user_id, role)), hours, secret@));
    }
    reply
}

/// Answers a login now. There is no reply where a token is owed whose expiry
/// is no representable moment.
pub fn login_reply(user: Option<&UserRow>, password: &str, hours: i64, secret: &str) -> (reply:
    Option<Reply>)
    ensures
        exists|now: i64|
            crate::clock::clock_reading(now) && #[trigger] answered_at(
                reply,
                now,
                verdict(found(user), answer_for(found(user), password@)),
                hours,
                secret@,
            ),
        verdict(found(user), answer_for(found(user), password@)) is Ok ==> exists|now: i64|
            crate::clock::clock_gave(now) && #[trigger] answered_at(
                reply,
                now,
                verdict(found(user), answer_for(found(user), password@)),
                hours,
                secret@,
            ),
{
    let ghost verdict = verdict(found(user), answer_for(found(user), password@));
    match check_login(user, password) {
        Ok((user_id, role)) => grant(user_id, role, hours, secret),
        Err(refusal) => {
            let reply: Option<Reply> = Some(refusal);
            assert(crate::clock::clock_reading(0) && answered_at(
                reply,
                0,
                verdict,
                hours,
                secret@,
            ));
            reply
        },
    }
}

} // verus!
