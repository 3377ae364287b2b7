//! Issuing and checking tokens.

use crate::clock::{expiry, read_clock};
use crate::json::{
    is_repeated, parse_json_i32, parse_json_member, parse_json_string, parse_json_u64,
};
use crate::jwt::{check_token, encode_claims, Decoded};
use crate::role::{read_role, role_name, Role};
use crate::text::{contains_char, same_text};
use vstd::prelude::*;

verus! {

/// What a token says of its bearer.
#[derive(Debug, Clone, Copy, PartialEq, Eq, Structural)]
pub struct Claims {
    pub user_id: i32,
    pub role: Role,
    pub exp: usize,
}

/// Whether the JSON text of a role claim is an object with one member, of this
/// name and null. With a name that has no comma in it, a comma in the text would
/// be that of another member.
pub open spec fn is_null_under(text: Seq<char>, name: Seq<char>) -> bool {
    !text.contains(',') && crate::json::json_member(text, name) == Some("null"@)
}

/// The role whose name was found.
pub open spec fn role_named(admin: bool, editor: bool, user: bool) -> Option<Role> {
    if admin {
        Some(Role::Admin)
    } else if editor {
        Some(Role::Editor)
    } else if user {
        Some(Role::User)
    } else {
        None
    }
}

/// The role that the JSON text of a claim stands for: its name as a string, or
/// as the one member of an object, which is null.
pub open spec fn role_of_json(text: Seq<char>) -> Option<Role> {
    match crate::json::json_string(text) {
        Some(name) => crate::role::role_of_claim(name),
        None => role_named(
            is_null_under(text, crate::role::claim_of_role(Role::Admin)),
            is_null_under(text, crate::role::claim_of_role(Role::Editor)),
            is_null_under(text, crate::role::claim_of_role(Role::User)),
        ),
    }
}

/// The claims that three members stand for. Each has to be there and to be
/// readable, none may be repeated, and the expiry has to fit the machine.
pub open spec fn claims_of_members(
    user_id: Option<i32>,
    role: Option<Role>,
    exp: Option<u64>,
    repeated: bool,
) -> Option<Claims> {
    match (user_id, role, exp) {
        (Some(user_id), Some(role), Some(exp)) => if !repeated && exp <= usize::MAX {
            Some(Claims { user_id, role, exp: exp as usize })
        } else {
            None
        },
        _ => None,
    }
}

/// The claims that the JSON text of a payload stands for.
pub open spec fn claims_of_payload(payload: Seq<char>) -> Option<Claims> {
    claims_of_members(
        match crate::json::json_member(payload, "user_id"@) {
            Some(text) => crate::json::json_i32(text),
            None => None,
        },
        match crate::json::json_member(payload, "role"@) {
            Some(text) => role_of_json(text),
            None => None,
        },
        crate::jwt::expiry_in(payload),
        crate::json::repeated(payload, "user_id"@) || crate::json::repeated(payload, "role"@)
            || crate::json::repeated(payload, "exp"@),
    )
}

/// The claims that a token carries under a secret, its expiry aside.
pub open spec fn carried_claims(token: Seq<char>, secret: Seq<char>) -> Option<Claims> {
    match crate::jwt::jwt_payload(token, secret) {
        Some(payload) => claims_of_payload(payload),
        None => None,
    }
}

/// The claims that a token grants its bearer at the second `now` under a
/// secret: those it carries, unless it is past its expiry.
pub open spec fn granted_at(token: Seq<char>, secret: Seq<char>, now: u64) -> Option<Claims> {
    match carried_claims(token, secret) {
        Some(claims) => if crate::jwt::is_past(claims.exp as int, now) {
            None
        } else {
            Some(claims)
        },
        None => None,
    }
}

/// The claims that a checked token grants its bearer.
pub open spec fn granted_claims(decoded: Decoded) -> Option<Claims> {
    match decoded {
        Decoded::Valid { payload } => claims_of_payload(payload@),
        Decoded::Expired => None,
        Decoded::Refused => None,
    }
}

/// The claims of a token that is issued at `now` and good for `hours` hours.
pub open spec fn issued_claims(now: i64, user_id: i32, role: Role, hours: i64) -> Option<Claims> {
    match crate::clock::expiry_claim(now, hours) {
        Some(exp) => Some(Claims { user_id, role, exp }),
        None => None,
    }
}

/// The token that carries `claims` under `secret`.
pub open spec fn token_of_claims(claims: Claims, secret: Seq<char>) -> Seq<char> {
    crate::jwt::jwt_encoded(
        claims.user_id,
        crate::role::claim_of_role(claims.role),
        claims.exp as u64,
        secret,
    )
}

/// Whether `token` is what issuing at `now` gives: the signed claims, which
/// the token also carries, or nothing where the expiry is no representable
/// moment.
pub open spec fn issued_at(
    token: Option<String>,
    now: i64,
    user_id: i32,
    role: Role,
    hours: i64,
    secret: Seq<char>,
) -> bool {
    match issued_claims(now, user_id, role, hours) {
        Some(claims) => match token {
            Some(token) => token@ == token_of_claims(claims, secret) && carried_claims(
                token@,
                secret,
            ) == Some(claims),
            None => false,
        },
        None => token is None,
    }
}

/// Issues a token at `now`, good for `hours` hours. There is none where the
/// expiry is no representable moment.
pub fn issue_token(now: i64, user_id: i32, role: Role, hours: i64, secret: &str) -> (token: Option<
    String,
>)
    ensures
        issued_at(token, now, user_id, role, hours, secret@),
{
    proof {
        crate::role::role_survives_token(role);
    }
    match expiry(now, hours) {
        Some(exp) => Some(encode_claims(user_id, role_name(role), exp as u64, secret)),
        None => None,
    }
}

/// Issues a token at the second that the clock gives, good for `hours` hours.
/// There is none where the expiry is no representable moment.
pub fn create_token(user_id: i32, role: Role, hours: i64, secret: &str) -> (token: Option<String>)
    ensures
        exists|now: i64|
            crate::clock::clock_gave(now) && crate::clock::clock_reading(now)
                && #[trigger] issued_at(
                token,
                now,
                user_id,
                role,
                hours,
                secret@,
            ),
{
    let now: i64 = read_clock();
    issue_token(now, user_id, role, hours, secret)
}

/// Whether the JSON text of a role claim is an object with one member, of this
/// name and null.
fn null_under(text: &str, name: &str) -> (found: bool)
    ensures
        found == is_null_under(text@, name@),
{
    if contains_char(text, ',') {
        return false;
    }
    match parse_json_member(text, name) {
        Some(member) => same_text(member.as_str(), "null"),
        None => false,
    }
}

/// Picks the role whose name was found.
pub fn pick_role(admin: bool, editor: bool, user: bool) -> (role: Option<Role>)
    ensures
        role == role_named(admin, editor, user),
{
    if admin {
        Some(Role::Admin)
    } else if editor {
        Some(Role::Editor)
    } else if user {
        Some(Role::User)
    } else {
        None
    }
}

/// Reads the JSON text of a role claim.
pub fn read_role_json(text: &str) -> (role: Option<Role>)
    ensures
        role == role_of_json(text@),
{
    match parse_json_string(text) {
        Some(name) => read_role(name.as_str()),
        None => pick_role(
            null_under(text, role_name(Role::Admin)),
            null_under(text, role_name(Role::Editor)),
            null_under(text, role_name(Role::User)),
        ),
    }
}

/// Puts claims together out of what was read of their members.
pub fn join_members(
    user_id: Option<i32>,
    role: Option<Role>,
    exp: Option<u64>,
    repeated: bool,
) -> (claims: Option<Claims>)
    ensures
        claims == claims_of_members(user_id, role, exp, repeated),
{
    match (user_id, role, exp) {
        (Some(user_id), Some(role), Some(exp)) => if !repeated && exp <= usize::MAX as u64 {
            Some(Claims { user_id, role, exp: exp as usize })
        } else {
            None
        },
        _ => None,
    }
}

/// Reads the claims in the JSON text of a payload.
pub fn read_claims(payload: &str) -> (claims: Option<Claims>)
    ensures
        claims == claims_of_payload(payload@),
{
    let user_id: Option<i32> = match parse_json_member(payload, "user_id") {
        Some(text) => parse_json_i32(text.as_str()),
        None => None,
    };
    let role: Option<Role> = match parse_json_member(payload, "role") {
        Some(text) => read_role_json(text.as_str()),
        None => None,
    };
    let exp: Option<u64> = match parse_json_member(payload, "exp") {
        Some(text) => parse_json_u64(text.as_str()),
        None => None,
    };
    let repeated: bool = is_repeated(payload, "user_id") || is_repeated(payload, "role")
        || is_repeated(payload, "exp");
    join_members(user_id, role, exp, repeated)
}

/// The claims that a checked token grants its bearer.
pub fn claims_of(decoded: Decoded) -> (claims: Option<Claims>)
    ensures
        claims == granted_claims(decoded),
{
    match decoded {
        Decoded::Valid { payload } => read_claims(payload.as_str()),
        Decoded::Expired => None,
        Decoded::Refused => None,
    }
}

/// Checks a token: the claims in the payload that the check accepted, and none
/// where it accepted none. These are the claims that the token grants under
/// `secret` at the time of the check: those it carries until a minute past its
/// expiry and none from then on. A text without a dot grants none.
pub fn verify_token(token: &str, secret: &str) -> (claims: Option<Claims>)
    ensures
        exists|decoded: Decoded| #[trigger]
            crate::jwt::check_gave(token@, secret@, decoded) && claims == granted_claims(decoded),
        exists|now: u64|
            crate::jwt::check_time(now) && claims == #[trigger] granted_at(token@, secret@, now),
        !token@.contains('.') ==> claims is None,
{
    let decoded: Decoded = check_token(token, secret);
    let ghost now = choose|now: u64|
        crate::jwt::check_time(now) && #[trigger] crate::jwt::decoded_at(
            decoded,
            token@,
            secret@,
            now,
        );
    assert(granted_claims(decoded) == granted_at(token@, secret@, now));
    claims_of(decoded)
}

} // verus!
