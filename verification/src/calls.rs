//! What callers see of the service: how the results of calls relate to their
//! arguments, to the clock, and to the results of other calls.

use crate::config::expire_hours;
use crate::json::is_repeated;
use crate::jwt::Decoded;
use crate::login::{check_login, grant, judge_login, login, login_reply, login_reply_at};
use crate::middleware::{bearer_token, JwtMiddlewareService};
use crate::password::{hash_password, password_answer};
use crate::products::{create_product, create_product_reply, get_products_reply, Catalogue};
use crate::register::{register, register_reply};
use crate::reply::{Body, Reply};
use crate::request::{AuthBody, ProductBody};
use crate::role::{parse_role, read_role, role_name, Role};
use crate::statement::{FindUser, InsertProduct, InsertUser, Product, UserRow};
use crate::text::{parse_i64, strip_prefix};
use crate::token::{create_token, issue_token, read_claims, verify_token, Claims};
use vstd::prelude::*;

verus! {

/// Whether a reply has this status and this plain text.
pub open spec fn says_text(reply: Reply, status: int, text: Seq<char>) -> bool {
    reply.status == status && (reply.body matches Body::Text(body) && body@ == text)
}

/// The JSON text of the one member of this name, if there is just one.
pub open spec fn only_member(object: Seq<char>, name: Seq<char>) -> Option<Seq<char>> {
    if crate::json::repeated(object, name) {
        None
    } else {
        crate::json::json_member(object, name)
    }
}

/// Whether the JSON text of a claim names this role: as a string, or as the one
/// member of an object, which is null.
pub open spec fn names_role(text: Seq<char>, role: Role) -> bool {
    let name = match role {
        Role::Admin => "Admin"@,
        Role::Editor => "Editor"@,
        Role::User => "User"@,
    };
    match crate::json::json_string(text) {
        Some(string) => string == name,
        None => !text.contains(',') && crate::json::json_member(text, name) == Some("null"@),
    }
}

/// Whether a payload makes these three claims, each of them once.
pub open spec fn makes(payload: Seq<char>, claims: Claims) -> bool {
    &&& only_member(payload, "user_id"@) matches Some(text) && crate::json::json_i32(text) == Some(
        claims.user_id,
    )
    &&& only_member(payload, "role"@) matches Some(text) && names_role(text, claims.role)
    &&& only_member(payload, "exp"@) matches Some(text) && crate::json::json_u64(text) == Some(
        claims.exp as u64,
    )
}

/// The expiry `hours` hours after the second `issued`.
pub open spec fn lapse(issued: i64, hours: i64) -> usize {
    #[verifier::truncate] ((issued + 3600 * hours) as i64 as usize)
}

/// The claims that a payload makes are the ones that are read of it.
proof fn lemma_read_claims(payload: Seq<char>)
    ensures
        match crate::token::claims_of_payload(payload) {
            Some(claims) => makes(payload, claims),
            None => forall|claims: Claims| !makes(payload, claims),
        },
{
    crate::role::role_survives_token(Role::Admin);
    crate::role::role_survives_token(Role::Editor);
    crate::role::role_survives_token(Role::User);
}

/// The result of `verify_token` is the result of checking that token under that
/// secret: the claims that the accepted payload makes, whatever they are, and
/// none only where the check accepted no payload, found the token expired, or
/// the payload does not make the claims.
pub proof fn check_decides_on_the_token(
    token: &str,
    secret: &str,
    claims: Option<Claims>,
) -> (decoded: Decoded)
    requires
        call_ensures(verify_token, (token, secret), claims),
    ensures
        crate::jwt::check_gave(token@, secret@, decoded),
        match decoded {
            Decoded::Valid { payload } => match claims {
                Some(claims) => makes(payload@, claims),
                None => forall|claims: Claims| !makes(payload@, claims),
            },
            Decoded::Expired => claims is None,
            Decoded::Refused => claims is None,
        },
{
    let decoded = choose|decoded: Decoded| #[trigger]
        crate::jwt::check_gave(token@, secret@, decoded) && claims
            == crate::token::granted_claims(decoded);
    if let Decoded::Valid { payload } = decoded {
        lemma_read_claims(payload@);
    }
    decoded
}

/// What a check gives of an issued token: its claims, or that it has expired.
proof fn lemma_check_of_issued(
    issued: i64,
    user_id: i32,
    role: Role,
    hours: i64,
    token: Option<String>,
    secret: Seq<char>,
    decoded: Decoded,
) -> (now: u64)
    requires
        token is Some,
        crate::token::issued_at(token, issued, user_id, role, hours, secret),
        crate::jwt::check_gave(token->0@, secret, decoded),
    ensures
        crate::token::granted_claims(decoded) == if decoded is Valid {
            Some(Claims { user_id, role, exp: lapse(issued, hours) })
        } else {
            None
        },
        60 <= now,
        decoded is Valid <==> now <= lapse(issued, hours) + 60,
        decoded is Expired <==> lapse(issued, hours) + 60 < now,
{
    let _ = crate::jwt::check_is_of_the_token(token->0@, secret, decoded);
    choose|now: u64|
        crate::jwt::check_time(now) && #[trigger] crate::jwt::decoded_at(
            decoded,
            token->0@,
            secret,
            now,
        )
}

/// What is read of an issued token is what was written into it. Its check finds
/// it in date or, from a minute past its expiry on, expired; as long as it is
/// found in date it grants the user, the role and the expiry that it was issued
/// with, however far the expiry is.
pub proof fn issued_token_grants_what_it_was_issued_for(
    issued: i64,
    user_id: i32,
    role: Role,
    hours: i64,
    secret: &str,
    token: String,
    presented: &str,
    claims: Option<Claims>,
) -> (check: (Decoded, u64))
    requires
        call_ensures(issue_token, (issued, user_id, role, hours, secret), Some(token)),
        presented@ == token@,
        call_ensures(verify_token, (presented, secret), claims),
    ensures
        crate::jwt::check_gave(token@, secret@, check.0),
        check.0 is Valid <==> check.1 <= lapse(issued, hours) + 60,
        check.0 is Expired <==> lapse(issued, hours) + 60 < check.1,
        check.0 is Valid ==> claims == Some(Claims { user_id, role, exp: lapse(issued, hours) }),
        !(check.0 is Valid) ==> claims is None,
{
    let decoded = choose|decoded: Decoded| #[trigger]
        crate::jwt::check_gave(presented@, secret@, decoded) && claims
            == crate::token::granted_claims(decoded);
    let now = lemma_check_of_issued(
        issued,
        user_id,
        role,
        hours,
        Some(token),
        secret@,
        decoded,
    );
    (decoded, now)
}

/// A token that is issued at a given second expires `hours` hours after it,
/// neither sooner nor later, and makes the claims that it was issued for. None
/// is issued only where one of the two moments is none that the calendar has.
pub proof fn issued_token_expires_hours_after_issue(
    issued: i64,
    user_id: i32,
    role: Role,
    hours: i64,
    secret: &str,
    token: Option<String>,
)
    requires
        call_ensures(issue_token, (issued, user_id, role, hours, secret), token),
    ensures
        token is Some <==> {
            &&& crate::clock::FIRST_SECOND <= issued <= crate::clock::LAST_SECOND
            &&& crate::clock::FIRST_SECOND <= issued + 3600 * hours <= crate::clock::LAST_SECOND
        },
        token matches Some(t) ==> (crate::jwt::jwt_payload(t@, secret@) matches Some(payload)
            && makes(payload, Claims { user_id, role, exp: lapse(issued, hours) })),
{
    if let Some(t) = token {
        lemma_read_claims(crate::jwt::jwt_payload(t@, secret@)->0);
    }
}

/// The same claims, issued at the same second under the same secret, are the
/// same token.
pub proof fn issuing_is_repeatable(
    issued: i64,
    user_id: i32,
    role: Role,
    hours: i64,
    secret: &str,
    first: Option<String>,
    second: Option<String>,
)
    requires
        call_ensures(issue_token, (issued, user_id, role, hours, secret), first),
        call_ensures(issue_token, (issued, user_id, role, hours, secret), second),
    ensures
        crate::text::optional(first) == crate::text::optional(second),
{
}

/// A created token expires `hours` hours after a reading that the clock gave,
/// neither sooner nor later, and makes the claims that it was created for. None
/// is created only where that moment is none that the calendar has.
pub proof fn created_token_expires_hours_after_the_clock(
    user_id: i32,
    role: Role,
    hours: i64,
    secret: &str,
    token: Option<String>,
) -> (now: i64)
    requires
        call_ensures(create_token, (user_id, role, hours, secret), token),
    ensures
        crate::clock::clock_gave(now),
        token is Some <==> crate::clock::FIRST_SECOND <= now + 3600 * hours
            <= crate::clock::LAST_SECOND,
        token matches Some(t) ==> (crate::jwt::jwt_payload(t@, secret@) matches Some(payload)
            && makes(payload, Claims { user_id, role, exp: lapse(now, hours) })),
{
    let now = choose|now: i64|
        crate::clock::clock_gave(now) && crate::clock::clock_reading(now)
            && #[trigger] crate::token::issued_at(token, now, user_id, role, hours, secret@);
    if let Some(t) = token {
        lemma_read_claims(crate::jwt::jwt_payload(t@, secret@)->0);
    }
    now
}

/// A created token, presented again, grants the user and the role that it was
/// created for and an expiry `hours` hours after a reading that the clock gave,
/// as long as its check finds it in date; and nothing once it is found expired.
pub proof fn created_token_is_verified(
    user_id: i32,
    role: Role,
    hours: i64,
    secret: &str,
    token: String,
    presented: &str,
    claims: Option<Claims>,
) -> (times: (i64, Decoded, u64))
    requires
        call_ensures(create_token, (user_id, role, hours, secret), Some(token)),
        presented@ == token@,
        call_ensures(verify_token, (presented, secret), claims),
    ensures
        crate::clock::clock_gave(times.0),
        crate::jwt::check_gave(token@, secret@, times.1),
        times.1 is Valid <==> times.2 <= lapse(times.0, hours) + 60,
        times.1 is Valid ==> claims == Some(
            Claims { user_id, role, exp: lapse(times.0, hours) },
        ),
        !(times.1 is Valid) ==> claims is None,
{
    let issued = choose|now: i64|
        crate::clock::clock_gave(now) && crate::clock::clock_reading(now)
            && #[trigger] crate::token::issued_at(Some(token), now, user_id, role, hours, secret@);
    let decoded = choose|decoded: Decoded| #[trigger]
        crate::jwt::check_gave(presented@, secret@, decoded) && claims
            == crate::token::granted_claims(decoded);
    let now = lemma_check_of_issued(
        issued,
        user_id,
        role,
        hours,
        Some(token),
        secret@,
        decoded,
    );
    (issued, decoded, now)
}

/// The claims that are read of a payload are those that it makes.
pub proof fn claims_are_read_of_the_payload(payload: &str, claims: Option<Claims>)
    requires
        call_ensures(read_claims, (payload,), claims),
    ensures
        match claims {
            Some(claims) => makes(payload@, claims),
            None => forall|claims: Claims| !makes(payload@, claims),
        },
{
    lemma_read_claims(payload@);
}

/// The token in a header is what follows "Bearer ", and is empty in a header of
/// another scheme.
pub proof fn token_follows_the_scheme(header: &str, token: &str)
    requires
        call_ensures(bearer_token, (header,), token),
    ensures
        if "Bearer "@.is_prefix_of(header@) {
            header@ == "Bearer "@ + token@
        } else {
            token@.len() == 0
        },
{
}

/// A request whose header presents a token is decided on by the check of that
/// token under the service's secret: it is admitted with the claims that the
/// accepted payload makes, whatever the role, and refused as unauthorized only
/// where the check accepted no payload, found the token expired, or the payload
/// does not make the claims.
pub proof fn presented_token_decides_on_the_request<S>(
    service: &JwtMiddlewareService<S>,
    header: &str,
    token: Seq<char>,
    secret: &str,
    admission: Result<Claims, Reply>,
) -> (decoded: Decoded)
    requires
        header@ == "Bearer "@ + token,
        call_ensures(JwtMiddlewareService::<S>::call, (service, Some(header), secret), admission),
    ensures
        crate::jwt::check_gave(token, secret@, decoded),
        match admission {
            Ok(claims) => decoded matches Decoded::Valid { payload } && makes(payload@, claims),
            Err(reply) => says_text(reply, 401, "Invalid token"@) && (decoded matches
                Decoded::Valid { payload } ==> forall|claims: Claims| !makes(payload@, claims)),
        },
{
    crate::laws::presented_token_is_read(token);
    let decoded = choose|decoded: Decoded| #[trigger]
        crate::jwt::check_gave(
            crate::middleware::token_in_header(header@),
            secret@,
            decoded,
        ) && crate::middleware::admitted_by(admission, Some(header@), decoded);
    if let Decoded::Valid { payload } = decoded {
        lemma_read_claims(payload@);
    }
    decoded
}

/// Whoever presents an issued token is admitted as the user and in the role
/// that it was issued for, whichever role that is, as long as the check finds
/// the token in date, and is refused as unauthorized once it has expired.
pub proof fn holder_of_an_issued_token_is_admitted<S>(
    issued: i64,
    user_id: i32,
    role: Role,
    hours: i64,
    secret: &str,
    token: String,
    service: &JwtMiddlewareService<S>,
    header: &str,
    admission: Result<Claims, Reply>,
) -> (check: (Decoded, u64))
    requires
        call_ensures(issue_token, (issued, user_id, role, hours, secret), Some(token)),
        header@ == "Bearer "@ + token@,
        call_ensures(JwtMiddlewareService::<S>::call, (service, Some(header), secret), admission),
    ensures
        crate::jwt::check_gave(token@, secret@, check.0),
        check.0 is Valid <==> check.1 <= lapse(issued, hours) + 60,
        check.0 is Valid ==> admission == Ok::<Claims, Reply>(
            Claims { user_id, role, exp: lapse(issued, hours) },
        ),
        !(check.0 is Valid) ==> (admission matches Err(reply) && says_text(
            reply,
            401,
            "Invalid token"@,
        )),
{
    crate::laws::presented_token_is_read(token@);
    let decoded = choose|decoded: Decoded| #[trigger]
        crate::jwt::check_gave(
            crate::middleware::token_in_header(header@),
            secret@,
            decoded,
        ) && crate::middleware::admitted_by(admission, Some(header@), decoded);
    let now = lemma_check_of_issued(
        issued,
        user_id,
        role,
        hours,
        Some(token),
        secret@,
        decoded,
    );
    (decoded, now)
}

/// A request without an `Authorization` header, or with one of another scheme,
/// is refused as unauthorized, and told which of the two.
pub proof fn requests_without_a_token_are_refused<S>(
    service: &JwtMiddlewareService<S>,
    header: Option<&str>,
    secret: &str,
    admission: Result<Claims, Reply>,
)
    requires
        header matches Some(value) ==> !"Bearer "@.is_prefix_of(value@),
        call_ensures(JwtMiddlewareService::<S>::call, (service, header, secret), admission),
    ensures
        admission matches Err(reply) && says_text(
            reply,
            401,
            if header is None {
                "No token"@
            } else {
                "Invalid token"@
            },
        ),
{
}

/// A granted login is answered with a token for the user and the role that
/// expires `hours` hours after a reading that the clock gave, neither sooner nor
/// later. It goes unanswered only where that moment is none that the calendar
/// has.
pub proof fn login_token_expires_hours_after_the_clock(
    user_id: i32,
    role: Role,
    hours: i64,
    secret: &str,
    reply: Option<Reply>,
) -> (now: i64)
    requires
        call_ensures(grant, (user_id, role, hours, secret), reply),
    ensures
        crate::clock::clock_gave(now),
        reply is Some <==> crate::clock::FIRST_SECOND <= now + 3600 * hours
            <= crate::clock::LAST_SECOND,
        reply matches Some(r) ==> r.status == 200 && (r.body matches Body::Token(token) && (
        crate::jwt::jwt_payload(token@, secret@) matches Some(payload) && makes(
            payload,
            Claims { user_id, role, exp: lapse(now, hours) },
        ))),
{
    let now = choose|now: i64|
        crate::clock::clock_gave(now) && crate::clock::clock_reading(now)
            && #[trigger] crate::login::answered_at(
            reply,
            now,
            Ok((user_id, role)),
            hours,
            secret@,
        );
    if let Some(r) = reply {
        if let Body::Token(token) = r.body {
            lemma_read_claims(crate::jwt::jwt_payload(token@, secret@)->0);
        }
    }
    now
}

/// Whether the row of a user has a password and this one opens it.
pub open spec fn knows_the_password(row: &UserRow, password: Seq<char>) -> bool {
    row.password matches Some(hash) && crate::password::bcrypt_answer(password, hash@) == Some(
        true,
    )
}

/// Whether a user-table column stands for this role: "admin" and "editor" do
/// for the roles of that name, everything else for a plain user.
pub open spec fn column_means(column: Option<String>, role: Role) -> bool {
    match role {
        Role::Admin => column matches Some(text) && text@ == "admin"@,
        Role::Editor => column matches Some(text) && text@ == "editor"@,
        Role::User => column matches Some(text) ==> text@ != "admin"@ && text@ != "editor"@,
    }
}

/// A login is judged by the row and by the answer of the password check: only
/// a row with a password and the answer that it fits are enough.
pub proof fn answer_decides_on_the_login(
    user: Option<&UserRow>,
    answer: Option<bool>,
    judged: Result<(i32, Role), Reply>,
)
    requires
        call_ensures(judge_login, (user, answer), judged),
    ensures
        match user {
            Some(row) => {
                &&& judged is Ok <==> row.password is Some && answer == Some(true)
                &&& judged matches Ok((user_id, role)) ==> user_id == row.id && column_means(
                    row.role,
                    role,
                )
                &&& judged matches Err(reply) ==> says_text(
                    reply,
                    401,
                    if row.password is None {
                        "no password"@
                    } else {
                        "wrong password"@
                    },
                )
            },
            None => judged matches Err(reply) && says_text(reply, 401, "user not found"@),
        },
{
    if let Some(row) = user {
        crate::role::only_exact_spellings_raise(row@.role);
    }
}

/// A login is granted just where the address has a user with a password and the
/// one that was sent opens it, and then for that user and the stored role. Any
/// other login is refused as unauthorized, with the reason.
pub proof fn password_decides_on_the_login(
    user: Option<&UserRow>,
    password: &str,
    judged: Result<(i32, Role), Reply>,
)
    requires
        call_ensures(check_login, (user, password), judged),
    ensures
        match user {
            Some(row) => {
                &&& judged is Ok <==> knows_the_password(row, password@)
                &&& judged matches Ok((user_id, role)) ==> user_id == row.id && column_means(
                    row.role,
                    role,
                )
                &&& judged matches Err(reply) ==> says_text(
                    reply,
                    401,
                    if row.password is None {
                        "no password"@
                    } else {
                        "wrong password"@
                    },
                )
            },
            None => judged matches Err(reply) && says_text(reply, 401, "user not found"@),
        },
{
    if let Some(row) = user {
        crate::role::only_exact_spellings_raise(row@.role);
    }
}

/// The answer to a login: with the right password a token for that user and the
/// stored role, which expires `hours` hours after a reading that the clock gave;
/// otherwise a refusal as unauthorized, whatever the lifetime.
pub proof fn login_is_answered_by_password_and_clock(
    user: Option<&UserRow>,
    password: &str,
    hours: i64,
    secret: &str,
    reply: Option<Reply>,
) -> (granted: (i64, Role))
    requires
        call_ensures(login_reply, (user, password, hours, secret), reply),
    ensures
        match user {
            Some(row) => if knows_the_password(row, password@) {
                &&& crate::clock::clock_gave(granted.0)
                &&& column_means(row.role, granted.1)
                &&& reply is Some <==> crate::clock::FIRST_SECOND <= granted.0 + 3600 * hours
                    <= crate::clock::LAST_SECOND
                &&& reply matches Some(r) ==> r.status == 200 && (r.body matches Body::Token(token)
                    && (crate::jwt::jwt_payload(token@, secret@) matches Some(payload) && makes(
                    payload,
                    Claims { user_id: row.id, role: granted.1, exp: lapse(granted.0, hours) },
                )))
            } else {
                reply matches Some(r) && says_text(
                    r,
                    401,
                    if row.password is None {
                        "no password"@
                    } else {
                        "wrong password"@
                    },
                )
            },
            None => reply matches Some(r) && says_text(r, 401, "user not found"@),
        },
{
    let found = crate::login::found(user);
    let verdict = crate::login::verdict(found, crate::login::answer_for(found, password@));
    if let Ok((_, role)) = verdict {
        crate::role::only_exact_spellings_raise(found->0.role);
        let now = choose|now: i64|
            crate::clock::clock_gave(now) && #[trigger] crate::login::answered_at(
                reply,
                now,
                verdict,
                hours,
                secret@,
            );
        crate::clock::reading_is_of_the_clock(now);
        if let Some(r) = reply {
            if let Body::Token(token) = r.body {
                lemma_read_claims(crate::jwt::jwt_payload(token@, secret@)->0);
            }
        }
        (now, role)
    } else {
        (0, Role::User)
    }
}

/// The answer to a login at a given second: with the right password a token for
/// that user and the stored role, which expires `hours` hours after that second;
/// otherwise a refusal as unauthorized, whatever the second and the lifetime.
pub proof fn login_is_answered_at_its_second(
    now: i64,
    user: Option<&UserRow>,
    password: &str,
    hours: i64,
    secret: &str,
    reply: Option<Reply>,
) -> (role: Role)
    requires
        call_ensures(login_reply_at, (now, user, password, hours, secret), reply),
        crate::clock::FIRST_SECOND <= now <= crate::clock::LAST_SECOND,
    ensures
        match user {
            Some(row) => if knows_the_password(row, password@) {
                &&& column_means(row.role, role)
                &&& reply is Some <==> crate::clock::FIRST_SECOND <= now + 3600 * hours
                    <= crate::clock::LAST_SECOND
                &&& reply matches Some(r) ==> r.status == 200 && (r.body matches Body::Token(token)
                    && (crate::jwt::jwt_payload(token@, secret@) matches Some(payload) && makes(
                    payload,
                    Claims { user_id: row.id, role, exp: lapse(now, hours) },
                )))
            } else {
                reply matches Some(r) && r.status == 401 && r.body is Text
            },
            None => reply matches Some(r) && says_text(r, 401, "user not found"@),
        },
{
    let found = crate::login::found(user);
    let verdict = crate::login::verdict(found, crate::login::answer_for(found, password@));
    if let Ok((_, role)) = verdict {
        crate::role::only_exact_spellings_raise(found->0.role);
        if let Some(r) = reply {
            if let Body::Token(token) = r.body {
                lemma_read_claims(crate::jwt::jwt_payload(token@, secret@)->0);
            }
        }
        role
    } else {
        Role::User
    }
}

/// A registration comes to nothing only where hashing the password gave no
/// hash. Whenever it gave one, the user is stored with the address as it was
/// sent and with that hash, at the default cost, which opens to the password.
pub proof fn registration_stores_the_hash(body: AuthBody, insert: Option<InsertUser>)
    requires
        call_ensures(register, (body,), insert),
    ensures
        match insert {
            Some(row) => {
                &&& row.email@ == body.email@
                &&& crate::password::hashing_gave(body.password@, Some(row.password@))
                &&& row.password@.len() == 60
                &&& "$2b$12$"@.is_prefix_of(row.password@)
                &&& crate::password::bcrypt_answer(body.password@, row.password@) == Some(true)
            },
            None => crate::password::hashing_gave(body.password@, None),
        },
{
    let hash = choose|hash: Option<Seq<char>>| #[trigger]
        crate::password::hashing_gave(body.password@, hash) && crate::register::inserts(
            insert,
            body.email@,
            hash,
        );
    let _ = crate::password::hash_is_of_the_password(body.password@, hash);
}

/// Whoever registered is let in with the same password, as a plain user and
/// under the id of the stored row.
pub proof fn registered_user_passes_the_login(
    body: AuthBody,
    insert: InsertUser,
    row: &UserRow,
    password: &str,
    judged: Result<(i32, Role), Reply>,
)
    requires
        call_ensures(register, (body,), Some(insert)),
        row.password matches Some(hash) && hash@ == insert.password@,
        row.role matches Some(role) && role@ == "user"@,
        password@ == body.password@,
        call_ensures(check_login, (Some(row), password), judged),
    ensures
        judged == Ok::<(i32, Role), Reply>((row.id, Role::User)),
{
    registration_stores_the_hash(body, Some(insert));
    crate::role::only_exact_spellings_raise(None);
}

/// A product is added, with the name and the price that were sent, just for
/// administrators and editors. A plain user is forbidden to, and a request
/// without claims is unauthorized.
pub proof fn role_decides_on_the_product<P>(
    attached: Option<&Claims>,
    body: ProductBody<P>,
    decision: Result<InsertProduct<P>, Reply>,
)
    requires
        call_ensures(create_product::<P>, (attached, body), decision),
    ensures
        decision is Ok <==> (attached matches Some(claims) && claims.role != Role::User),
        match decision {
            Ok(insert) => insert.name@ == body.name@ && insert.price == body.price,
            Err(reply) => if attached is None {
                says_text(reply, 401, "No user"@)
            } else {
                says_text(reply, 403, "Forbidden"@)
            },
        },
{
}

/// A write is answered by what became of it: with the service's own text where
/// the database carried it out, and with the database's message, as a bad
/// request, where it did not.
pub proof fn writes_are_answered_by_their_outcome(
    outcome: Result<(), String>,
    registered: Reply,
    created: Reply,
)
    requires
        call_ensures(register_reply, (outcome,), registered),
        call_ensures(create_product_reply, (outcome,), created),
    ensures
        match outcome {
            Ok(_) => says_text(registered, 200, "register success"@) && says_text(
                created,
                200,
                "product created"@,
            ),
            Err(message) => says_text(registered, 400, message@) && says_text(
                created,
                400,
                message@,
            ),
        },
{
}

/// A member is repeated just where some comma parts the object into two, each of
/// which has a member of that name.
pub proof fn repeated_member_is_on_both_sides_of_a_comma(object: &str, name: &str, found: bool)
    requires
        call_ensures(is_repeated, (object, name), found),
    ensures
        found <==> exists|front: Seq<char>, rest: Seq<char>|
            {
                &&& object@ == #[trigger] (front + ","@ + rest)
                &&& crate::json::json_member(front + "}"@, name@) is Some
                &&& crate::json::json_member("{"@ + rest, name@) is Some
            },
{
    reveal_strlit(",");
    let object = object@;
    let name = name@;
    if found {
        let i = choose|i: int|
            0 <= i < object.len() && #[trigger] crate::json::repeated_across(object, name, i);
        assert(object == object.take(i) + ","@ + object.skip(i + 1));
    }
    assert forall|front: Seq<char>, rest: Seq<char>|
        object == #[trigger] (front + ","@ + rest) && crate::json::json_member(
            front + "}"@,
            name,
        ) is Some && crate::json::json_member("{"@ + rest, name) is Some implies found by {
        let i = front.len() as int;
        assert(object.take(i) == front);
        assert(object.skip(i + 1) == rest);
        assert(object[i] == ',');
        assert(crate::json::repeated_across(object, name, i));
    }
}

/// What a prefix is put in front of is what is left when it is taken away.
pub proof fn prefix_is_taken_away(text: &str, prefix: &str, rest: Option<&str>)
    requires
        call_ensures(strip_prefix, (text, prefix), rest),
    ensures
        rest matches Some(rest) ==> text@ == prefix@ + rest@,
        rest is None ==> forall|tail: Seq<char>| text@ != #[trigger] (prefix@ + tail),
{
    if rest is None {
        assert forall|tail: Seq<char>| text@ != #[trigger] (prefix@ + tail) by {
            if text@ == prefix@ + tail {
                assert(prefix@.is_prefix_of(text@));
            }
        }
    } else {
        assert(text@ == prefix@ + rest->0@);
    }
}

/// A single character is a number just where it is a digit, and then that one.
pub proof fn digit_is_its_value(text: &str, c: char, number: Option<i64>)
    requires
        text@ == seq![c],
        call_ensures(parse_i64, (text,), number),
    ensures
        number == if '0' <= c && c <= '9' {
            Some((c as int - '0' as int) as i64)
        } else {
            None
        },
{
    assert(text@.drop_last().len() == 0);
    assert(text@.len() == 1 && text@[0] == c && text@.last() == c);
    assert(text@.skip(1).len() == 0);
    reveal_with_fuel(crate::text::numeral_value, 2);
    assert(crate::text::is_numeral(text@) == crate::text::is_digit(text@[0]));
}

/// A sign and a digit are the digit's value, negated behind a minus.
pub proof fn signed_digit_is_its_value(text: &str, sign: char, c: char, number: Option<i64>)
    requires
        text@ == seq![sign, c],
        sign == '-' || sign == '+',
        call_ensures(parse_i64, (text,), number),
    ensures
        number == if '0' <= c && c <= '9' {
            Some(
                (if sign == '-' {
                    '0' as int - c as int
                } else {
                    c as int - '0' as int
                }) as i64,
            )
        } else {
            None
        },
{
    let digits = text@.skip(1);
    assert(digits == seq![c]);
    assert(digits.drop_last().len() == 0);
    assert(digits.len() == 1 && digits[0] == c && digits.last() == c);
    reveal_with_fuel(crate::text::numeral_value, 2);
    assert(crate::text::is_numeral(digits) == crate::text::is_digit(digits[0]));
}

/// The digits of a text that denotes an integer, without the sign.
spec fn digits_of(text: Seq<char>) -> Seq<char> {
    if text.len() > 0 && (text[0] == '-' || text[0] == '+') {
        text.skip(1)
    } else {
        text
    }
}

/// Another character behind the digits.
proof fn lemma_one_more(digits: Seq<char>, c: char)
    ensures
        crate::text::is_numeral(digits.push(c)) <==> (digits.len() == 0
            || crate::text::is_numeral(digits)) && crate::text::is_digit(c),
        crate::text::numeral_value(digits.push(c)) == 10 * crate::text::numeral_value(digits) + (
        c as int - '0' as int),
        crate::text::is_numeral(digits) ==> crate::text::numeral_value(digits) >= 0,
{
    let more = digits.push(c);
    assert(more.drop_last() == digits);
    assert(more.last() == c);
    if crate::text::is_numeral(more) {
        assert(crate::text::is_digit(more[digits.len() as int]));
        assert forall|i: int| 0 <= i < digits.len() implies crate::text::is_digit(
            #[trigger] digits[i],
        ) by {
            assert(more[i] == digits[i]);
        }
    }
    if (digits.len() == 0 || crate::text::is_numeral(digits)) && crate::text::is_digit(c) {
        assert forall|i: int| 0 <= i < more.len() implies crate::text::is_digit(
            #[trigger] more[i],
        ) by {
            if i < digits.len() {
                assert(more[i] == digits[i]);
            }
        }
    }
    if crate::text::is_numeral(digits) {
        crate::text::lemma_numeral_grows(digits, 0);
        assert(digits.take(0).len() == 0);
    }
}

/// A digit behind a number multiplies it by ten and adds to its magnitude; a
/// number that leaves the range, and anything but a digit, is not read.
pub proof fn digit_behind_a_number_counts(
    text: &str,
    number: i64,
    c: char,
    longer: &str,
    result: Option<i64>,
)
    requires
        call_ensures(parse_i64, (text,), Some(number)),
        longer@ == text@.push(c),
        call_ensures(parse_i64, (longer,), result),
    ensures
        ({
            let value = if text@[0] == '-' {
                10 * number - (c as int - '0' as int)
            } else {
                10 * number + (c as int - '0' as int)
            };
            result == if '0' <= c && c <= '9' && i64::MIN <= value <= i64::MAX {
                Some(value as i64)
            } else {
                None
            }
        }),
{
    let digits = digits_of(text@);
    assert(digits.len() > 0);
    assert(digits_of(longer@) == digits.push(c));
    assert(longer@[0] == text@[0]);
    lemma_one_more(digits, c);
}

/// What is behind a text that is not read as a number, and is more than a sign,
/// does not make it one.
pub proof fn unread_text_stays_unread(text: &str, c: char, longer: &str, result: Option<i64>)
    requires
        call_ensures(parse_i64, (text,), None),
        text@.len() > 0,
        text@.len() == 1 ==> text@[0] != '-' && text@[0] != '+',
        longer@ == text@.push(c),
        call_ensures(parse_i64, (longer,), result),
    ensures
        result is None,
{
    let digits = digits_of(text@);
    assert(digits.len() > 0);
    assert(digits_of(longer@) == digits.push(c));
    assert(longer@[0] == text@[0]);
    lemma_one_more(digits, c);
}

/// The lifetime of tokens is the number that the setting is read as, and a day
/// where there is no setting.
pub proof fn setting_is_the_lifetime(
    setting: Option<&str>,
    hours: Option<i64>,
    text: &str,
    number: Option<i64>,
)
    requires
        call_ensures(expire_hours, (setting,), hours),
        setting matches Some(s) ==> s@ == text@,
        call_ensures(parse_i64, (text,), number),
    ensures
        hours == if setting is Some {
            number
        } else {
            Some(24i64)
        },
{
}

/// Whatever hash a password is given, the password check answers yes to that
/// password; and there is no hash only where hashing gave none.
pub proof fn hash_opens_to_its_password(
    password: &str,
    hash: Option<String>,
    stored: &str,
    answer: Option<bool>,
)
    requires
        call_ensures(hash_password, (password,), hash),
        hash matches Some(h) ==> stored@ == h@,
        call_ensures(password_answer, (password, stored), answer),
    ensures
        hash is Some ==> answer == Some(true),
        hash is None ==> crate::password::hashing_gave(password@, None),
{
}

/// Only the exact spellings "admin" and "editor" are read as a role above that
/// of a plain user.
pub proof fn spelling_decides_on_the_role(text: &str, role: Role)
    requires
        call_ensures(parse_role, (text,), role),
    ensures
        role == Role::Admin <==> text@ == "admin"@,
        role == Role::Editor <==> text@ == "editor"@,
{
    crate::role::only_exact_spellings_raise(Some(text@));
}

/// The name that a token carries for a role is read back as that role, and no
/// two roles share one.
pub proof fn role_is_read_back(role: Role, name: &'static str, text: &str, read: Option<Role>)
    requires
        call_ensures(role_name, (role,), name),
        call_ensures(read_role, (text,), read),
    ensures
        text@ == name@ <==> read == Some(role),
{
    crate::role::role_survives_token(Role::Admin);
    crate::role::role_survives_token(Role::Editor);
    crate::role::role_survives_token(Role::User);
}

/// A login looks up the address that was sent.
pub proof fn login_looks_up_the_sender(body: &AuthBody, find: FindUser)
    requires
        call_ensures(login, (body,), find),
    ensures
        find.email@ == body.email@,
{
}

/// The catalogue that is sent has every product that was read, in the order in
/// which they were read, and nothing else.
pub proof fn catalogue_has_every_product<P>(rows: Vec<Product<P>>, catalogue: Catalogue<P>)
    requires
        call_ensures(get_products_reply::<P>, (rows,), catalogue),
    ensures
        catalogue.status == 200,
        catalogue.products@.len() == rows@.len(),
        forall|i: int| 0 <= i < rows@.len() ==> #[trigger] catalogue.products@[i] == rows@[i],
{
}

/// The claims that a request was admitted with are the ones that decide on the
/// product: a bearer of an issued token that is in date may add it just where
/// the token was issued to an administrator or an editor.
pub proof fn issued_role_decides_on_the_product<S, P>(
    issued: i64,
    user_id: i32,
    role: Role,
    hours: i64,
    secret: &str,
    token: String,
    service: &JwtMiddlewareService<S>,
    header: &str,
    claims: Claims,
    body: ProductBody<P>,
    decision: Result<InsertProduct<P>, Reply>,
)
    requires
        call_ensures(issue_token, (issued, user_id, role, hours, secret), Some(token)),
        header@ == "Bearer "@ + token@,
        call_ensures(JwtMiddlewareService::<S>::call, (service, Some(header), secret), Ok(claims)),
        call_ensures(create_product::<P>, (Some(&claims), body), decision),
    ensures
        claims.user_id == user_id,
        claims.role == role,
        decision is Ok <==> role == Role::Admin || role == Role::Editor,
{
    let _ = holder_of_an_issued_token_is_admitted(
        issued,
        user_id,
        role,
        hours,
        secret,
        token,
        service,
        header,
        Ok(claims),
    );
}

} // verus!
