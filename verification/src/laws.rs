//! What the parts of the service promise together.

use crate::reply::Reply;
use crate::request::ProductBody;
use crate::role::Role;
use crate::statement::{InsertProduct, InsertUser};
use crate::token::Claims;
use vstd::prelude::*;

verus! {

/// The header value with which a client presents a token.
pub open spec fn bearer(token: Seq<char>) -> Seq<char> {
    "Bearer "@ + token
}

/// The token in a header value is the one that the client presented.
pub proof fn presented_token_is_read(token: Seq<char>)
    ensures
        crate::middleware::token_in_header(bearer(token)) == token,
{
    assert(bearer(token).skip("Bearer "@.len() as int) == token);
    assert("Bearer "@.is_prefix_of(bearer(token)));
}

/// A request is refused, and with which text, where it has no `Authorization`
/// header or one of another scheme.
pub proof fn other_schemes_are_refused(
    header: Option<Seq<char>>,
    secret: Seq<char>,
    now: u64,
    admission: Result<Claims, Reply>,
)
    requires
        crate::middleware::admitted_at(admission, header, secret, now),
        header matches Some(value) ==> !"Bearer "@.is_prefix_of(value),
    ensures
        admission matches Err(reply) && reply@ == crate::reply::text_reply(
            crate::reply::UNAUTHORIZED,
            if header is None {
                "No token"@
            } else {
                "Invalid token"@
            },
        ),
{
}

/// An admitted request presented a token that carries exactly the admitted
/// claims under the service's secret and is not past its expiry.
pub proof fn admission_needs_a_token(
    header: Option<Seq<char>>,
    secret: Seq<char>,
    now: u64,
    claims: Claims,
) -> (token: Seq<char>)
    requires
        crate::middleware::admitted_at(Ok(claims), header, secret, now),
    ensures
        header == Some(bearer(token)),
        crate::token::carried_claims(token, secret) == Some(claims),
        now <= claims.exp + crate::jwt::LEEWAY,
{
    let value = header->0;
    let token = crate::middleware::token_in_header(value);
    if "Bearer "@.is_prefix_of(value) {
        assert(bearer(token) == value);
    } else {
        assert(!token.contains('.'));
    }
    token
}

/// What is read of an issued token is what was written into it: until a minute
/// past the moment that it was issued for, the token grants the user, the role
/// and the expiry that it was issued with.
pub proof fn unexpired_token_is_granted(
    token: String,
    issued: i64,
    user_id: i32,
    role: Role,
    hours: i64,
    secret: Seq<char>,
    now: u64,
)
    requires
        crate::token::issued_at(Some(token), issued, user_id, role, hours, secret),
        0 <= issued + 3600 * hours <= usize::MAX,
        now <= issued + 3600 * hours + 60,
    ensures
        crate::token::granted_at(token@, secret, now) == Some(
            (Claims { user_id, role, exp: (issued + 3600 * hours) as usize }),
        ),
{
}

/// An issued token that is more than a minute past its expiry grants nothing,
/// although its signature is right.
pub proof fn expired_token_is_refused(
    token: String,
    issued: i64,
    user_id: i32,
    role: Role,
    hours: i64,
    secret: Seq<char>,
    exp: usize,
    now: u64,
)
    requires
        crate::token::issued_at(Some(token), issued, user_id, role, hours, secret),
        crate::clock::expiry_claim(issued, hours) == Some(exp),
        exp + 60 < now,
    ensures
        crate::token::granted_at(token@, secret, now) is None,
{
}

/// A token whose payload says one of the three claims more than once grants
/// nothing at any time, whatever the occurrences say.
pub proof fn repeated_claim_is_refused(
    token: Seq<char>,
    secret: Seq<char>,
    now: u64,
    payload: Seq<char>,
    name: Seq<char>,
)
    requires
        crate::jwt::jwt_payload(token, secret) == Some(payload),
        name == "user_id"@ || name == "role"@ || name == "exp"@,
        crate::json::repeated(payload, name),
    ensures
        crate::token::granted_at(token, secret, now) is None,
{
}

/// Whoever presents an issued token that is not past its expiry is admitted,
/// as the user and in the role that it was issued for, whatever the role is;
/// whoever presents one that is past its expiry is refused.
pub proof fn bearer_is_admitted_until_expiry(
    token: String,
    issued: i64,
    user_id: i32,
    role: Role,
    hours: i64,
    secret: Seq<char>,
    exp: usize,
    now: u64,
    admission: Result<Claims, Reply>,
)
    requires
        crate::token::issued_at(Some(token), issued, user_id, role, hours, secret),
        crate::clock::expiry_claim(issued, hours) == Some(exp),
        crate::middleware::admitted_at(admission, Some(bearer(token@)), secret, now),
    ensures
        now <= exp + 60 ==> admission == Ok::<Claims, Reply>(Claims { user_id, role, exp }),
        exp + 60 < now ==> (admission matches Err(reply) && reply@ == crate::reply::text_reply(
            crate::reply::UNAUTHORIZED,
            "Invalid token"@,
        )),
{
    presented_token_is_read(token@);
}

/// A product is added only for a request that presented a token which carries,
/// under the service's secret, the role of an administrator or an editor.
pub proof fn product_needs_privileged_token<P>(
    header: Option<Seq<char>>,
    secret: Seq<char>,
    now: u64,
    claims: Claims,
    body: ProductBody<P>,
    insert: InsertProduct<P>,
) -> (token: Seq<char>)
    requires
        crate::middleware::admitted_at(Ok(claims), header, secret, now),
        crate::products::decided_for(Ok(insert), Some(claims), body),
    ensures
        header == Some(bearer(token)),
        crate::token::carried_claims(token, secret) == Some(claims),
        now <= claims.exp + crate::jwt::LEEWAY,
        claims.role == Role::Admin || claims.role == Role::Editor,
{
    admission_needs_a_token(header, secret, now, claims)
}

/// A login hands out a token only where the address belongs to a user and the
/// password opens the hash stored for that user. The token then carries that
/// user and the role stored for that user.
pub proof fn token_needs_the_password(
    user: Option<crate::login::UserView>,
    password: Seq<char>,
    now: i64,
    hours: i64,
    secret: Seq<char>,
    reply: Reply,
    token: Seq<char>,
)
    requires
        crate::login::answered_at(
            Some(reply),
            now,
            crate::login::verdict(user, crate::login::answer_for(user, password)),
            hours,
            secret,
        ),
        reply@.body == crate::reply::BodyView::Token(token),
    ensures
        user matches Some(row) && {
            &&& row.password matches Some(hash) && crate::password::opens(password, hash)
            &&& crate::token::carried_claims(token, secret) matches Some(claims) && {
                &&& claims.user_id == row.id
                &&& claims.role == crate::role::role_of_column(row.role)
            }
        },
        reply.status == crate::reply::OK,
{
}

/// A login that is not granted is answered as unauthorized, whatever the
/// reason, and without regard to the time and the lifetime of tokens.
pub proof fn refused_login_is_unauthorized(
    user: Option<crate::login::UserView>,
    password: Seq<char>,
    now: i64,
    hours: i64,
    secret: Seq<char>,
    reply: Option<Reply>,
)
    requires
        crate::login::answered_at(
            reply,
            now,
            crate::login::verdict(user, crate::login::answer_for(user, password)),
            hours,
            secret,
        ),
        user matches Some(row) ==> row.password matches Some(hash) ==> !crate::password::opens(
            password,
            hash,
        ),
    ensures
        reply matches Some(r) && r.status == crate::reply::UNAUTHORIZED && r@.body is Text,
{
}

/// The row that a registration leaves in the user table.
pub open spec fn row_of_registration(id: i32, insert: InsertUser) -> crate::login::UserView {
    crate::login::UserView {
        id,
        password: Some(insert.password@),
        role: Some("user"@),
    }
}

/// Whoever registered can log in with the same password, as a plain user.
pub proof fn registered_user_can_log_in(
    id: i32,
    password: Seq<char>,
    insert: InsertUser,
    now: i64,
    hours: i64,
    secret: Seq<char>,
    reply: Option<Reply>,
)
    requires
        crate::password::opens(password, insert.password@),
        crate::clock::expiry_claim(now, hours) is Some,
        ({
            let user = Some(row_of_registration(id, insert));
            crate::login::answered_at(
                reply,
                now,
                crate::login::verdict(user, crate::login::answer_for(user, password)),
                hours,
                secret,
            )
        }),
    ensures
        ({
            let exp = crate::clock::expiry_claim(now, hours)->0;
            let claims = Claims { user_id: id, role: Role::User, exp };
            let token = crate::token::token_of_claims(claims, secret);
            &&& reply matches Some(r) && r@ == crate::reply::token_reply(token)
            &&& crate::token::carried_claims(token, secret) == Some(claims)
        }),
{
    crate::role::only_exact_spellings_raise(None);
}

/// The token that a registered user gets by logging in with the same password
/// verifies at once, and until a minute past its lifetime, as that of a plain
/// user.
pub proof fn registered_user_is_recognised(
    id: i32,
    password: Seq<char>,
    insert: InsertUser,
    issued: i64,
    hours: i64,
    secret: Seq<char>,
    reply: Option<Reply>,
    now: u64,
)
    requires
        crate::password::opens(password, insert.password@),
        crate::clock::hours_later(issued, hours) is Some,
        0 <= issued + 3600 * hours <= usize::MAX,
        now <= issued + 3600 * hours + 60,
        ({
            let user = Some(row_of_registration(id, insert));
            crate::login::answered_at(
                reply,
                issued,
                crate::login::verdict(user, crate::login::answer_for(user, password)),
                hours,
                secret,
            )
        }),
    ensures
        reply matches Some(r) && r.status == crate::reply::OK && (r@.body matches
            crate::reply::BodyView::Token(token) && crate::token::granted_at(token, secret, now)
            == Some(
            (Claims { user_id: id, role: Role::User, exp: (issued + 3600 * hours) as usize }),
        )),
{
    registered_user_can_log_in(id, password, insert, issued, hours, secret, reply);
}

/// The role stored for a user decides, by way of login and token, whether the
/// user may add products: "admin" and "editor" may, all others are forbidden.
pub proof fn stored_role_decides_on_products<P>(
    row: crate::login::UserView,
    password: Seq<char>,
    now: i64,
    hours: i64,
    secret: Seq<char>,
    reply: Reply,
    token: Seq<char>,
    checked: u64,
    claims: Claims,
    body: ProductBody<P>,
    decision: Result<InsertProduct<P>, Reply>,
)
    requires
        crate::login::answered_at(
            Some(reply),
            now,
            crate::login::verdict(Some(row), crate::login::answer_for(Some(row), password)),
            hours,
            secret,
        ),
        reply@.body == crate::reply::BodyView::Token(token),
        crate::middleware::admitted_at(Ok(claims), Some(bearer(token)), secret, checked),
        crate::products::decided_for(decision, Some(claims), body),
    ensures
        decision is Ok <==> row.role == Some("admin"@) || row.role == Some("editor"@),
        decision matches Err(refusal) ==> refusal@ == crate::reply::text_reply(
            crate::reply::FORBIDDEN,
            "Forbidden"@,
        ),
{
    presented_token_is_read(token);
    token_needs_the_password(Some(row), password, now, hours, secret, reply, token);
    crate::role::only_exact_spellings_raise(row.role);
}

} // verus!
