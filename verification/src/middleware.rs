//! Admission of requests by their bearer token.

use crate::jwt::Decoded;
use crate::reply::{Reply, UNAUTHORIZED};
use crate::text::strip_prefix;
use crate::token::{verify_token, Claims};
use vstd::prelude::*;

verus! {

/// The token in the value of an `Authorization` header. A value that does not
/// begin with "Bearer " holds the empty token.
pub open spec fn token_in_header(value: Seq<char>) -> Seq<char> {
    match crate::text::without_prefix(value, "Bearer "@) {
        Some(token) => token,
        None => Seq::empty(),
    }
}

/// Whether `admission` is what a request gets, given the claims that checking
/// its token gave.
pub open spec fn admitted_with(
    admission: Result<Claims, Reply>,
    has_header: bool,
    claims: Option<Claims>,
) -> bool {
    match admission {
        Ok(admitted) => has_header && claims == Some(admitted),
        Err(reply) => if !has_header {
            reply@ == crate::reply::text_reply(UNAUTHORIZED, "No token"@)
        } else {
            claims is None && reply@ == crate::reply::text_reply(UNAUTHORIZED, "Invalid token"@)
        },
    }
}

/// The characters of a header value that may be absent.
pub open spec fn value_of(header: Option<&str>) -> Option<Seq<char>> {
    match header {
        Some(value) => Some(value@),
        None => None,
    }
}

/// Whether `admission` is what a request with this `Authorization` header gets
/// at the second `now`: the claims that the header's token grants at that time,
/// or a refusal. A token without a dot grants none.
pub open spec fn admitted_at(
    admission: Result<Claims, Reply>,
    header: Option<Seq<char>>,
    secret: Seq<char>,
    now: u64,
) -> bool {
    match header {
        None => admitted_with(admission, false, None),
        Some(value) => {
            let token = token_in_header(value);
            &&& admitted_with(admission, true, crate::token::granted_at(token, secret, now))
            &&& !token.contains('.') ==> admitted_with(admission, true, None)
        },
    }
}

/// Whether `admission` is what a request with this `Authorization` header gets,
/// given what the check of the header's token gave.
pub open spec fn admitted_by(
    admission: Result<Claims, Reply>,
    header: Option<Seq<char>>,
    decoded: Decoded,
) -> bool {
    admitted_with(admission, header is Some, crate::token::granted_claims(decoded))
}

/// The token in the value of an `Authorization` header; the empty text where
/// the value does not begin with "Bearer ".
pub fn bearer_token(value: &str) -> (token: &str)
    ensures
        token@ == token_in_header(value@),
{
    match strip_prefix(value, "Bearer ") {
        Some(token) => token,
        None => {
            proof {
                reveal_strlit("");
            }
            ""
        },
    }
}

/// Decides on a request, given whether it has an `Authorization` header and
/// what checking the header's token gave.
pub fn decide_admission(has_header: bool, claims: Option<Claims>) -> (admission: Result<Claims, Reply>)
    ensures
        admitted_with(admission, has_header, claims),
{
    if !has_header {
        return Err(Reply::text(UNAUTHORIZED, "No token".to_owned()));
    }
    match claims {
        Some(claims) => Ok(claims),
        None => Err(Reply::text(UNAUTHORIZED, "Invalid token".to_owned())),
    }
}

/// The factory of the token check.
#[derive(Debug)]
pub struct JwtMiddleware;

/// The token check in front of an inner service.
#[derive(Debug)]
pub struct JwtMiddlewareService<S> {
    service: S,
}

impl JwtMiddleware {
    /// Puts the token check in front of `service`.
    pub fn new_transform<S>(&self, service: S) -> (checked: JwtMiddlewareService<S>)
        ensures
            checked.inner() == service,
    {
        JwtMiddlewareService { service }
    }
}

impl<S> JwtMiddlewareService<S> {
    /// The inner service.
    pub closed spec fn inner(&self) -> S {
        self.service
    }

    /// The inner service, which is the one to be asked whether it is ready and
    /// to be given each admitted request.
    pub fn service(&self) -> (service: &S)
        ensures
            *service == self.inner(),
    {
        &self.service
    }

    /// Decides on a request by the value of its `Authorization` header: the
    /// claims to attach to it before the inner service sees it, or the reply
    /// that refuses it.
    pub fn call(&self, header: Option<&str>, secret: &str) -> (admission: Result<Claims, Reply>)
        ensures
            match header {
                Some(value) => exists|decoded: Decoded| #[trigger]
                    crate::jwt::check_gave(token_in_header(value@), secret@, decoded)
                        && admitted_by(admission, Some(value@), decoded),
                None => admitted_with(admission, false, None),
            },
            exists|now: u64|
                crate::jwt::check_time(now) && #[trigger] admitted_at(
                    admission,
                    value_of(header),
                    secret@,
                    now,
                ),
    {
        match header {
            Some(value) => {
                let token: &str = bearer_token(value);
                let claims: Option<Claims> = verify_token(token, secret);
                let admission: Result<Claims, Reply> = decide_admission(true, claims);
                proof {
                    let now = choose|now: u64|
                        crate::jwt::check_time(now) && claims
                            == #[trigger] crate::token::granted_at(token@, secret@, now);
                    assert(admitted_at(admission, value_of(header), secret@, now));
                }
                admission
            },
            None => {
                let admission: Result<Claims, Reply> = decide_admission(false, None);
                assert(crate::jwt::check_time(crate::jwt::LEEWAY) && admitted_at(
                    admission,
                    None,
                    secret@,
                    crate::jwt::LEEWAY,
                ));
                admission
            },
        }
    }
}

} // verus!
