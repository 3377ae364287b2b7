//! The boundary to the `jsonwebtoken` crate: signing and checking the claims
//! of this service.

use jsonwebtoken::errors::ErrorKind;
use jsonwebtoken::{decode, encode, DecodingKey, EncodingKey, Header, Validation};
use serde_json::value::RawValue;
use serde_json::{Map as JsonMap, Value};
use vstd::prelude::*;

verus! {

/// What checking a token gave.
pub enum Decoded {
    /// The signature holds and the token is in date; this is the JSON text of
    /// its payload.
    Valid { payload: String },
    /// The token was past its expiry when it was checked.
    Expired,
    /// The token was refused for a reason that does not depend on the time.
    Refused,
}

/// The seconds by which a token may be past its expiry and still hold.
pub const LEEWAY: u64 = 60;

/// Whether a token with the expiry `exp` is past it at the second `now`.
pub open spec fn is_past(exp: int, now: u64) -> bool {
    exp + LEEWAY < now
}

/// Whether a check of tokens can take place at the second `now` of Unix time.
/// The first minute of 1970 is left out.
pub open spec fn check_time(now: u64) -> bool {
    LEEWAY <= now
}

/// The token that `jsonwebtoken::encode` makes, with the default header, of
/// the claims `user_id`, `role` and `exp` under a shared secret.
pub uninterp spec fn jwt_encoded(user_id: i32, role: Seq<char>, exp: u64, secret: Seq<char>) -> Seq<char>;

/// The JSON text of the payload that `jsonwebtoken::decode` accepts of a token,
/// with the default validation under a shared secret, as long as the token is
/// not past its expiry; `None` where it accepts the token at no time.
pub uninterp spec fn jwt_payload(token: Seq<char>, secret: Seq<char>) -> Option<Seq<char>>;

/// The expiry in a payload, where it is a `u64`.
pub open spec fn expiry_in(payload: Seq<char>) -> Option<u64> {
    match crate::json::json_member(payload, "exp"@) {
        Some(text) => crate::json::json_u64(text),
        None => None,
    }
}

/// Whether a payload has each of the three claims once, with these values, the
/// role being written as a JSON string.
pub open spec fn payload_is(
    payload: Option<Seq<char>>,
    user_id: i32,
    role: Seq<char>,
    exp: u64,
) -> bool {
    payload matches Some(p) && {
        &&& crate::json::json_member(p, "user_id"@) matches Some(text) && crate::json::json_i32(
            text,
        ) == Some(user_id)
        &&& crate::json::json_member(p, "role"@) matches Some(text) && crate::json::json_string(
            text,
        ) == Some(role)
        &&& expiry_in(p) == Some(exp)
        &&& !crate::json::repeated(p, "user_id"@)
        &&& !crate::json::repeated(p, "role"@)
        &&& !crate::json::repeated(p, "exp"@)
    }
}

/// Whether `decoded` is what checking a token at `now` gives: the payload that
/// is accepted of it, unless the token is past its expiry. A token of which no
/// payload is accepted is not valid at any time. Of an expiry that is no `u64`
/// it is not said when it is past.
pub open spec fn decoded_at(
    decoded: Decoded,
    token: Seq<char>,
    secret: Seq<char>,
    now: u64,
) -> bool {
    match jwt_payload(token, secret) {
        Some(accepted) => {
            &&& decoded is Expired || (decoded matches Decoded::Valid { payload } && payload@
                == accepted)
            &&& expiry_in(accepted) matches Some(exp) ==> (decoded is Expired <==> is_past(
                exp as int,
                now,
            ))
        },
        None => !(decoded is Valid),
    }
}

/// Whether `decoded` is what checking a token gives at some second.
pub open spec fn decoded_at_some_time(
    decoded: Decoded,
    token: Seq<char>,
    secret: Seq<char>,
) -> bool {
    exists|now: u64| check_time(now) && #[trigger] decoded_at(decoded, token, secret, now)
}

/// Signs claims.
///
/// Trusted: `jsonwebtoken::encode` with the default header, which signs with
/// HMAC-SHA256, on an object of the three claims in this order. The token is a
/// function of the claims and the secret, and under the same secret its payload
/// is accepted and has each of the claims that went in, once. With a key made of
/// a secret and with such an object `encode` does not fail.
#[verifier::external_body]
pub(crate) fn encode_claims(user_id: i32, role: &str, exp: u64, secret: &str) -> (token: String)
    ensures
        token@ == jwt_encoded(user_id, role@, exp, secret@),
        payload_is(jwt_payload(token@, secret@), user_id, role@, exp),
{
    let mut claims: JsonMap<String, Value> = JsonMap::new();
    claims.insert("user_id".to_string(), Value::from(user_id));
    claims.insert("role".to_string(), Value::from(role));
    claims.insert("exp".to_string(), Value::from(exp));
    let key = EncodingKey::from_secret(secret.as_bytes());
    encode(&Header::default(), &claims, &key).unwrap()
}

/// Checks a token.
///
/// Trusted: `jsonwebtoken::decode` with the default validation, which asks for
/// an HMAC-SHA256 signature under the secret and for an expiry that is not
/// more than a minute before the time of the check. Apart from the expiry the
/// result is a function of the token and the secret, and a text without a dot
/// is never a token. Which second the check falls on is up to the machine's
/// clock and is left unsaid; it is taken to be past the first minute of 1970,
/// where `decode` subtracts the leeway without a check. The payload is taken as
/// a raw value of `serde_json`, which is text: a payload that is not UTF-8 is
/// refused.
#[verifier::external_body]
pub(crate) fn decode_token(token: &str, secret: &str) -> (decoded: Decoded)
    ensures
        decoded_at_some_time(decoded, token@, secret@),
        !token@.contains('.') ==> decoded is Refused,
{
    let key = DecodingKey::from_secret(secret.as_bytes());
    match decode::<Box<RawValue>>(token, &key, &Validation::default()) {
        Ok(data) => Decoded::Valid { payload: data.claims.get().to_string() },
        Err(error) => match error.kind() {
            ErrorKind::ExpiredSignature => Decoded::Expired,
            _ => Decoded::Refused,
        },
    }
}

/// Whether `decoded` is what a check of this token under this secret gave, at
/// the time of that check.
pub closed spec fn check_gave(token: Seq<char>, secret: Seq<char>, decoded: Decoded) -> bool {
    exists|t: &str, s: &str|
        t@ == token && s@ == secret && #[trigger] call_ensures(decode_token, (t, s), decoded)
}

/// Checks a token.
pub(crate) fn check_token(token: &str, secret: &str) -> (decoded: Decoded)
    ensures
        check_gave(token@, secret@, decoded),
        decoded_at_some_time(decoded, token@, secret@),
        !token@.contains('.') ==> decoded is Refused,
{
    decode_token(token, secret)
}

/// What a check gave is a result of `decode_token`, as it came.
pub(crate) proof fn check_is_of_the_token(
    token: Seq<char>,
    secret: Seq<char>,
    decoded: Decoded,
) -> (call: (&'static str, &'static str))
    requires
        check_gave(token, secret, decoded),
    ensures
        call.0@ == token,
        call.1@ == secret,
        call_ensures(decode_token, call, decoded),
        decoded_at_some_time(decoded, token, secret),
        !token.contains('.') ==> decoded is Refused,
{
    choose|t: &str, s: &str|
        t@ == token && s@ == secret && #[trigger] call_ensures(decode_token, (t, s), decoded)
}

} // verus!
