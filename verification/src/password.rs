//! The boundary to the `bcrypt` crate: hashing and checking passwords.

use vstd::prelude::*;

verus! {

/// The error type of `bcrypt`, carried through unread.
#[verifier::external_type_specification]
#[verifier::external_body]
pub struct ExBcryptError(bcrypt::BcryptError);

/// What `bcrypt::verify` answers of a password and a stored hash; `None` where
/// it reports an error, such as a text that is no bcrypt hash.
pub uninterp spec fn bcrypt_answer(password: Seq<char>, hash: Seq<char>) -> Option<bool>;

/// Whether a password is the one behind a stored hash. A hash that cannot be
/// checked has no password.
pub open spec fn opens(password: Seq<char>, hash: Seq<char>) -> bool {
    bcrypt_answer(password, hash) == Some(true)
}

/// Whether a text has the outer form of a hash at the default cost: version
/// and cost, then fifty-three characters of salt and digest.
pub open spec fn default_cost_hash(hash: Seq<char>) -> bool {
    hash.len() == 60 && "$2b$12$"@.is_prefix_of(hash)
}

/// Hashes a password.
///
/// Trusted: `bcrypt::hash` at `bcrypt::DEFAULT_COST`. The hash has the form of
/// that cost, and `bcrypt::verify` accepts the password for it. The salt is
/// random, so which hash comes out is left unsaid; so is when an error does,
/// which is where the system gives no random numbers.
#[verifier::external_body]
pub(crate) fn bcrypt_hash(password: &str) -> (hash: Result<String, bcrypt::BcryptError>)
    ensures
        hash matches Ok(hash) ==> default_cost_hash(hash@) && bcrypt_answer(password@, hash@)
            == Some(true),
{
    bcrypt::hash(password, bcrypt::DEFAULT_COST)
}

/// Whether an attempt to hash this password gave this hash, or `None` where the
/// attempt failed.
pub closed spec fn hashing_gave(password: Seq<char>, hash: Option<Seq<char>>) -> bool {
    exists|p: &str, attempt: Result<String, bcrypt::BcryptError>| #[trigger]
        call_ensures(bcrypt_hash, (p,), attempt) && p@ == password && match attempt {
            Ok(made) => hash == Some(made@),
            Err(_) => hash is None,
        }
}

/// What hashing gave is a result of `bcrypt_hash`, as it came.
pub(crate) proof fn hash_is_of_the_password(
    password: Seq<char>,
    hash: Option<Seq<char>>,
) -> (call: (&'static str, Result<String, bcrypt::BcryptError>))
    requires
        hashing_gave(password, hash),
    ensures
        call.0@ == password,
        call_ensures(bcrypt_hash, (call.0,), call.1),
        match call.1 {
            Ok(made) => hash == Some(made@),
            Err(_) => hash is None,
        },
        hash matches Some(h) ==> default_cost_hash(h) && opens(password, h),
{
    choose|p: &str, attempt: Result<String, bcrypt::BcryptError>| #[trigger]
        call_ensures(bcrypt_hash, (p,), attempt) && p@ == password && match attempt {
            Ok(made) => hash == Some(made@),
            Err(_) => hash is None,
        }
}

/// Checks a password against a stored hash.
///
/// Trusted: `bcrypt::verify`. Its answer, and whether there is one, is a
/// function of the password and the hash.
#[verifier::external_body]
fn bcrypt_verify(password: &str, hash: &str) -> (answer: Result<bool, bcrypt::BcryptError>)
    ensures
        match answer {
            Ok(accepted) => bcrypt_answer(password@, hash@) == Some(accepted),
            Err(_) => bcrypt_answer(password@, hash@) is None,
        },
{
    bcrypt::verify(password, hash)
}

/// The hash that an attempt to hash a password gave, if it gave one.
pub fn hash_of(attempt: Result<String, bcrypt::BcryptError>) -> (hash: Option<String>)
    ensures
        match attempt {
            Ok(made) => hash == Some(made),
            Err(_) => hash is None,
        },
{
    match attempt {
        Ok(made) => Some(made),
        Err(_) => None,
    }
}

/// Hashes a password, or gives `None` where hashing failed, which is where the
/// system has no random numbers for the salt.
pub fn hash_password(password: &str) -> (hash: Option<String>)
    ensures
        hashing_gave(password@, crate::text::optional(hash)),
        hash matches Some(hash) ==> default_cost_hash(hash@) && opens(password@, hash@),
{
    hash_of(bcrypt_hash(password))
}

/// The answer of the password check, `None` where the hash cannot be checked.
pub fn password_answer(password: &str, hash: &str) -> (answer: Option<bool>)
    ensures
        answer == bcrypt_answer(password@, hash@),
{
    match bcrypt_verify(password, hash) {
        Ok(accepted) => Some(accepted),
        Err(_) => None,
    }
}

} // verus!
