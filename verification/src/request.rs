//! The bodies of requests.

use vstd::prelude::*;

verus! {

/// The body of a registration or a login.
#[derive(Debug, PartialEq, Eq)]
pub struct AuthBody {
    pub email: String,
    pub password: String,
}

/// The body of a request for a new product.
#[derive(Debug, PartialEq, Eq)]
pub struct ProductBody<P> {
    pub name: String,
    pub price: P,
}

} // verus!
