//! The product catalogue.

use crate::reply::{reply_to_write, Reply, FORBIDDEN, OK, UNAUTHORIZED};
use crate::request::ProductBody;
use crate::role::Role;
use crate::statement::{InsertProduct, ListProducts, Product};
use crate::token::Claims;
use vstd::prelude::*;

verus! {

/// Whether a role may add products.
pub open spec fn may_create(role: Role) -> bool {
    role == Role::Admin || role == Role::Editor
}

/// Whether `decision` is what a request for a new product gets, given the
/// claims that are attached to it.
pub open spec fn decided_for<P>(
    decision: Result<InsertProduct<P>, Reply>,
    user: Option<Claims>,
    body: ProductBody<P>,
) -> bool {
    match decision {
        Ok(insert) => {
            &&& user matches Some(claims) && may_create(claims.role)
            &&& insert.name@ == body.name@
            &&& insert.price == body.price
        },
        Err(reply) => match user {
            Some(claims) => !may_create(claims.role) && reply@ == crate::reply::text_reply(
                FORBIDDEN,
                "Forbidden"@,
            ),
            None => reply@ == crate::reply::text_reply(UNAUTHORIZED, "No user"@),
        },
    }
}

/// The claims that are attached to a request, as a copy.
pub fn get_user(attached: Option<&Claims>) -> (user: Option<Claims>)
    ensures
        match attached {
            Some(claims) => user == Some(*claims),
            None => user is None,
        },
{
    match attached {
        Some(claims) => Some(*claims),
        None => None,
    }
}

/// Decides on a request for a new product by the claims that are attached to
/// it: the statement that adds the product, or the reply that refuses it.
pub fn create_product<P>(attached: Option<&Claims>, body: ProductBody<P>) -> (decision: Result<
    InsertProduct<P>,
    Reply,
>)
    ensures
        match attached {
            Some(claims) => decided_for(decision, Some(*claims), body),
            None => decided_for(decision, None, body),
        },
{
    let user: Claims = match get_user(attached) {
        Some(user) => user,
        None => return Err(Reply::text(UNAUTHORIZED, "No user".to_owned())),
    };
    if !(user.role == Role::Admin || user.role == Role::Editor) {
        return Err(Reply::text(FORBIDDEN, "Forbidden".to_owned()));
    }
    Ok(InsertProduct { name: body.name, price: body.price })
}

/// Answers a request for a new product, given what became of its statement.
pub fn create_product_reply(outcome: Result<(), String>) -> (reply: Reply)
    ensures
        reply@ == crate::reply::write_reply(outcome, "product created"@),
{
    reply_to_write(outcome, "product created")
}

/// The reply that lists the catalogue.
#[derive(Debug, PartialEq, Eq)]
pub struct Catalogue<P> {
    pub status: u16,
    pub products: Vec<Product<P>>,
}

/// Lists the catalogue, for anyone: the statement that reads it.
pub fn get_products() -> (list: ListProducts)
    ensures
        list == ListProducts,
{
    ListProducts
}

/// Answers a request for the catalogue with the rows that were read, all of
/// them and in their order.
pub fn get_products_reply<P>(rows: Vec<Product<P>>) -> (catalogue: Catalogue<P>)
    ensures
        catalogue.status == OK,
        catalogue.products@ == rows@,
{
    Catalogue { status: OK, products: rows }
}

} // verus!
