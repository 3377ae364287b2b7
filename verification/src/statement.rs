//! The statements that the service asks of its database, each with the values
//! for its placeholders in the order of its fields.

use vstd::prelude::*;

verus! {

/// Adds a user, with the role of every new user.
#[derive(Debug, PartialEq, Eq)]
pub struct InsertUser {
    pub email: String,
    /// The password's hash.
    pub password: String,
}

/// Looks up the user with an email address.
#[derive(Debug, PartialEq, Eq)]
pub struct FindUser {
    pub email: String,
}

/// Adds a product. The service never looks into a price.
#[derive(Debug, PartialEq, Eq)]
pub struct InsertProduct<P> {
    pub name: String,
    pub price: P,
}

/// Lists all products.
#[derive(Debug, PartialEq, Eq)]
pub struct ListProducts;

/// A row that `FindUser` finds.
#[derive(Debug, PartialEq, Eq)]
pub struct UserRow {
    pub id: i32,
    pub password: Option<String>,
    pub role: Option<String>,
}

/// A row that `ListProducts` finds.
#[derive(Debug, PartialEq, Eq)]
pub struct Product<P> {
    pub id: i32,
    pub name: Option<String>,
    pub price: Option<P>,
}

impl InsertUser {
    /// The text of the statement.
    pub fn sql(&self) -> (sql: &'static str)
        ensures
            sql@ == "INSERT INTO users (email, password, role) VALUES (?, ?, 'user')"@,
    {
        "INSERT INTO users (email, password, role) VALUES (?, ?, 'user')"
    }
}

impl FindUser {
    /// The text of the statement.
    pub fn sql(&self) -> (sql: &'static str)
        ensures
            sql@ == "SELECT id, password, role FROM users WHERE email = ?"@,
    {
        "SELECT id, password, role FROM users WHERE email = ?"
    }
}

impl<P> InsertProduct<P> {
    /// The text of the statement.
    pub fn sql(&self) -> (sql: &'static str)
        ensures
            sql@ == "INSERT INTO products (name, price) VALUES (?, ?)"@,
    {
        "INSERT INTO products (name, price) VALUES (?, ?)"
    }
}

impl ListProducts {
    /// The text of the statement.
    pub fn sql(&self) -> (sql: &'static str)
        ensures
            sql@ == "SELECT id, name, price FROM products"@,
    {
        "SELECT id, name, price FROM products"
    }
}

} // verus!
