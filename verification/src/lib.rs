//! Decision logic of a small shop service: user registration and login with
//! bcrypt passwords, role-carrying JSON web tokens, and a product catalogue
//! that only administrators and editors may extend.
//!
//! Every function here works on plain values. The server around it reads
//! requests and the database, performs the statements it is handed, and sends
//! the replies it is given.

pub mod calls;
pub mod clock;
pub mod config;
pub mod json;
pub mod jwt;
pub mod laws;
pub mod login;
pub mod middleware;
pub mod password;
pub mod products;
pub mod register;
pub mod reply;
pub mod request;
pub mod role;
pub mod statement;
pub mod text;
pub mod token;
