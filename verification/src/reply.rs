//! Replies to requests.

use vstd::prelude::*;

verus! {

/// The request was carried out.
pub const OK: u16 = 200;

/// The request was understood and the database refused it.
pub const BAD_REQUEST: u16 = 400;

/// The sender is not, or not validly, identified.
pub const UNAUTHORIZED: u16 = 401;

/// The sender is identified and may not do this.
pub const FORBIDDEN: u16 = 403;

/// The body of a reply.
#[derive(Debug, PartialEq, Eq)]
pub enum Body {
    /// Plain text.
    Text(String),
    /// A JSON object whose one field, `token`, is this token.
    Token(String),
}

/// A status and a body.
#[derive(Debug, PartialEq, Eq)]
pub struct Reply {
    pub status: u16,
    pub body: Body,
}

/// The mathematical content of a body.
pub enum BodyView {
    Text(Seq<char>),
    Token(Seq<char>),
}

/// The mathematical content of a reply.
pub struct ReplyView {
    pub status: u16,
    pub body: BodyView,
}

impl View for Reply {
    type V = ReplyView;

    open spec fn view(&self) -> ReplyView {
        ReplyView {
            status: self.status,
            body: match self.body {
                Body::Text(text) => BodyView::Text(text@),
                Body::Token(token) => BodyView::Token(token@),
            },
        }
    }
}

/// The reply with a status and a plain text.
pub open spec fn text_reply(status: u16, text: Seq<char>) -> ReplyView {
    ReplyView { status, body: BodyView::Text(text) }
}

/// The reply that hands out a token.
pub open spec fn token_reply(token: Seq<char>) -> ReplyView {
    ReplyView { status: OK, body: BodyView::Token(token) }
}

impl Reply {
    /// A reply with a status and a plain text.
    pub fn text(status: u16, text: String) -> (reply: Reply)
        ensures
            reply@ == text_reply(status, text@),
    {
        Reply { status, body: Body::Text(text) }
    }

    /// A reply that hands out a token.
    pub fn token(token: String) -> (reply: Reply)
        ensures
            reply@ == token_reply(token@),
    {
        Reply { status: OK, body: Body::Token(token) }
    }
}

/// The reply to a request that came down to one write: `done` if the database
/// carried it out, and otherwise the database's own message.
pub open spec fn write_reply(outcome: Result<(), String>, done: Seq<char>) -> ReplyView {
    match outcome {
        Ok(_) => text_reply(OK, done),
        Err(message) => text_reply(BAD_REQUEST, message@),
    }
}

/// Answers a request that came down to one write.
pub(crate) fn reply_to_write(outcome: Result<(), String>, done: &str) -> (reply: Reply)
    ensures
        reply@ == write_reply(outcome, done@),
{
    match outcome {
        Ok(_) => Reply::text(OK, done.to_owned()),
        Err(message) => Reply::text(BAD_REQUEST, message),
    }
}

} // verus!
