//! The answers the web front end gives to account requests, decided from what
//! the account store reported.

use vstd::prelude::*;
use vstd::string::*;

verus! {

/// HTTP status 200: the request succeeded.
pub const STATUS_OK: u16 = 200u16;

/// HTTP status 201: an account was created.
pub const STATUS_CREATED: u16 = 201u16;

/// HTTP status 404: nothing matched the request.
pub const STATUS_NOT_FOUND: u16 = 404u16;

/// HTTP status 500: the account store failed.
pub const STATUS_INTERNAL_SERVER_ERROR: u16 = 500u16;

/// The account store failed to carry out a request.
#[derive(Clone, Copy, Debug, PartialEq, Eq, Structural)]
pub struct StoreError;

/// What an answer carries.
#[derive(Debug)]
pub enum ReplyBody {
    /// Nothing.
    Empty,
    /// Plain text.
    Text(String),
    /// An account id, sent as JSON.
    JsonId(i32),
}

/// An answer: its HTTP status and what it carries.
#[derive(Debug)]
pub struct Reply {
    pub status: u16,
    pub body: ReplyBody,
}

/// The answer carries exactly the text `text`.
pub open spec fn has_text(body: ReplyBody, text: Seq<char>) -> bool {
    body matches ReplyBody::Text(t) && t@ == text
}

fn text_reply(status: u16, text: &str) -> (r: Reply)
    ensures
        r.status == status,
        has_text(r.body, text@),
{
    Reply { status, body: ReplyBody::Text(String::from_str(text)) }
}

/// The answer to a sign-up form once the new account was stored, or the
/// store failed: a confirmation, or a server error with nothing in it.
pub fn create_account_reply(outcome: &Result<(), StoreError>) -> (r: Reply)
    ensures
        outcome is Ok ==> r.status == STATUS_OK && has_text(
            r.body,
            "Account created successfully"@,
        ),
        outcome is Err ==> r.status == STATUS_INTERNAL_SERVER_ERROR && r.body is Empty,
{
    match outcome {
        Ok(()) => text_reply(STATUS_OK, "Account created successfully"),
        Err(_) => Reply { status: STATUS_INTERNAL_SERVER_ERROR, body: ReplyBody::Empty },
    }
}

/// The answer to a search for a user name, given what the lookup of its id
/// found: found, not found, or a server error.
pub fn search_user_reply(lookup: &Result<Option<i64>, StoreError>) -> (r: Reply)
    ensures
        lookup matches Ok(Some(_)) ==> r.status == STATUS_OK && has_text(r.body, "User Found!"@),
        lookup matches Ok(None) ==> r.status == STATUS_NOT_FOUND && has_text(
            r.body,
            "User not Found"@,
        ),
        lookup is Err ==> r.status == STATUS_INTERNAL_SERVER_ERROR && has_text(
            r.body,
            "Internal Server Error"@,
        ),
{
    match lookup {
        Ok(Some(_)) => text_reply(STATUS_OK, "User Found!"),
        Ok(None) => text_reply(STATUS_NOT_FOUND, "User not Found"),
        Err(_) => text_reply(STATUS_INTERNAL_SERVER_ERROR, "Internal Server Error"),
    }
}

/// The answer to an account registration given the id the store assigned to
/// the new account, or its failure: the id as JSON, or a server error with
/// nothing in it.
pub fn register_account_reply(outcome: &Result<i32, StoreError>) -> (r: Reply)
    ensures
        outcome matches Ok(id) ==> r.status == STATUS_CREATED && r.body == ReplyBody::JsonId(*id),
        outcome is Err ==> r.status == STATUS_INTERNAL_SERVER_ERROR && r.body is Empty,
{
    match outcome {
        Ok(id) => Reply { status: STATUS_CREATED, body: ReplyBody::JsonId(*id) },
        Err(_) => Reply { status: STATUS_INTERNAL_SERVER_ERROR, body: ReplyBody::Empty },
    }
}

} // verus!
