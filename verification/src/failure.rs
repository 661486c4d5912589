//! The reply that stands in for a response when the file service fails.

use vstd::prelude::*;

verus! {

/// The status of every such reply.
pub const INTERNAL_SERVER_ERROR: u16 = 500;

/// A status and a diagnostic body.
#[derive(Debug, PartialEq, Eq)]
pub struct ErrorReply {
    pub status: u16,
    pub body: String,
}

/// What the body says before the failure's own description: plainly, or
/// with the status and its reason phrase.
pub open spec fn body_prefix(with_label: bool) -> Seq<char> {
    if with_label {
        "static router IO error (500 Internal Server Error): "@
    } else {
        "static router IO error: "@
    }
}

/// The diagnostic body: the prefix, then the description of the failure.
pub open spec fn error_body(detail: Seq<char>, with_label: bool) -> Seq<char> {
    body_prefix(with_label) + detail
}

/// `status_code::statuses::code`: the reason phrase that the crate's table
/// gives for a status; for 500 it is `Internal Server Error`. The crate
/// panics on a status that it does not list.
#[verifier::external_body]
fn reason_phrase(status: u16) -> (phrase: &'static str)
    requires
        status == 500,
    ensures
        phrase@ == "Internal Server Error"@,
{
    status_code::statuses::code(status)
}

/// Builds the reply to a failure of the file service from the failure's
/// description: status 500 and a body that ends with the description.
pub fn io_error_reply(detail: &str, with_label: bool) -> (reply: ErrorReply)
    ensures
        reply.status == INTERNAL_SERVER_ERROR,
        reply.body@ == error_body(detail@, with_label),
{
    let status = INTERNAL_SERVER_ERROR;
    let body = if with_label {
        let phrase = reason_phrase(status);
        let mut text = String::from_str("static router IO error (500 ");
        text.append(phrase);
        text.append("): ");
        proof {
            reveal_strlit("static router IO error (500 ");
            reveal_strlit("Internal Server Error");
            reveal_strlit("): ");
            reveal_strlit("static router IO error (500 Internal Server Error): ");
            assert(text@ =~= body_prefix(true));
        }
        text.append(detail);
        text
    } else {
        let mut text = String::from_str("static router IO error: ");
        text.append(detail);
        text
    };
    ErrorReply { status, body }
}

} // verus!
