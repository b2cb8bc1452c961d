//! What holds of the reply to every rejection.

use vstd::prelude::*;

use crate::error::Error;
use crate::rejection::{reply_to, Condition, Rejection};
use crate::response::is_plain;

verus! {

/// Of the three things known of a rejection, the first that holds decides:
/// that no route matched, then the failure it carries, then that the method
/// is not served. A rejection with none of them is unrecognized.
pub proof fn lemma_first_match_decides(err: Rejection)
    ensures
        err.condition() == Condition::NotFound <==> err.not_found,
        forall|error: Error|
            err.condition() == Condition::Failed(error) <==> !err.not_found && err.error == Some(
                error,
            ),
        err.condition() == Condition::MethodNotAllowed <==> !err.not_found && err.error is None
            && err.method_not_allowed,
        err.condition() == Condition::Unrecognized <==> !err.not_found && err.error is None
            && !err.method_not_allowed,
{
}

/// Rejections that meet the same condition get the same status and the same
/// body, whatever else is known of them: the reply to the client does not
/// depend on the detail that diagnostics show.
pub proof fn lemma_reply_follows_condition(a: Rejection, b: Rejection)
    requires
        a.condition() == b.condition(),
    ensures
        reply_to(a).status == reply_to(b).status,
        reply_to(a).body == reply_to(b).body,
{
}

/// The messages and the status lines hold no character that JSON escapes.
pub proof fn lemma_answers_are_plain(condition: Condition)
    ensures
        is_plain(condition.message()),
        is_plain(condition.status().line()),
{
    reveal_strlit("Not Found");
    reveal_strlit("Method Not Allowed");
    reveal_strlit("Internal Server Error");
    reveal_strlit("wrong credentials");
    reveal_strlit("jwt token not valid");
    reveal_strlit("no auth header");
    reveal_strlit("invalid auth header");
    reveal_strlit("no permission");
    reveal_strlit("400 Bad Request");
    reveal_strlit("401 Unauthorized");
    reveal_strlit("403 Forbidden");
    reveal_strlit("404 Not Found");
    reveal_strlit("405 Method Not Allowed");
    reveal_strlit("500 Internal Server Error");
}

/// The body of every reply is an object of exactly two members, `message`
/// and `status` in this order, and each holds its text as it is, between
/// quotation marks: nothing in either text needs an escape or ends the
/// string early.
pub proof fn lemma_body_has_two_strings(err: Rejection)
    ensures
        reply_to(err).body == "{\"message\":\""@ + err.condition().message()
            + "\",\"status\":\""@ + reply_to(err).status.line() + "\"}"@,
        is_plain(err.condition().message()),
        is_plain(reply_to(err).status.line()),
{
    lemma_answers_are_plain(err.condition());
    reveal_strlit("{\"message\":");
    reveal_strlit(",\"status\":");
    reveal_strlit("}");
    reveal_strlit("{\"message\":\"");
    reveal_strlit("\",\"status\":\"");
    reveal_strlit("\"}");
    assert(reply_to(err).body =~= "{\"message\":\""@ + err.condition().message()
        + "\",\"status\":\""@ + reply_to(err).status.line() + "\"}"@);
}

/// A missing route is answered with 404 and "Not Found", whatever else the
/// rejection holds, and nothing goes to diagnostics.
pub proof fn lemma_not_found(err: Rejection)
    requires
        err.not_found,
    ensures
        err.condition() == Condition::NotFound,
        reply_to(err).status.number() == 404,
        err.condition().message() == "Not Found"@,
        reply_to(err).body == "{\"message\":\"Not Found\",\"status\":\"404 Not Found\"}"@,
        reply_to(err).diagnostic is None,
{
    lemma_body_has_two_strings(err);
    reveal_strlit("Not Found");
    reveal_strlit("404 Not Found");
    reveal_strlit("{\"message\":\"");
    reveal_strlit("\",\"status\":\"");
    reveal_strlit("\"}");
    reveal_strlit("{\"message\":\"Not Found\",\"status\":\"404 Not Found\"}");
    assert(reply_to(err).body =~= "{\"message\":\"Not Found\",\"status\":\"404 Not Found\"}"@);
}

/// An authentication failure is answered by the table: each failure with its
/// status, and with its own message unless a token could not be issued.
/// Nothing goes to diagnostics.
pub proof fn lemma_failure(err: Rejection, error: Error)
    requires
        err.condition() == Condition::Failed(error),
    ensures
        error == Error::WrongCredentialsError ==> reply_to(err).status.number() == 403
            && err.condition().message() == "wrong credentials"@,
        error == Error::NoPermissionError ==> reply_to(err).status.number() == 401
            && err.condition().message() == "no permission"@,
        error == Error::JWTTokenError ==> reply_to(err).status.number() == 403
            && err.condition().message() == "jwt token not valid"@,
        error == Error::JWTTokenCreationError ==> reply_to(err).status.number() == 500
            && err.condition().message() == "Internal Server Error"@,
        error == Error::NoAuthHeaderError ==> reply_to(err).status.number() == 400
            && err.condition().message() == "no auth header"@,
        error == Error::InvalidAuthHeaderError ==> reply_to(err).status.number() == 400
            && err.condition().message() == "invalid auth header"@,
        error != Error::JWTTokenCreationError ==> err.condition().message() == error.message(),
        reply_to(err).diagnostic is None,
{
}

/// A failure to issue a token is answered with 500 and the fixed words
/// "Internal Server Error": the body is that of an unrecognized rejection,
/// and the message is not the failure's own.
pub proof fn lemma_token_creation_is_hidden(err: Rejection)
    requires
        err.condition() == Condition::Failed(Error::JWTTokenCreationError),
    ensures
        reply_to(err).status.number() == 500,
        err.condition().message() == "Internal Server Error"@,
        err.condition().message() != Error::JWTTokenCreationError.message(),
        reply_to(err).body
            == "{\"message\":\"Internal Server Error\",\"status\":\"500 Internal Server Error\"}"@,
{
    lemma_internal_error_body(err);
    reveal_strlit("Internal Server Error");
    reveal_strlit("jwt token creation error");
    assert("Internal Server Error"@[0] != "jwt token creation error"@[0]);
}

/// A method that is not served is answered with 405 and "Method Not
/// Allowed", and nothing goes to diagnostics.
pub proof fn lemma_method_not_allowed(err: Rejection)
    requires
        err.condition() == Condition::MethodNotAllowed,
    ensures
        reply_to(err).status.number() == 405,
        err.condition().message() == "Method Not Allowed"@,
        reply_to(err).body
            == "{\"message\":\"Method Not Allowed\",\"status\":\"405 Method Not Allowed\"}"@,
        reply_to(err).diagnostic is None,
{
    lemma_body_has_two_strings(err);
    reveal_strlit("Method Not Allowed");
    reveal_strlit("405 Method Not Allowed");
    reveal_strlit("{\"message\":\"");
    reveal_strlit("\",\"status\":\"");
    reveal_strlit("\"}");
    reveal_strlit("{\"message\":\"Method Not Allowed\",\"status\":\"405 Method Not Allowed\"}");
    assert(reply_to(err).body
        =~= "{\"message\":\"Method Not Allowed\",\"status\":\"405 Method Not Allowed\"}"@);
}

/// An unrecognized rejection is answered with 500 and "Internal Server
/// Error". The body is one fixed text, whatever the rejection's detail; the
/// detail goes to diagnostics, after the words "unhandled error: ".
pub proof fn lemma_unrecognized(err: Rejection)
    requires
        err.condition() == Condition::Unrecognized,
    ensures
        reply_to(err).status.number() == 500,
        err.condition().message() == "Internal Server Error"@,
        reply_to(err).body
            == "{\"message\":\"Internal Server Error\",\"status\":\"500 Internal Server Error\"}"@,
        reply_to(err).diagnostic == Some("unhandled error: "@ + err.detail@),
{
    lemma_internal_error_body(err);
}

/// The body of a reply with 500 and "Internal Server Error".
proof fn lemma_internal_error_body(err: Rejection)
    requires
        err.condition() == Condition::Unrecognized || err.condition() == Condition::Failed(
            Error::JWTTokenCreationError,
        ),
    ensures
        reply_to(err).body
            == "{\"message\":\"Internal Server Error\",\"status\":\"500 Internal Server Error\"}"@,
{
    lemma_body_has_two_strings(err);
    reveal_strlit("Internal Server Error");
    reveal_strlit("500 Internal Server Error");
    reveal_strlit("{\"message\":\"");
    reveal_strlit("\",\"status\":\"");
    reveal_strlit("\"}");
    reveal_strlit(
        "{\"message\":\"Internal Server Error\",\"status\":\"500 Internal Server Error\"}",
    );
    assert(reply_to(err).body
        =~= "{\"message\":\"Internal Server Error\",\"status\":\"500 Internal Server Error\"}"@);
}

} // verus!
