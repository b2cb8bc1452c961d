//! From a rejected request to the error reply that answers it.

use vstd::prelude::*;

use crate::error::Error;
use crate::response::{json_object, ErrorResponse};
use crate::status::Status;

verus! {

/// What is known of a rejected request.
#[derive(Debug, PartialEq, Eq)]
pub struct Rejection {
    /// No route matched the request.
    pub not_found: bool,
    /// The authentication failure that the rejection carries, if any.
    pub error: Option<Error>,
    /// A route matched the path of the request, but not its method.
    pub method_not_allowed: bool,
    /// The rejection as diagnostics render it. It is for the operator and
    /// never reaches the client.
    pub detail: String,
}

/// The one condition that a rejection is answered for.
#[derive(Clone, Copy, Debug, PartialEq, Eq, Structural)]
pub enum Condition {
    /// No route matched.
    NotFound,
    /// The authentication layer failed the request.
    Failed(Error),
    /// The method of the request is not served.
    MethodNotAllowed,
    /// Anything else.
    Unrecognized,
}

/// The reply to a rejected request.
#[derive(Debug, PartialEq, Eq)]
pub struct ErrorReply {
    /// The status of the reply.
    pub status: Status,
    /// The body of the reply, a JSON object.
    pub body: String,
    /// A line for the operator's diagnostics, where the rejection was not
    /// recognized.
    pub diagnostic: Option<String>,
}

/// What an [`ErrorReply`] holds.
pub struct ErrorReplyView {
    pub status: Status,
    pub body: Seq<char>,
    pub diagnostic: Option<Seq<char>>,
}

impl View for ErrorReply {
    type V = ErrorReplyView;

    open spec fn view(&self) -> ErrorReplyView {
        ErrorReplyView {
            status: self.status,
            body: self.body@,
            diagnostic: match self.diagnostic {
                Some(line) => Some(line@),
                None => None,
            },
        }
    }
}

impl Rejection {
    /// The condition that decides the reply. A missing route comes before an
    /// authentication failure, and that before a method that is not served.
    pub open spec fn condition(self) -> Condition {
        if self.not_found {
            Condition::NotFound
        } else if let Some(error) = self.error {
            Condition::Failed(error)
        } else if self.method_not_allowed {
            Condition::MethodNotAllowed
        } else {
            Condition::Unrecognized
        }
    }

    /// Finds the condition that decides the reply.
    pub fn classify(&self) -> (condition: Condition)
        ensures
            condition == self.condition(),
    {
        if self.not_found {
            Condition::NotFound
        } else if let Some(error) = self.error {
            Condition::Failed(error)
        } else if self.method_not_allowed {
            Condition::MethodNotAllowed
        } else {
            Condition::Unrecognized
        }
    }
}

impl Condition {
    /// The status that the condition is answered with.
    pub open spec fn status(self) -> Status {
        match self {
            Condition::NotFound => Status::NotFound,
            Condition::Failed(Error::WrongCredentialsError) => Status::Forbidden,
            Condition::Failed(Error::NoPermissionError) => Status::Unauthorized,
            Condition::Failed(Error::JWTTokenError) => Status::Forbidden,
            Condition::Failed(Error::JWTTokenCreationError) => Status::InternalServerError,
            Condition::Failed(Error::NoAuthHeaderError) => Status::BadRequest,
            Condition::Failed(Error::InvalidAuthHeaderError) => Status::BadRequest,
            Condition::MethodNotAllowed => Status::MethodNotAllowed,
            Condition::Unrecognized => Status::InternalServerError,
        }
    }

    /// The message that the client is given. A failure to issue a token and an
    /// unrecognized rejection say nothing of their cause.
    pub open spec fn message(self) -> Seq<char> {
        match self {
            Condition::NotFound => "Not Found"@,
            Condition::Failed(Error::JWTTokenCreationError) => "Internal Server Error"@,
            Condition::Failed(error) => error.message(),
            Condition::MethodNotAllowed => "Method Not Allowed"@,
            Condition::Unrecognized => "Internal Server Error"@,
        }
    }

    /// The status and the message that the condition is answered with.
    pub fn status_and_message(&self) -> (answer: (Status, String))
        ensures
            answer.0 == self.status(),
            answer.1@ == self.message(),
    {
        match self {
            Condition::NotFound => (Status::NotFound, String::from_str("Not Found")),
            Condition::Failed(error) => match error {
                Error::WrongCredentialsError => (Status::Forbidden, error.to_string()),
                Error::NoPermissionError => (Status::Unauthorized, error.to_string()),
                Error::JWTTokenError => (Status::Forbidden, error.to_string()),
                Error::JWTTokenCreationError => (
                    Status::InternalServerError,
                    String::from_str("Internal Server Error"),
                ),
                _ => (Status::BadRequest, error.to_string()),
            },
            Condition::MethodNotAllowed => (
                Status::MethodNotAllowed,
                String::from_str("Method Not Allowed"),
            ),
            Condition::Unrecognized => (
                Status::InternalServerError,
                String::from_str("Internal Server Error"),
            ),
        }
    }
}

/// The line that diagnostics get for an unrecognized rejection.
pub open spec fn diagnostic_line(detail: Seq<char>) -> Seq<char> {
    "unhandled error: "@ + detail
}

/// The reply that `err` is answered with.
pub open spec fn reply_to(err: Rejection) -> ErrorReplyView {
    let condition = err.condition();
    ErrorReplyView {
        status: condition.status(),
        body: json_object(condition.message(), condition.status().line()),
        diagnostic: if condition is Unrecognized {
            Some(diagnostic_line(err.detail@))
        } else {
            None
        },
    }
}

/// Turns a rejected request into the reply for the client, and, where the
/// rejection is not recognized, a line for the operator.
pub fn handler_rejection(err: Rejection) -> (reply: ErrorReply)
    ensures
        reply@ == reply_to(err),
{
    let condition = err.classify();
    let (code, message) = condition.status_and_message();
    let diagnostic = match condition {
        Condition::Unrecognized => {
            let mut line = String::from_str("unhandled error: ");
            line.append(err.detail.as_str());
            Some(line)
        },
        _ => None,
    };
    let response = ErrorResponse { status: code.to_string(), message };
    ErrorReply { status: code, body: response.to_json(), diagnostic }
}

} // verus!
