//! The HTTP statuses that an error reply can carry.

use vstd::prelude::*;

verus! {

/// The status of an error reply.
#[derive(Clone, Copy, Debug, PartialEq, Eq, Structural)]
pub enum Status {
    /// 400
    BadRequest,
    /// 401
    Unauthorized,
    /// 403
    Forbidden,
    /// 404
    NotFound,
    /// 405
    MethodNotAllowed,
    /// 500
    InternalServerError,
}

/// Whether `line` holds a string that reads `text`.
pub open spec fn reads(line: Option<String>, text: Seq<char>) -> bool {
    line matches Some(shown) && shown@ == text
}

/// The status line of the status with number `code`, as `http::StatusCode`
/// displays it; `None` where `http::StatusCode::from_u16` refuses the number.
///
/// Trusted: `from_u16` accepts exactly the numbers from 100 to 999, and the
/// `Display` impl writes the number, a space and the canonical reason phrase.
/// The phrases of the six statuses that this library replies with are those of
/// the crate's status table.
#[verifier::external_body]
fn status_line(code: u16) -> (line: Option<String>)
    ensures
        line is Some <==> 100 <= code <= 999,
        code == 400 ==> reads(line, "400 Bad Request"@),
        code == 401 ==> reads(line, "401 Unauthorized"@),
        code == 403 ==> reads(line, "403 Forbidden"@),
        code == 404 ==> reads(line, "404 Not Found"@),
        code == 405 ==> reads(line, "405 Method Not Allowed"@),
        code == 500 ==> reads(line, "500 Internal Server Error"@),
{
    match warp::http::StatusCode::from_u16(code) {
        Ok(status) => Some(status.to_string()),
        Err(_) => None,
    }
}

impl Status {
    /// The three-digit number of the status.
    pub open spec fn number(self) -> u16 {
        match self {
            Status::BadRequest => 400,
            Status::Unauthorized => 401,
            Status::Forbidden => 403,
            Status::NotFound => 404,
            Status::MethodNotAllowed => 405,
            Status::InternalServerError => 500,
        }
    }

    /// The status as text: its number, a space and its standard reason phrase.
    pub open spec fn line(self) -> Seq<char> {
        match self {
            Status::BadRequest => "400 Bad Request"@,
            Status::Unauthorized => "401 Unauthorized"@,
            Status::Forbidden => "403 Forbidden"@,
            Status::NotFound => "404 Not Found"@,
            Status::MethodNotAllowed => "405 Method Not Allowed"@,
            Status::InternalServerError => "500 Internal Server Error"@,
        }
    }

    /// The number of the status.
    pub fn code(&self) -> (code: u16)
        ensures
            code == self.number(),
    {
        match self {
            Status::BadRequest => 400,
            Status::Unauthorized => 401,
            Status::Forbidden => 403,
            Status::NotFound => 404,
            Status::MethodNotAllowed => 405,
            Status::InternalServerError => 500,
        }
    }

    /// Renders the status as its status line.
    pub fn to_string(&self) -> (text: String)
        ensures
            text@ == self.line(),
    {
        status_line(self.code()).unwrap()
    }
}

} // verus!
