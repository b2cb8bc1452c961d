//! The failures that the authentication layer reports.

use vstd::prelude::*;

verus! {

/// Why a request was turned away by the authentication layer.
#[derive(Clone, Copy, Debug, PartialEq, Eq, Structural)]
pub enum Error {
    /// The user name or the password did not match.
    WrongCredentialsError,
    /// The token could not be decoded or did not verify.
    JWTTokenError,
    /// A token could not be issued.
    JWTTokenCreationError,
    /// The request carried no authorization header.
    NoAuthHeaderError,
    /// The authorization header was not of the expected form.
    InvalidAuthHeaderError,
    /// The caller's role does not allow the operation.
    NoPermissionError,
}

impl Error {
    /// The fixed description of this failure.
    pub open spec fn message(self) -> Seq<char> {
        match self {
            Error::WrongCredentialsError => "wrong credentials"@,
            Error::JWTTokenError => "jwt token not valid"@,
            Error::JWTTokenCreationError => "jwt token creation error"@,
            Error::NoAuthHeaderError => "no auth header"@,
            Error::InvalidAuthHeaderError => "invalid auth header"@,
            Error::NoPermissionError => "no permission"@,
        }
    }

    /// Renders the failure as its description.
    pub fn to_string(&self) -> (text: String)
        ensures
            text@ == self.message(),
    {
        match self {
            Error::WrongCredentialsError => String::from_str("wrong credentials"),
            Error::JWTTokenError => String::from_str("jwt token not valid"),
            Error::JWTTokenCreationError => String::from_str("jwt token creation error"),
            Error::NoAuthHeaderError => String::from_str("no auth header"),
            Error::InvalidAuthHeaderError => String::from_str("invalid auth header"),
            Error::NoPermissionError => String::from_str("no permission"),
        }
    }

    /// Renders the failure for diagnostics: one label for every failure, so
    /// that a log which prints the value learns nothing of the cause.
    pub fn debug_string(&self) -> (text: String)
        ensures
            text@ == "User"@,
    {
        String::from_str("User")
    }
}

} // verus!
