//! Authentication and authorization failures of a web service, and the HTTP
//! error reply that each of them is answered with.
//!
//! A rejected request is described by a [`Rejection`]. [`handler_rejection`]
//! picks the one [`Condition`] that decides the answer and builds the
//! [`ErrorReply`]: a [`Status`], a JSON body with the members `message` and
//! `status`, and, for a rejection that is not recognized, a line for the
//! operator's diagnostics.

pub mod error;
pub mod guarantees;
pub mod rejection;
pub mod response;
pub mod status;

pub use error::Error;
pub use rejection::{handler_rejection, Condition, ErrorReply, Rejection};
pub use response::ErrorResponse;
pub use status::Status;
