//! The errors that the library reports, and what it reads of an error to report it.
use vstd::prelude::*;
use crate::status::Status;

pub mod query_string_parse_error;
pub mod request_error;
pub mod repository_error;
pub mod id_parse_error;
pub mod from_request_error;
pub mod body_parser_error;

pub use self::query_string_parse_error::{QueryStringParseError, SpecQueryStringParseError};
pub use self::request_error::RequestError;
pub use self::repository_error::RepositoryError;
pub use self::id_parse_error::IdParseError;
pub use self::from_request_error::FromRequestError;
pub use self::body_parser_error::{BodyError, BodyParserError};

verus! {

/// What the library reads of an error in order to report it in a JSONAPI error document: a short
/// description and the full message.
pub trait ErrorDescription {
    /// A short description of the error.
    fn description(&self) -> String;

    /// The full, human readable message of the error.
    fn message(&self) -> String;
}

/// The HTTP status that an error of a repository is reported with.
pub trait ErrorStatus {
    /// The status of this error.
    fn status(&self) -> Status;
}

} // verus!
