//! Errors of serving a request.
use vstd::prelude::*;
use crate::status::Status;
use super::{ErrorDescription, IdParseError, QueryStringParseError, RepositoryError};

verus! {

/// Wraps request related errors: no body where one is needed, no resource found, and the errors
/// of reading the id, of reading the query string and of the repository.
#[derive(Debug)]
pub enum RequestError<E> {
    NoBody,
    NotFound,
    IdParseError(IdParseError),
    RepositoryError(RepositoryError<E>),
    QueryStringParseError(QueryStringParseError),
}

impl<E> RequestError<E> {
    /// The status that the error is reported with.
    pub open spec fn spec_status(&self) -> Status {
        match self {
            RequestError::NotFound => Status::NotFound,
            RequestError::NoBody => Status::BadRequest,
            RequestError::IdParseError(_) => Status::BadRequest,
            RequestError::QueryStringParseError(_) => Status::BadRequest,
            RequestError::RepositoryError(err) => err.status,
        }
    }

    /// The status that the error is reported with.
    pub fn status(&self) -> (s: Status)
        ensures
            s == self.spec_status(),
    {
        match self {
            RequestError::NotFound => Status::NotFound,
            RequestError::NoBody => Status::BadRequest,
            RequestError::IdParseError(_) => Status::BadRequest,
            RequestError::QueryStringParseError(_) => Status::BadRequest,
            RequestError::RepositoryError(err) => err.status,
        }
    }
}

impl<E: ErrorDescription> RequestError<E> {
    /// The description: fixed for no body and not found, else that of the wrapped error.
    pub fn description(&self) -> (r: String)
        ensures
            self matches RequestError::NoBody ==> r@ == "No body"@,
            self matches RequestError::NotFound ==> r@ == "Not found"@,
            self matches RequestError::IdParseError(e) ==> r@ == e.description@,
            self matches RequestError::QueryStringParseError(e) ==> r@ == e@.description(),
            self matches RequestError::RepositoryError(re) ==> call_ensures(E::description, (&re.error,), r),
    {
        match self {
            RequestError::NoBody => String::from_str("No body"),
            RequestError::NotFound => String::from_str("Not found"),
            RequestError::IdParseError(e) => e.description.clone(),
            RequestError::RepositoryError(e) => e.description(),
            RequestError::QueryStringParseError(e) => e.description(),
        }
    }

    /// The message, which is the description.
    pub fn to_string(&self) -> (r: String)
        ensures
            self matches RequestError::NoBody ==> r@ == "No body"@,
            self matches RequestError::NotFound ==> r@ == "Not found"@,
            self matches RequestError::IdParseError(e) ==> r@ == e.description@,
            self matches RequestError::QueryStringParseError(e) ==> r@ == e@.description(),
            self matches RequestError::RepositoryError(re) ==> call_ensures(E::description, (&re.error,), r),
    {
        self.description()
    }
}

impl<E: ErrorDescription> ErrorDescription for RequestError<E> {
    fn description(&self) -> (r: String)
        ensures
            self matches RequestError::NoBody ==> r@ == "No body"@,
            self matches RequestError::NotFound ==> r@ == "Not found"@,
            self matches RequestError::IdParseError(e) ==> r@ == e.description@,
            self matches RequestError::QueryStringParseError(e) ==> r@ == e@.description(),
            self matches RequestError::RepositoryError(re) ==> call_ensures(E::description, (&re.error,), r),
    {
        RequestError::description(self)
    }

    fn message(&self) -> (r: String)
        ensures
            self matches RequestError::NoBody ==> r@ == "No body"@,
            self matches RequestError::NotFound ==> r@ == "Not found"@,
            self matches RequestError::IdParseError(e) ==> r@ == e.description@,
            self matches RequestError::QueryStringParseError(e) ==> r@ == e@.description(),
            self matches RequestError::RepositoryError(re) ==> call_ensures(E::description, (&re.error,), r),
    {
        self.to_string()
    }
}

} // verus!
