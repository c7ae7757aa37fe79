//! Errors of the repository of a resource.
use vstd::prelude::*;
use crate::status::Status;
use crate::text::starts_with;
use super::{ErrorDescription, ErrorStatus};

verus! {

/// This is a wrapper for user error types for `JsonGet::Error`, `JsonPost::Error` etc.: the
/// error with the status it is reported with.
#[derive(Debug, PartialEq, Eq)]
pub struct RepositoryError<T> {
    pub error: T,
    pub status: Status,
}

impl<T: ErrorStatus> RepositoryError<T> {
    /// The error, with the status that it gives of itself.
    pub fn new(error: T) -> (r: RepositoryError<T>)
        ensures
            r.error == error,
            call_ensures(T::status, (&error,), r.status),
    {
        let status: Status = error.status();
        RepositoryError { error: error, status: status }
    }
}

impl<T: ErrorDescription> ErrorDescription for RepositoryError<T> {
    /// The description of the wrapped error: what its `description` gives.
    fn description(&self) -> (r: String)
        ensures
            call_ensures(T::description, (&self.error,), r),
    {
        self.error.description()
    }

    /// The description of the wrapped error, after `Error in repository: `.
    fn message(&self) -> (r: String)
        ensures
            starts_with(r@, "Error in repository: "@),
            exists|d: String| #[trigger] call_ensures(T::description, (&self.error,), d)
                && r@ == "Error in repository: "@ + d@,
    {
        let mut s = String::from_str("Error in repository: ");
        let d = self.error.description();
        let ghost prefix = s@;
        s.append(d.as_str());
        assert(s@.take(prefix.len() as int) =~= prefix);
        s
    }
}

} // verus!
