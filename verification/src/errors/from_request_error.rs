//! Errors of building the context of a request.
use vstd::prelude::*;
use crate::text::starts_with;
use super::ErrorDescription;

verus! {

/// An error that building the context of a request gave.
#[derive(Debug, PartialEq, Eq)]
pub struct FromRequestError<T>(pub T);

impl<T: ErrorDescription> ErrorDescription for FromRequestError<T> {
    /// The description of the wrapped error: what its `description` gives.
    fn description(&self) -> (r: String)
        ensures
            call_ensures(T::description, (&self.0,), r),
    {
        self.0.description()
    }

    /// The description of the wrapped error, after `Error in FromRequest: `.
    fn message(&self) -> (r: String)
        ensures
            starts_with(r@, "Error in FromRequest: "@),
            exists|d: String| #[trigger] call_ensures(T::description, (&self.0,), d)
                && r@ == "Error in FromRequest: "@ + d@,
    {
        let mut s = String::from_str("Error in FromRequest: ");
        let d = self.0.description();
        let ghost prefix = s@;
        s.append(d.as_str());
        assert(s@.take(prefix.len() as int) =~= prefix);
        s
    }
}

} // verus!
