//! The error of reading a resource id from a request path.
use vstd::prelude::*;
use super::ErrorDescription;

verus! {

/// An id in a request path that does not read as the id type of the resource: the description
/// and the message of the error that reading it gave.
#[derive(Debug, Clone, PartialEq, Eq)]
pub struct IdParseError {
    /// The short description of the reading error.
    pub description: String,
    /// The message of the reading error.
    pub detail: String,
}

impl IdParseError {
    /// The error with the given description and message of the reading error.
    pub fn new(description: String, detail: String) -> (e: IdParseError)
        ensures
            e.description@ == description@,
            e.detail@ == detail@,
    {
        IdParseError { description, detail }
    }

    /// The full message: the reading error's message after `Error parsing id: `.
    pub open spec fn spec_message(&self) -> Seq<char> {
        "Error parsing id: "@ + self.detail@
    }

    /// The full message of the error.
    pub fn to_string(&self) -> (r: String)
        ensures
            r@ == self.spec_message(),
    {
        let mut s = String::from_str("Error parsing id: ");
        s.append(self.detail.as_str());
        s
    }
}

impl ErrorDescription for IdParseError {
    fn description(&self) -> (r: String)
        ensures
            r@ == self.description@,
    {
        self.description.clone()
    }

    fn message(&self) -> (r: String)
        ensures
            r@ == self.spec_message(),
    {
        self.to_string()
    }
}

} // verus!
