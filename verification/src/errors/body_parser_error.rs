//! Errors of reading a JSON request body.
use vstd::prelude::*;
use super::ErrorDescription;

verus! {

/// A request body that could not be read as the expected JSON document: the detail that the
/// body reader gave.
#[derive(Debug, Clone, PartialEq, Eq)]
pub struct BodyError {
    pub detail: String,
}

impl ErrorDescription for BodyError {
    /// The detail.
    fn description(&self) -> (r: String)
        ensures
            r@ == self.detail@,
    {
        self.detail.clone()
    }

    /// The detail.
    fn message(&self) -> (r: String)
        ensures
            r@ == self.detail@,
    {
        self.detail.clone()
    }
}

/// A wrapper that reports a body error as an error of parsing JSON.
#[derive(Debug, Clone, PartialEq, Eq)]
pub struct BodyParserError(pub BodyError);

impl BodyParserError {
    /// The full message: the detail after `Error when parsing json: `.
    pub open spec fn spec_message(&self) -> Seq<char> {
        "Error when parsing json: "@ + self.0.detail@
    }

    /// The full message of the error.
    pub fn to_string(&self) -> (r: String)
        ensures
            r@ == self.spec_message(),
    {
        let mut s = String::from_str("Error when parsing json: ");
        s.append(self.0.detail.as_str());
        s
    }
}

impl ErrorDescription for BodyParserError {
    /// The detail of the body error.
    fn description(&self) -> (r: String)
        ensures
            r@ == self.0.detail@,
    {
        self.0.detail.clone()
    }

    fn message(&self) -> (r: String)
        ensures
            r@ == self.spec_message(),
    {
        self.to_string()
    }
}

} // verus!
