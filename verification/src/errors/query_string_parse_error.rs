//! Errors of query string parsing.
use vstd::prelude::*;
use crate::text::string_push;
use super::ErrorDescription;

verus! {

/// All types of errors that can happen when attempting to parse a query string.
#[derive(Debug, Clone, PartialEq, Eq)]
pub enum QueryStringParseError {
    /// `fields` query param is in an invalid format
    InvalidFieldsetKey(String),
    /// `fields` value does not match field name
    InvalidFieldValue(String),
    /// `sort` value does not match field name
    InvalidSortValue(String),
    /// No `fields[*]` values specified in value
    EmptyFieldsetValue(String),
    /// Multiple `sort` query param keys, e.g `sort=foo&sort=bar`
    DuplicateSortKey(String),
    /// Currently unsupported functionality when parsing the query param, notably relationships
    UnImplementedError,
}

/// The mathematical value of a `QueryStringParseError`.
pub enum SpecQueryStringParseError {
    InvalidFieldsetKey(Seq<char>),
    InvalidFieldValue(Seq<char>),
    InvalidSortValue(Seq<char>),
    EmptyFieldsetValue(Seq<char>),
    DuplicateSortKey(Seq<char>),
    UnImplementedError,
}

impl View for QueryStringParseError {
    type V = SpecQueryStringParseError;

    open spec fn view(&self) -> SpecQueryStringParseError {
        match self {
            QueryStringParseError::InvalidFieldsetKey(d) => SpecQueryStringParseError::InvalidFieldsetKey(d@),
            QueryStringParseError::InvalidFieldValue(d) => SpecQueryStringParseError::InvalidFieldValue(d@),
            QueryStringParseError::InvalidSortValue(d) => SpecQueryStringParseError::InvalidSortValue(d@),
            QueryStringParseError::EmptyFieldsetValue(d) => SpecQueryStringParseError::EmptyFieldsetValue(d@),
            QueryStringParseError::DuplicateSortKey(d) => SpecQueryStringParseError::DuplicateSortKey(d@),
            QueryStringParseError::UnImplementedError => SpecQueryStringParseError::UnImplementedError,
        }
    }
}

impl SpecQueryStringParseError {
    /// The short description: the offending text, or `Unimplemented`.
    pub open spec fn description(self) -> Seq<char> {
        match self {
            SpecQueryStringParseError::InvalidFieldsetKey(d) => d,
            SpecQueryStringParseError::InvalidFieldValue(d) => d,
            SpecQueryStringParseError::InvalidSortValue(d) => d,
            SpecQueryStringParseError::EmptyFieldsetValue(d) => d,
            SpecQueryStringParseError::DuplicateSortKey(d) => d,
            SpecQueryStringParseError::UnImplementedError => "Unimplemented"@,
        }
    }

    /// The full message.
    pub open spec fn message(self) -> Seq<char> {
        match self {
            SpecQueryStringParseError::InvalidFieldsetKey(d) =>
                "Query string parse error: Invalid key: "@ + d,
            SpecQueryStringParseError::InvalidFieldValue(d) =>
                "Query string parse error: Invalid value: "@ + d,
            SpecQueryStringParseError::InvalidSortValue(d) =>
                "Query string parse error: Invalid value: "@ + d,
            SpecQueryStringParseError::EmptyFieldsetValue(d) =>
                "Query string parse error: No values specified for fields["@ + d + seq![']'],
            SpecQueryStringParseError::DuplicateSortKey(d) =>
                "Query string parse error: Duplicate sort param key: "@ + d,
            SpecQueryStringParseError::UnImplementedError =>
                "Query string parse error: Unimplemented!"@,
        }
    }
}

impl QueryStringParseError {
    /// The short description of the error.
    pub fn description(&self) -> (r: String)
        ensures
            r@ == self@.description(),
    {
        match self {
            QueryStringParseError::InvalidFieldsetKey(d) => d.clone(),
            QueryStringParseError::InvalidFieldValue(d) => d.clone(),
            QueryStringParseError::InvalidSortValue(d) => d.clone(),
            QueryStringParseError::EmptyFieldsetValue(d) => d.clone(),
            QueryStringParseError::DuplicateSortKey(d) => d.clone(),
            QueryStringParseError::UnImplementedError => String::from_str("Unimplemented"),
        }
    }

    /// The full message of the error.
    pub fn to_string(&self) -> (r: String)
        ensures
            r@ == self@.message(),
    {
        match self {
            QueryStringParseError::InvalidFieldsetKey(d) => {
                let mut s = String::from_str("Query string parse error: Invalid key: ");
                s.append(d.as_str());
                s
            },
            QueryStringParseError::InvalidFieldValue(d) => {
                let mut s = String::from_str("Query string parse error: Invalid value: ");
                s.append(d.as_str());
                s
            },
            QueryStringParseError::InvalidSortValue(d) => {
                let mut s = String::from_str("Query string parse error: Invalid value: ");
                s.append(d.as_str());
                s
            },
            QueryStringParseError::EmptyFieldsetValue(d) => {
                let mut s = String::from_str("Query string parse error: No values specified for fields[");
                s.append(d.as_str());
                string_push(&mut s, ']');
                s
            },
            QueryStringParseError::DuplicateSortKey(d) => {
                let mut s = String::from_str("Query string parse error: Duplicate sort param key: ");
                s.append(d.as_str());
                s
            },
            QueryStringParseError::UnImplementedError => String::from_str("Query string parse error: Unimplemented!"),
        }
    }
}

impl ErrorDescription for QueryStringParseError {
    fn description(&self) -> (r: String)
        ensures
            r@ == self@.description(),
    {
        QueryStringParseError::description(self)
    }

    fn message(&self) -> (r: String)
        ensures
            r@ == self@.message(),
    {
        self.to_string()
    }
}

} // verus!
