//! JSONAPI error documents.
use vstd::prelude::*;
use crate::errors::ErrorDescription;
use crate::status::{status_code, Status};
use crate::text::{decimal, u64_to_text};

verus! {

/// One error object of a JSONAPI error document.
#[derive(Debug, Clone, PartialEq, Eq)]
pub struct JsonApiError {
    pub title: String,
    pub status: String,
    pub detail: String,
}

/// The mathematical value of a `JsonApiError`.
pub struct SpecJsonApiError {
    pub title: Seq<char>,
    pub status: Seq<char>,
    pub detail: Seq<char>,
}

impl View for JsonApiError {
    type V = SpecJsonApiError;

    open spec fn view(&self) -> SpecJsonApiError {
        SpecJsonApiError { title: self.title@, status: self.status@, detail: self.detail@ }
    }
}

/// The error object with the given title and detail, reported with `status`: the status is
/// written as its decimal code.
pub open spec fn error_object(title: Seq<char>, detail: Seq<char>, status: Status) -> SpecJsonApiError {
    SpecJsonApiError { title: title, status: decimal(status_code(status) as nat), detail: detail }
}

/// Whether `e` is the error object for `error` reported with `status`: its title is what the
/// error's `description` gives, its detail what its `message` gives, and its status the decimal
/// code of `status`.
pub open spec fn describes<T: ErrorDescription>(error: &T, status: Status, e: SpecJsonApiError) -> bool {
    &&& exists|t: String| t@ == e.title && #[trigger] call_ensures(T::description, (error,), t)
    &&& exists|d: String| d@ == e.detail && #[trigger] call_ensures(T::message, (error,), d)
    &&& e.status == decimal(status_code(status) as nat)
}

impl JsonApiError {
    /// The error object with the given title and detail, reported with `status`.
    pub fn from_parts(title: String, detail: String, status: Status) -> (e: JsonApiError)
        ensures
            e@ == error_object(title@, detail@, status),
    {
        let code = status.to_u16();
        JsonApiError { title: title, status: u64_to_text(code as u64), detail: detail }
    }

    /// The error object for `error`: its description as title, its message as detail.
    pub fn new<T: ErrorDescription>(error: &T, status: Status) -> (e: JsonApiError)
        ensures
            e.status@ == decimal(status_code(status) as nat),
            describes(error, status, e@),
    {
        let title = error.description();
        let detail = error.message();
        let e = JsonApiError::from_parts(title, detail, status);
        assert(call_ensures(T::description, (error,), title));
        assert(call_ensures(T::message, (error,), detail));
        e
    }
}

/// A JSONAPI error document.
#[derive(Debug, Clone, PartialEq, Eq)]
pub struct JsonApiErrorArray {
    pub errors: Vec<JsonApiError>,
}

/// The views of a sequence of error objects.
pub open spec fn error_views(v: Seq<JsonApiError>) -> Seq<SpecJsonApiError> {
    v.map_values(|e: JsonApiError| e@)
}

impl JsonApiErrorArray {
    /// The document holding the one error object with the given title and detail.
    pub fn from_parts(title: String, detail: String, status: Status) -> (a: JsonApiErrorArray)
        ensures
            error_views(a.errors@) == seq![error_object(title@, detail@, status)],
    {
        let e = JsonApiError::from_parts(title, detail, status);
        let mut errors: Vec<JsonApiError> = Vec::new();
        errors.push(e);
        assert(error_views(errors@) =~= seq![error_object(title@, detail@, status)]);
        JsonApiErrorArray { errors: errors }
    }

    /// The document holding the one error object for `error`.
    pub fn new<T: ErrorDescription>(error: &T, status: Status) -> (a: JsonApiErrorArray)
        ensures
            a.errors@.len() == 1,
            a.errors@[0].status@ == decimal(status_code(status) as nat),
            describes(error, status, a.errors@[0]@),
    {
        let e = JsonApiError::new(error, status);
        let mut errors: Vec<JsonApiError> = Vec::new();
        errors.push(e);
        JsonApiErrorArray { errors: errors }
    }
}

} // verus!
