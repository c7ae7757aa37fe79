//! HTTP status codes as the library reports them.
use vstd::prelude::*;

verus! {

/// An HTTP status. Codes with a name of their own get their own variant; every other code is
/// held by `Unregistered`.
#[derive(Debug, Clone, Copy, PartialEq, Eq)]
pub enum Status {
    OK,
    Created,
    Accepted,
    NoContent,
    BadRequest,
    Unauthorized,
    Forbidden,
    NotFound,
    MethodNotAllowed,
    Conflict,
    ImATeapot,
    UnprocessableEntity,
    InternalServerError,
    NotImplemented,
    ServiceUnavailable,
    Unregistered(u16),
}

/// The numeric code of a status.
pub open spec fn status_code(s: Status) -> u16 {
    match s {
        Status::OK => 200,
        Status::Created => 201,
        Status::Accepted => 202,
        Status::NoContent => 204,
        Status::BadRequest => 400,
        Status::Unauthorized => 401,
        Status::Forbidden => 403,
        Status::NotFound => 404,
        Status::MethodNotAllowed => 405,
        Status::Conflict => 409,
        Status::ImATeapot => 418,
        Status::UnprocessableEntity => 422,
        Status::InternalServerError => 500,
        Status::NotImplemented => 501,
        Status::ServiceUnavailable => 503,
        Status::Unregistered(code) => code,
    }
}

/// Whether `code` is one of the codes that have a variant of their own.
pub open spec fn is_named_code(code: u16) -> bool {
    code == 200 || code == 201 || code == 202 || code == 204 || code == 400 || code == 401
        || code == 403 || code == 404 || code == 405 || code == 409 || code == 418 || code == 422
        || code == 500 || code == 501 || code == 503
}

/// A status is canonical when an unregistered one does not hold a code that has a name.
pub open spec fn is_canonical(s: Status) -> bool {
    match s {
        Status::Unregistered(code) => !is_named_code(code),
        _ => true,
    }
}

impl Status {
    /// The numeric code of this status.
    pub fn to_u16(&self) -> (code: u16)
        ensures
            code == status_code(*self),
    {
        match self {
            Status::OK => 200,
            Status::Created => 201,
            Status::Accepted => 202,
            Status::NoContent => 204,
            Status::BadRequest => 400,
            Status::Unauthorized => 401,
            Status::Forbidden => 403,
            Status::NotFound => 404,
            Status::MethodNotAllowed => 405,
            Status::Conflict => 409,
            Status::ImATeapot => 418,
            Status::UnprocessableEntity => 422,
            Status::InternalServerError => 500,
            Status::NotImplemented => 501,
            Status::ServiceUnavailable => 503,
            Status::Unregistered(code) => *code,
        }
    }

    /// The status of a numeric code: the named variant where there is one, else `Unregistered`.
    pub fn from_u16(code: u16) -> (s: Status)
        ensures
            status_code(s) == code,
            is_canonical(s),
    {
        if code == 200 {
            Status::OK
        } else if code == 201 {
            Status::Created
        } else if code == 202 {
            Status::Accepted
        } else if code == 204 {
            Status::NoContent
        } else if code == 400 {
            Status::BadRequest
        } else if code == 401 {
            Status::Unauthorized
        } else if code == 403 {
            Status::Forbidden
        } else if code == 404 {
            Status::NotFound
        } else if code == 405 {
            Status::MethodNotAllowed
        } else if code == 409 {
            Status::Conflict
        } else if code == 418 {
            Status::ImATeapot
        } else if code == 422 {
            Status::UnprocessableEntity
        } else if code == 500 {
            Status::InternalServerError
        } else if code == 501 {
            Status::NotImplemented
        } else if code == 503 {
            Status::ServiceUnavailable
        } else {
            Status::Unregistered(code)
        }
    }
}

/// Two canonical statuses with the same code are the same status, so reading a status back
/// from its code gives it back.
pub proof fn lemma_status_code_injective(a: Status, b: Status)
    requires
        is_canonical(a),
        is_canonical(b),
        status_code(a) == status_code(b),
    ensures
        a == b,
{
}

/// Each named status carries its registered IANA code, and reading any of those codes back
/// gives that named status.
pub proof fn lemma_registered_codes()
    ensures
        status_code(Status::OK) == 200,
        status_code(Status::Created) == 201,
        status_code(Status::Accepted) == 202,
        status_code(Status::NoContent) == 204,
        status_code(Status::BadRequest) == 400,
        status_code(Status::Unauthorized) == 401,
        status_code(Status::Forbidden) == 403,
        status_code(Status::NotFound) == 404,
        status_code(Status::MethodNotAllowed) == 405,
        status_code(Status::Conflict) == 409,
        status_code(Status::ImATeapot) == 418,
        status_code(Status::UnprocessableEntity) == 422,
        status_code(Status::InternalServerError) == 500,
        status_code(Status::NotImplemented) == 501,
        status_code(Status::ServiceUnavailable) == 503,
        forall|s: Status| #![trigger status_code(s)] is_canonical(s) ==> {
            &&& status_code(s) == 200 ==> s == Status::OK
            &&& status_code(s) == 201 ==> s == Status::Created
            &&& status_code(s) == 202 ==> s == Status::Accepted
            &&& status_code(s) == 204 ==> s == Status::NoContent
            &&& status_code(s) == 400 ==> s == Status::BadRequest
            &&& status_code(s) == 401 ==> s == Status::Unauthorized
            &&& status_code(s) == 403 ==> s == Status::Forbidden
            &&& status_code(s) == 404 ==> s == Status::NotFound
            &&& status_code(s) == 405 ==> s == Status::MethodNotAllowed
            &&& status_code(s) == 409 ==> s == Status::Conflict
            &&& status_code(s) == 418 ==> s == Status::ImATeapot
            &&& status_code(s) == 422 ==> s == Status::UnprocessableEntity
            &&& status_code(s) == 500 ==> s == Status::InternalServerError
            &&& status_code(s) == 501 ==> s == Status::NotImplemented
            &&& status_code(s) == 503 ==> s == Status::ServiceUnavailable
        },
{
}

} // verus!
