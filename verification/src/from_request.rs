//! Building the context of a request from the incoming Iron request.
use vstd::prelude::*;
use crate::errors::ErrorDescription;
use crate::status::Status;
use iron::Request;

verus! {

#[verifier::external_type_specification]
#[verifier::external_body]
pub struct ExRequest<'a, 'b: 'a>(Request<'a, 'b>);

/// A trait used to initialize a type from an Iron request, such as a database connection that
/// is needed on each request. An error comes with the status it is answered with.
pub trait FromRequest: Sized {
    type Error: ErrorDescription;

    fn from_request(request: &Request) -> Result<Self, (Self::Error, Status)>;
}

} // verus!
