//! What a resource gives of itself to be sent as JSONAPI.
use vstd::prelude::*;

verus! {

/// A resource that can be represented in JSONAPI: its attribute type, its id and its type name.
pub trait ToJson {
    /// The attributes of the resource, as sent in the `attributes` member.
    type Attrs;

    /// The id of the resource.
    fn id(&self) -> String;

    /// The type name of the resource.
    fn json_type(&self) -> String;
}

} // verus!
