//! The operations that a resource type implements to be served.
use vstd::prelude::*;
use crate::data::JsonApiData;
use crate::errors::{ErrorDescription, ErrorStatus};
use crate::params::JsonApiParams;
use crate::resource::JsonApiResource;
use crate::to_json::ToJson;

verus! {

/// A trait for implementing GET `/{resource-name}/{id}` on a resource type.
pub trait JsonGet where Self: JsonApiResource + ToJson {
    type Error: ErrorDescription + ErrorStatus;
    type Context;

    /// The resource with the given id, or `None` when there is none.
    fn find(
        id: Self::JsonApiIdType,
        params: &JsonApiParams<Self::FilterField, Self::SortField>,
        ctx: Self::Context,
    ) -> Result<Option<JsonApiData<Self>>, Self::Error>;
}

/// A trait for implementing POST `/{resource-name}` on a resource type.
pub trait JsonPost where Self: JsonApiResource + ToJson {
    type Error: ErrorDescription + ErrorStatus;
    type Context;

    /// Creates the resource and returns it.
    fn create(
        json: JsonApiData<Self>,
        params: &JsonApiParams<Self::FilterField, Self::SortField>,
        ctx: Self::Context,
    ) -> Result<JsonApiData<Self>, Self::Error>;
}

/// A trait for implementing PATCH `/{resource-name}/{id}` on a resource type.
pub trait JsonPatch where Self: JsonApiResource + ToJson {
    type Error: ErrorDescription + ErrorStatus;
    type Context;

    /// Updates the resource with the given id and returns it.
    fn update(
        id: Self::JsonApiIdType,
        json: JsonApiData<Self>,
        params: &JsonApiParams<Self::FilterField, Self::SortField>,
        ctx: Self::Context,
    ) -> Result<JsonApiData<Self>, Self::Error>;
}

/// A trait for implementing GET `/{resource-name}` on a resource type.
pub trait JsonIndex where Self: JsonApiResource + ToJson {
    type Error: ErrorDescription + ErrorStatus;
    type Context;

    /// All resources.
    fn find_all(
        params: &JsonApiParams<Self::FilterField, Self::SortField>,
        ctx: Self::Context,
    ) -> Result<Vec<JsonApiData<Self>>, Self::Error>;
}

/// A trait for implementing DELETE `/{resource-name}/{id}` on a resource type.
pub trait JsonDelete where Self: JsonApiResource {
    type Error: ErrorDescription + ErrorStatus;
    type Context;

    /// Deletes the resource with the given id.
    fn delete(id: Self::JsonApiIdType, ctx: Self::Context) -> Result<(), Self::Error>;
}

} // verus!
