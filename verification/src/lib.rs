//! A JSONAPI toolkit: typed `sort`/`fields` query parameters, JSONAPI error documents, resource
//! ids, the answers to GET/POST/PATCH/DELETE requests and route planning, with their behaviour
//! stated as Verus contracts.
use vstd::prelude::*;

pub mod text;
pub mod status;
pub mod errors;
pub mod sort_order;
pub mod params;
pub mod query;
pub mod to_json;
pub mod resource;
pub mod data;
pub mod container;
pub mod builder;
pub mod service;
pub mod error;
pub mod response;
pub mod id;
pub mod router;
pub mod request;
pub mod json;
pub mod from_request;

pub use builder::{JsonApiBuilder, ToBuilder};
pub use container::{JsonApiArray, JsonApiContainer, JsonApiObject};
pub use data::{AttributesFrom, IntoJson, JsonApiData};
pub use error::{JsonApiError, JsonApiErrorArray};
pub use from_request::FromRequest;
pub use errors::{
    BodyError, BodyParserError, ErrorDescription, ErrorStatus, FromRequestError, IdParseError,
    QueryStringParseError, RepositoryError, RequestError,
};
pub use id::{JsonApiId, JsonApiIdType};
pub use params::{FieldSet, JsonApiParams, QueryParams, Sort};
pub use query::{TryFromFieldset, TryFromSort};
pub use resource::JsonApiResource;
pub use router::JsonApiRouterBuilder;
pub use service::{JsonDelete, JsonGet, JsonIndex, JsonPatch, JsonPost};
pub use sort_order::SortOrder;
pub use status::Status;
pub use to_json::ToJson;

verus! {

} // verus!
