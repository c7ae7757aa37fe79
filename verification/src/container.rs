//! The top-level JSONAPI documents.
use vstd::prelude::*;
use crate::data::JsonApiData;
use crate::to_json::ToJson;

verus! {

/// Contains JSONAPI data.
///
/// `data` should be either `JsonApiData<T>` or `Vec<JsonApiData<T>>`, where `T` is an
/// implementation of `ToJson`.
#[derive(Debug, Clone, PartialEq, Eq)]
pub struct JsonApiContainer<T> {
    pub data: T,
}

/// A document holding one resource.
pub struct JsonApiObject<T: ToJson> {
    pub data: JsonApiData<T>,
}

/// A document holding a list of resources.
pub struct JsonApiArray<T: ToJson> {
    pub data: Vec<JsonApiData<T>>,
}

} // verus!
