//! The JSONAPI representation of a resource.
use vstd::prelude::*;
use crate::params::JsonApiParams;
use crate::resource::JsonApiResource;
use crate::to_json::ToJson;
use std::marker::PhantomData;

verus! {

/// The JSONAPI representation of a resource.
pub struct JsonApiData<T: ToJson> {
    /// The id of the JSONAPI resource.
    pub id: Option<String>,
    /// The type of the JSONAPI resource; sent as its type name.
    pub _type: PhantomData<T>,
    /// The attributes of the JSONAPI resource.
    pub attributes: T::Attrs,
}

impl<T: ToJson> JsonApiData<T> {
    /// The representation with the given id and attributes.
    pub fn new(id: Option<String>, attrs: T::Attrs) -> (d: JsonApiData<T>)
        ensures
            d.id == id,
            d.attributes == attrs,
    {
        JsonApiData { id: id, _type: PhantomData, attributes: attrs }
    }

    /// Check if there is an id present.
    pub fn has_id(&self) -> (b: bool)
        ensures
            b == self.id is Some,
    {
        self.id.is_some()
    }
}

impl<T: ToJson> Clone for JsonApiData<T> where T::Attrs: Clone {
    fn clone(&self) -> (d: Self)
        ensures
            d.id == self.id,
            cloned::<T::Attrs>(self.attributes, d.attributes),
    {
        let id = match &self.id {
            Some(s) => Some(s.clone()),
            None => None,
        };
        let attributes = self.attributes.clone();
        JsonApiData { id: id, _type: PhantomData, attributes: attributes }
    }
}

/// Converts `Self` into `T` with the given query parameters.
pub trait IntoJson<T, F, S> {
    fn into_json(self, params: &JsonApiParams<F, S>) -> T;
}

/// Attributes built from a resource: what of the resource is sent, given the query parameters
/// (which name the fields to send).
pub trait AttributesFrom<T, F, S>: Sized {
    fn attributes_from(model: T, params: &JsonApiParams<F, S>) -> Self;
}

/// Whether `d` represents `model` for `params`: its id is what the model's `id` gives, and its
/// attributes what `attributes_from` gives for the model and the parameters.
pub open spec fn represents<T: ToJson + JsonApiResource>(
    model: T,
    params: &JsonApiParams<T::FilterField, T::SortField>,
    d: JsonApiData<T>,
) -> bool
    where T::Attrs: AttributesFrom<T, T::FilterField, T::SortField>,
{
    &&& exists|id: String| #[trigger] call_ensures(T::id, (&model,), id) && d.id == Some(id)
    &&& call_ensures(
        <T::Attrs as AttributesFrom<T, T::FilterField, T::SortField>>::attributes_from,
        (model, params),
        d.attributes,
    )
}

/// The JSONAPI representation of a resource: its id, and its attributes for the parameters.
pub fn resource_data<T: ToJson + JsonApiResource>(
    model: T,
    params: &JsonApiParams<T::FilterField, T::SortField>,
) -> (d: JsonApiData<T>)
    where T::Attrs: AttributesFrom<T, T::FilterField, T::SortField>,
    ensures
        d.id is Some,
        represents(model, params, d),
{
    let ghost gm = model;
    let id = model.id();
    assert(call_ensures(T::id, (&gm,), id));
    let attrs = T::Attrs::attributes_from(model, params);
    assert(call_ensures(
        <T::Attrs as AttributesFrom<T, T::FilterField, T::SortField>>::attributes_from,
        (gm, params),
        attrs,
    ));
    JsonApiData::new(Some(id), attrs)
}

impl<T: ToJson + JsonApiResource> IntoJson<JsonApiData<T>, T::FilterField, T::SortField> for T
    where T::Attrs: AttributesFrom<T, T::FilterField, T::SortField>,
{
    /// The representation of the resource (see `resource_data`).
    fn into_json(self, params: &JsonApiParams<T::FilterField, T::SortField>) -> (d: JsonApiData<T>)
        ensures
            d.id is Some,
            represents(self, params, d),
    {
        resource_data(self, params)
    }
}

impl<T: ToJson + JsonApiResource> IntoJson<Vec<JsonApiData<T>>, T::FilterField, T::SortField> for Vec<T>
    where T::Attrs: AttributesFrom<T, T::FilterField, T::SortField>,
{
    /// The representations of the resources, in order (see `resource_data`).
    fn into_json(self, params: &JsonApiParams<T::FilterField, T::SortField>) -> (v: Vec<JsonApiData<T>>)
        ensures
            v@.len() == self@.len(),
            forall|i: int| 0 <= i < v@.len() ==> (#[trigger] v@[i]).id is Some,
            forall|i: int| 0 <= i < v@.len() ==> represents(self@[i], params, #[trigger] v@[i]),
    {
        // The models are taken from the back, so the representations are collected in reverse
        // and then turned back into the order of the models.
        let ghost all = self@;
        let mut models = self;
        let n = models.len();
        let mut reversed: Vec<JsonApiData<T>> = Vec::new();
        while models.len() > 0
            invariant
                models@.len() + reversed@.len() == n,
                n == all.len(),
                models@ == all.take(models@.len() as int),
                forall|i: int| 0 <= i < reversed@.len() ==> (#[trigger] reversed@[i]).id is Some,
                forall|i: int| 0 <= i < reversed@.len()
                    ==> represents(all[n - 1 - i], params, #[trigger] reversed@[i]),
            decreases models@.len(),
        {
            let model = models.pop().unwrap();
            proof {
                assert(model == all[n - 1 - reversed@.len()]);
                assert(models@ =~= all.take(models@.len() as int));
            }
            reversed.push(resource_data(model, params));
        }
        let mut out: Vec<JsonApiData<T>> = Vec::new();
        while reversed.len() > 0
            invariant
                out@.len() + reversed@.len() == n,
                n == all.len(),
                forall|i: int| 0 <= i < reversed@.len() ==> (#[trigger] reversed@[i]).id is Some,
                forall|i: int| 0 <= i < reversed@.len()
                    ==> represents(all[n - 1 - i], params, #[trigger] reversed@[i]),
                forall|i: int| 0 <= i < out@.len() ==> (#[trigger] out@[i]).id is Some,
                forall|i: int| 0 <= i < out@.len() ==> represents(all[i], params, #[trigger] out@[i]),
            decreases reversed@.len(),
        {
            let d = reversed.pop().unwrap();
            out.push(d);
        }
        out
    }
}

} // verus!
