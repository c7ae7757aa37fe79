//! Utility functions that call a resource's repository operation and report its outcome as a
//! `RequestError` where it fails.
use vstd::prelude::*;
use crate::container::{JsonApiArray, JsonApiContainer, JsonApiObject};
use crate::data::JsonApiData;
use crate::errors::{ErrorStatus, IdParseError, QueryStringParseError, RepositoryError, RequestError};
use crate::query::{params_from_query, reads_params};
use crate::params::JsonApiParams;
use crate::response::{query_fails_plainly, query_reads};
use crate::service::{JsonDelete, JsonGet, JsonIndex, JsonPatch, JsonPost};

verus! {

/// Whether `re` is the repository error `e`, with the status that `e`'s `status` gives.
pub open spec fn is_repository_error<E: ErrorStatus>(re: RequestError<E>, e: E) -> bool {
    re matches RequestError::RepositoryError(rep) && rep.error == e
        && call_ensures(E::status, (&rep.error,), rep.status)
}

/// The outcome of a repository call: its value, or its error wrapped as a repository error
/// with the status the error gives.
pub fn repository_outcome<D, E: ErrorStatus>(result: Result<D, E>) -> (r: Result<D, RequestError<E>>)
    ensures
        match result {
            Ok(d) => r == Ok::<D, RequestError<E>>(d),
            Err(e) => r matches Err(RequestError::RepositoryError(re)) && re.error == e,
        },
        r matches Err(re) ==> is_repository_error(re, result->Err_0),
{
    match result {
        Ok(d) => Ok(d),
        Err(e) => Err(RequestError::RepositoryError(RepositoryError::new(e))),
    }
}

/// The outcome of a lookup: the resource, else `NotFound`, else the repository error.
pub fn lookup_outcome<D, E: ErrorStatus>(result: Result<Option<D>, E>) -> (r: Result<D, RequestError<E>>)
    ensures
        match result {
            Ok(Some(d)) => r == Ok::<D, RequestError<E>>(d),
            Ok(None) => r matches Err(RequestError::NotFound),
            Err(e) => r matches Err(RequestError::RepositoryError(re)) && re.error == e,
        },
        result is Err ==> (r matches Err(re) && is_repository_error(re, result->Err_0)),
{
    match repository_outcome(result) {
        Ok(Some(d)) => Ok(d),
        Ok(None) => Err(RequestError::NotFound),
        Err(e) => Err(e),
    }
}

/// The typed parameters of a query string, or its parse error as a request error.
fn read_params<T: crate::resource::JsonApiResource, E>(query: &str) -> (r: Result<
    crate::params::JsonApiParams<T::FilterField, T::SortField>,
    RequestError<E>,
>)
    ensures
        r is Ok ==> query_reads(query),
        r matches Err(e) ==> e is QueryStringParseError,
        forall|e| #[trigger] query_fails_plainly(query, e)
            ==> (r matches Err(RequestError::QueryStringParseError(pe)) && pe@ == e),
        exists|pr: Result<JsonApiParams<T::FilterField, T::SortField>, QueryStringParseError>|
            #[trigger] reads_params(query@, pr) && match pr {
                Ok(p) => r == Ok::<JsonApiParams<T::FilterField, T::SortField>, RequestError<E>>(p),
                Err(e) => r matches Err(RequestError::QueryStringParseError(pe)) && pe == e,
            },
{
    match params_from_query::<T::FilterField, T::SortField>(query) {
        Ok(p) => Ok(p),
        Err(e) => Err(RequestError::QueryStringParseError(e)),
    }
}

/// Calls `T::delete()` and returns `()` if successful, else its error as a repository error.
pub fn delete<T: JsonDelete>(id: T::JsonApiIdType, ctx: T::Context) -> (r: Result<(), RequestError<T::Error>>)
    ensures
        r is Ok || r matches Err(RequestError::RepositoryError(_)),
        exists|res: Result<(), T::Error>| #[trigger] call_ensures(T::delete, (id, ctx), res) && match res {
            Ok(_) => r is Ok,
            Err(e) => r matches Err(re) && is_repository_error(re, e),
        },
{
    let res = T::delete(id, ctx);
    repository_outcome(res)
}

/// Calls `T::find()` with the parameters of `query` and returns the resource found: the query
/// error, else the repository error, else `NotFound` when there is none.
pub fn get<T: JsonGet>(id: T::JsonApiIdType, query: &str, ctx: T::Context) -> (r: Result<
    JsonApiContainer<JsonApiData<T>>,
    RequestError<T::Error>,
>)
    ensures
        r is Ok ==> query_reads(query),
        r matches Err(e) ==> e is QueryStringParseError || e is NotFound || e is RepositoryError,
        forall|e| #[trigger] query_fails_plainly(query, e)
            ==> (r matches Err(RequestError::QueryStringParseError(pe)) && pe@ == e),
        exists|pr: Result<JsonApiParams<T::FilterField, T::SortField>, QueryStringParseError>|
            #[trigger] reads_params(query@, pr) && match pr {
                Err(e) => r matches Err(RequestError::QueryStringParseError(pe)) && pe == e,
                Ok(p) => exists|res: Result<Option<JsonApiData<T>>, T::Error>|
                    #[trigger] call_ensures(T::find, (id, &p, ctx), res) && match res {
                        Ok(Some(d)) => r matches Ok(c) && c.data == d,
                        Ok(None) => r matches Err(RequestError::NotFound),
                        Err(e) => r matches Err(re) && is_repository_error(re, e),
                    },
            },
{
    let ghost gid = id;
    let ghost gctx = ctx;
    let params = match read_params::<T, T::Error>(query) {
        Ok(p) => p,
        Err(e) => return Err(e),
    };
    let res = T::find(id, &params, ctx);
    let ghost gres = res;
    assert(call_ensures(T::find, (gid, &params, gctx), gres));
    match lookup_outcome(res) {
        Ok(data) => Ok(JsonApiContainer { data: data }),
        Err(e) => Err(e),
    }
}

/// Calls `T::find_all()` with the parameters of `query` and returns the resources: the query
/// error, else the repository error.
pub fn index<T: JsonIndex>(query: &str, ctx: T::Context) -> (r: Result<JsonApiArray<T>, RequestError<T::Error>>)
    ensures
        r is Ok ==> query_reads(query),
        r matches Err(e) ==> e is QueryStringParseError || e is RepositoryError,
        forall|e| #[trigger] query_fails_plainly(query, e)
            ==> (r matches Err(RequestError::QueryStringParseError(pe)) && pe@ == e),
        exists|pr: Result<JsonApiParams<T::FilterField, T::SortField>, QueryStringParseError>|
            #[trigger] reads_params(query@, pr) && match pr {
                Err(e) => r matches Err(RequestError::QueryStringParseError(pe)) && pe == e,
                Ok(p) => exists|res: Result<Vec<JsonApiData<T>>, T::Error>|
                    #[trigger] call_ensures(T::find_all, (&p, ctx), res) && match res {
                        Ok(d) => r matches Ok(a) && a.data == d,
                        Err(e) => r matches Err(re) && is_repository_error(re, e),
                    },
            },
{
    let ghost gctx = ctx;
    let params = match read_params::<T, T::Error>(query) {
        Ok(p) => p,
        Err(e) => return Err(e),
    };
    let res = T::find_all(&params, ctx);
    let ghost gres = res;
    assert(call_ensures(T::find_all, (&params, gctx), gres));
    match repository_outcome(res) {
        Ok(data) => Ok(JsonApiArray { data: data }),
        Err(e) => Err(e),
    }
}

/// Calls `T::create()` with the parameters of `query` and returns the created resource: the
/// query error, else the repository error.
pub fn post<T: JsonPost>(query: &str, json: JsonApiData<T>, ctx: T::Context) -> (r: Result<JsonApiObject<T>, RequestError<T::Error>>)
    ensures
        r is Ok ==> query_reads(query),
        r matches Err(e) ==> e is QueryStringParseError || e is RepositoryError,
        forall|e| #[trigger] query_fails_plainly(query, e)
            ==> (r matches Err(RequestError::QueryStringParseError(pe)) && pe@ == e),
        exists|pr: Result<JsonApiParams<T::FilterField, T::SortField>, QueryStringParseError>|
            #[trigger] reads_params(query@, pr) && match pr {
                Err(e) => r matches Err(RequestError::QueryStringParseError(pe)) && pe == e,
                Ok(p) => exists|res: Result<JsonApiData<T>, T::Error>|
                    #[trigger] call_ensures(T::create, (json, &p, ctx), res) && match res {
                        Ok(d) => r matches Ok(o) && o.data == d,
                        Err(e) => r matches Err(re) && is_repository_error(re, e),
                    },
            },
{
    let ghost gjson = json;
    let ghost gctx = ctx;
    let params = match read_params::<T, T::Error>(query) {
        Ok(p) => p,
        Err(e) => return Err(e),
    };
    let res = T::create(json, &params, ctx);
    let ghost gres = res;
    assert(call_ensures(T::create, (gjson, &params, gctx), gres));
    match repository_outcome(res) {
        Ok(data) => Ok(JsonApiObject { data: data }),
        Err(e) => Err(e),
    }
}

/// Calls `T::update()` with the read id and the parameters of `query` and returns the updated
/// resource: the id error, else the query error, else the repository error.
pub fn patch<T: JsonPatch>(
    id: Result<T::JsonApiIdType, IdParseError>,
    query: &str,
    json: JsonApiData<T>,
    ctx: T::Context,
) -> (r: Result<JsonApiObject<T>, RequestError<T::Error>>)
    ensures
        id matches Err(e) ==> (r matches Err(RequestError::IdParseError(e2)) && e2 == e),
        r is Ok ==> id is Ok && query_reads(query),
        r matches Err(e) ==> e is IdParseError || e is QueryStringParseError || e is RepositoryError,
        forall|e| id is Ok && #[trigger] query_fails_plainly(query, e)
            ==> (r matches Err(RequestError::QueryStringParseError(pe)) && pe@ == e),
        id matches Ok(i) ==> exists|pr: Result<JsonApiParams<T::FilterField, T::SortField>, QueryStringParseError>|
            #[trigger] reads_params(query@, pr) && match pr {
                Err(e) => r matches Err(RequestError::QueryStringParseError(pe)) && pe == e,
                Ok(p) => exists|res: Result<JsonApiData<T>, T::Error>|
                    #[trigger] call_ensures(T::update, (i, json, &p, ctx), res) && match res {
                        Ok(d) => r matches Ok(o) && o.data == d,
                        Err(e) => r matches Err(re) && is_repository_error(re, e),
                    },
            },
{
    let typed_id = match id {
        Ok(i) => i,
        Err(e) => return Err(RequestError::IdParseError(e)),
    };
    let ghost gid = typed_id;
    let ghost gjson = json;
    let ghost gctx = ctx;
    let params = match read_params::<T, T::Error>(query) {
        Ok(p) => p,
        Err(e) => return Err(e),
    };
    let res = T::update(typed_id, json, &params, ctx);
    let ghost gres = res;
    assert(call_ensures(T::update, (gid, gjson, &params, gctx), gres));
    match repository_outcome(res) {
        Ok(data) => Ok(JsonApiObject { data: data }),
        Err(e) => Err(e),
    }
}

} // verus!
