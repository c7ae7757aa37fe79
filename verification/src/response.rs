//! What the handlers answer: the decisions of serving GET, POST, PATCH, DELETE and index
//! requests, from the results of the steps that read the request and call the repository.
use vstd::prelude::*;
use crate::container::JsonApiContainer;
use crate::data::JsonApiData;
use crate::error::{describes, error_object, error_views, JsonApiErrorArray, SpecJsonApiError};
use crate::errors::{BodyError, BodyParserError, ErrorDescription, ErrorStatus, IdParseError, QueryStringParseError};
use crate::query::{form_urlencoded_pairs, params_from_query, parse_pairs, reads_params};
use crate::params::JsonApiParams;
use crate::resource::JsonApiResource;
use crate::service::{JsonDelete, JsonGet, JsonIndex, JsonPatch, JsonPost};
use crate::status::Status;
use crate::from_request::FromRequest;
use iron::Request;

verus! {

/// The answer to a request: a data document, an error document, or no body, each with its
/// status.
#[derive(Debug)]
pub enum JsonApiResponse<T> {
    Data { status: Status, document: JsonApiContainer<T> },
    Errors { status: Status, document: JsonApiErrorArray },
    Empty { status: Status },
}

impl<T> JsonApiResponse<T> {
    /// Whether this is the error document holding `errors`, with `status`.
    pub open spec fn is_error(&self, status: Status, errors: Seq<SpecJsonApiError>) -> bool {
        self matches JsonApiResponse::Errors { status: s, document }
            && s == status && error_views(document.errors@) == errors
    }

    /// Whether this is an error document holding one error object.
    pub open spec fn is_single_error(&self) -> bool {
        self matches JsonApiResponse::Errors { status: s, document } && document.errors@.len() == 1
    }

    /// The status of the answer.
    pub open spec fn spec_status(&self) -> Status {
        match self {
            JsonApiResponse::Data { status, .. } => *status,
            JsonApiResponse::Errors { status, .. } => *status,
            JsonApiResponse::Empty { status } => *status,
        }
    }

    /// The status of the answer.
    pub fn status(&self) -> (s: Status)
        ensures
            s == self.spec_status(),
    {
        match self {
            JsonApiResponse::Data { status, .. } => *status,
            JsonApiResponse::Errors { status, .. } => *status,
            JsonApiResponse::Empty { status } => *status,
        }
    }
}

/// Whether the answer is a data document with status 200, or an error document holding one error
/// object: what every answer to GET, POST and PATCH requests is.
pub open spec fn is_data_or_error<T>(r: JsonApiResponse<T>) -> bool {
    (r is Data && r.spec_status() == Status::OK) || r.is_single_error()
}

/// Whether the answer is no body with status 204, or an error document holding one error object:
/// what every answer to DELETE requests is.
pub open spec fn is_empty_or_error<T>(r: JsonApiResponse<T>) -> bool {
    (r is Empty && r.spec_status() == Status::NoContent) || r.is_single_error()
}

/// Whether `r` is the error document for `error` with `status`: one error object, which
/// describes the error (see `describes`), with that status.
pub open spec fn is_error_for<T, E: ErrorDescription>(r: JsonApiResponse<T>, error: &E, status: Status) -> bool {
    r matches JsonApiResponse::Errors { status: s, document } && s == status
        && document.errors@.len() == 1 && describes(error, status, document.errors@[0]@)
}

/// Whether `r` is the answer to the repository error `error`: its error document, with the
/// status that the error's `status` gives.
pub open spec fn repository_answer<T, E: ErrorDescription + ErrorStatus>(r: JsonApiResponse<T>, error: &E) -> bool {
    exists|s: Status| #[trigger] call_ensures(E::status, (error,), s) && is_error_for(r, error, s)
}

/// The answer to a lookup that gave `res`: the resource with status 200, `Not found` with status
/// 400, or the repository error's answer.
pub open spec fn find_answer<D, E: ErrorDescription + ErrorStatus>(res: Result<Option<D>, E>, r: JsonApiResponse<D>) -> bool {
    match res {
        Ok(Some(d)) => r == (JsonApiResponse::Data { status: Status::OK, document: JsonApiContainer { data: d } }),
        Ok(None) => r.is_error(Status::BadRequest, seq![error_object("Not found"@, "Not found"@, Status::BadRequest)]),
        Err(e) => repository_answer(r, &e),
    }
}

/// The answer to a repository call that gave `res`: the data with status 200, or the
/// repository error's answer.
pub open spec fn result_answer<D, E: ErrorDescription + ErrorStatus>(res: Result<D, E>, r: JsonApiResponse<D>) -> bool {
    match res {
        Ok(d) => r == (JsonApiResponse::Data { status: Status::OK, document: JsonApiContainer { data: d } }),
        Err(e) => repository_answer(r, &e),
    }
}

/// The answer to a deletion that gave `res`: no body with status 204, or the repository error's
/// answer.
pub open spec fn delete_answer<E: ErrorDescription + ErrorStatus>(res: Result<(), E>, r: JsonApiResponse<()>) -> bool {
    match res {
        Ok(_) => r == (JsonApiResponse::<()>::Empty { status: Status::NoContent }),
        Err(e) => repository_answer(r, &e),
    }
}

/// The media type of JSONAPI documents.
pub fn json_api_type() -> (s: String)
    ensures
        s@ == "application/vnd.api+json"@,
{
    String::from_str("application/vnd.api+json")
}

/// The data document holding `data`, with status 200.
pub fn ok_response<T>(data: T) -> (r: JsonApiResponse<T>)
    ensures
        r == (JsonApiResponse::Data { status: Status::OK, document: JsonApiContainer { data: data } }),
{
    JsonApiResponse::Data { status: Status::OK, document: JsonApiContainer { data: data } }
}

/// The error document for `error`, with `status`: one error object, whose status is the code of
/// `status`.
pub fn error_response<T, E: ErrorDescription>(error: &E, status: Status) -> (r: JsonApiResponse<T>)
    ensures
        r.is_single_error(),
        r.spec_status() == status,
        is_error_for(r, error, status),
{
    JsonApiResponse::Errors { status: status, document: JsonApiErrorArray::new(error, status) }
}

/// The error document with one error object of the given title and detail.
fn error_with<T>(title: String, detail: String, status: Status) -> (r: JsonApiResponse<T>)
    ensures
        r.is_error(status, seq![error_object(title@, detail@, status)]),
        r.is_single_error(),
{
    let document = JsonApiErrorArray::from_parts(title, detail, status);
    assert(document.errors@.len() == error_views(document.errors@).len());
    JsonApiResponse::Errors { status: status, document: document }
}

/// The answer when no resource was found: `Not found`, with status 400.
pub fn not_found_response<T>() -> (r: JsonApiResponse<T>)
    ensures
        r.is_error(Status::BadRequest, seq![error_object("Not found"@, "Not found"@, Status::BadRequest)]),
        r.is_single_error(),
{
    error_with(String::from_str("Not found"), String::from_str("Not found"), Status::BadRequest)
}

/// The answer when a body is needed and there is none: `No body`, with status 400.
pub fn no_body_response<T>() -> (r: JsonApiResponse<T>)
    ensures
        r.is_error(Status::BadRequest, seq![error_object("No body"@, "No body"@, Status::BadRequest)]),
        r.is_single_error(),
{
    error_with(String::from_str("No body"), String::from_str("No body"), Status::BadRequest)
}

/// The answer when the body could not be read: its detail, with status 400.
pub fn body_error_response<T>(error: &BodyError) -> (r: JsonApiResponse<T>)
    ensures
        r.is_error(Status::BadRequest, seq![error_object(error.detail@, error.detail@, Status::BadRequest)]),
        r.is_single_error(),
{
    error_with(error.detail.clone(), error.detail.clone(), Status::BadRequest)
}

/// The answer when the body of a POST request could not be read: the body error reported as an
/// error of parsing JSON, with status 400.
pub fn body_parser_error_response<T>(error: &BodyParserError) -> (r: JsonApiResponse<T>)
    ensures
        r.is_error(Status::BadRequest, seq![error_object(error.0.detail@, error.spec_message(), Status::BadRequest)]),
        r.is_single_error(),
{
    error_with(error.0.detail.clone(), error.to_string(), Status::BadRequest)
}

/// The answer when the id does not read: the reading error, with status 400.
pub fn id_error_response<T>(error: &IdParseError) -> (r: JsonApiResponse<T>)
    ensures
        r.is_error(
            Status::BadRequest,
            seq![error_object(error.description@, error.spec_message(), Status::BadRequest)],
        ),
        r.is_single_error(),
{
    error_with(error.description.clone(), error.to_string(), Status::BadRequest)
}

/// The answer when the query string does not read: the parse error, with status 400.
pub fn query_error_response<T>(error: &QueryStringParseError) -> (r: JsonApiResponse<T>)
    ensures
        r.is_error(
            Status::BadRequest,
            seq![error_object(error@.description(), error@.message(), Status::BadRequest)],
        ),
        r.is_single_error(),
{
    error_with(error.description(), error.to_string(), Status::BadRequest)
}

/// The answer when the repository gave an error: that error, with the status it gives.
pub fn repository_error_response<T, E: ErrorDescription + ErrorStatus>(error: &E) -> (r: JsonApiResponse<T>)
    ensures
        r.is_single_error(),
        repository_answer(r, error),
{
    let status = error.status();
    assert(call_ensures(E::status, (error,), status));
    error_response(error, status)
}

/// The answer to a lookup of one resource: the resource, else `Not found` (status 400), else
/// the repository's error.
pub fn find_response<D, E: ErrorDescription + ErrorStatus>(result: Result<Option<D>, E>) -> (r: JsonApiResponse<D>)
    ensures
        match result {
            Ok(Some(d)) => r == (JsonApiResponse::Data { status: Status::OK, document: JsonApiContainer { data: d } }),
            Ok(None) => r.is_error(Status::BadRequest, seq![error_object("Not found"@, "Not found"@, Status::BadRequest)]),
            Err(_) => r.is_single_error(),
        },
        is_data_or_error(r),
        find_answer(result, r),
{
    match result {
        Ok(Some(d)) => ok_response(d),
        Ok(None) => not_found_response(),
        Err(e) => repository_error_response(&e),
    }
}

/// The answer to a call of the repository that gives data: the data, else the repository's
/// error.
pub fn result_response<D, E: ErrorDescription + ErrorStatus>(result: Result<D, E>) -> (r: JsonApiResponse<D>)
    ensures
        match result {
            Ok(d) => r == (JsonApiResponse::Data { status: Status::OK, document: JsonApiContainer { data: d } }),
            Err(_) => r.is_single_error(),
        },
        is_data_or_error(r),
        result_answer(result, r),
{
    match result {
        Ok(d) => ok_response(d),
        Err(e) => repository_error_response(&e),
    }
}

/// The answer to a deletion: no body with status 204, else the repository's error.
pub fn delete_response<E: ErrorDescription + ErrorStatus>(result: Result<(), E>) -> (r: JsonApiResponse<()>)
    ensures
        match result {
            Ok(_) => r == (JsonApiResponse::<()>::Empty { status: Status::NoContent }),
            Err(_) => r.is_single_error(),
        },
        is_empty_or_error(r),
        delete_answer(result, r),
{
    match result {
        Ok(_) => JsonApiResponse::Empty { status: Status::NoContent },
        Err(e) => repository_error_response(&e),
    }
}

/// The data of the document in a request body, else the answer: `No body` when there is no
/// body, the body error when it could not be read.
pub fn read_body<D, T>(body: Result<Option<JsonApiContainer<D>>, BodyError>) -> (r: Result<D, JsonApiResponse<T>>)
    ensures
        match body {
            Ok(Some(c)) => r == Ok::<D, JsonApiResponse<T>>(c.data),
            Ok(None) => r matches Err(a) && a.is_error(
                Status::BadRequest,
                seq![error_object("No body"@, "No body"@, Status::BadRequest)],
            ),
            Err(e) => r matches Err(a) && a.is_error(
                Status::BadRequest,
                seq![error_object(e.detail@, e.detail@, Status::BadRequest)],
            ),
        },
        r matches Err(a) ==> a.is_single_error(),
{
    match body {
        Ok(Some(c)) => Ok(c.data),
        Ok(None) => Err(no_body_response()),
        Err(e) => Err(body_error_response(&e)),
    }
}

/// The data of the document in the body of a POST request, else the answer: `No body` when
/// there is no body, the body error reported as an error of parsing JSON when it could not be
/// read.
pub fn read_post_body<D, T>(body: Result<Option<JsonApiContainer<D>>, BodyError>) -> (r: Result<D, JsonApiResponse<T>>)
    ensures
        match body {
            Ok(Some(c)) => r == Ok::<D, JsonApiResponse<T>>(c.data),
            Ok(None) => r matches Err(a) && a.is_error(
                Status::BadRequest,
                seq![error_object("No body"@, "No body"@, Status::BadRequest)],
            ),
            Err(e) => r matches Err(a) && a.is_error(
                Status::BadRequest,
                seq![error_object(e.detail@, "Error when parsing json: "@ + e.detail@, Status::BadRequest)],
            ),
        },
        r matches Err(a) ==> a.is_single_error(),
{
    match body {
        Ok(Some(c)) => Ok(c.data),
        Ok(None) => Err(no_body_response()),
        Err(e) => Err(body_parser_error_response(&BodyParserError(e))),
    }
}

/// Whether the query string reads without a malformed pair.
pub open spec fn query_reads(query: &str) -> bool {
    parse_pairs(form_urlencoded_pairs(query@)).error is None
}

/// The answer when the request's context could not be built: its error, with its status.
pub fn context_error_response<T, E: ErrorDescription>(error: &E, status: Status) -> (r: JsonApiResponse<T>)
    ensures
        r.is_single_error(),
        r.spec_status() == status,
        is_error_for(r, error, status),
{
    error_response(error, status)
}

/// The exact answer for a query string whose reading stopped at `e` before any sort field or
/// fieldset: the parse error, with status 400.
pub open spec fn is_query_error_answer<T>(r: JsonApiResponse<T>, e: crate::errors::SpecQueryStringParseError) -> bool {
    r.is_error(Status::BadRequest, seq![error_object(e.description(), e.message(), Status::BadRequest)])
}

/// Whether the query string gives no sort field and no fieldset and its reading stopped at `e`.
pub open spec fn query_fails_plainly(query: &str, e: crate::errors::SpecQueryStringParseError) -> bool {
    let q = parse_pairs(form_urlencoded_pairs(query@));
    q.items.len() == 0 && q.error == Some(e)
}

/// Whether `r` is the answer to the id error `e`: its error document, with status 400.
pub open spec fn is_id_error_answer<T>(r: JsonApiResponse<T>, e: IdParseError) -> bool {
    r.is_error(Status::BadRequest, seq![error_object(e.description@, e.spec_message(), Status::BadRequest)])
}

/// The answer to GET `/{resource-name}/{id}` with the context `ctx`: the id error; else the
/// query string error; else, for the parameters read from the query string, the answer to what
/// `T::find` gave for the id, those parameters and `ctx`.
pub open spec fn get_answer<T: JsonGet>(
    ctx: T::Context,
    id: Result<T::JsonApiIdType, IdParseError>,
    query: Seq<char>,
    r: JsonApiResponse<JsonApiData<T>>,
) -> bool {
    match id {
        Err(e) => is_id_error_answer(r, e),
        Ok(i) => exists|pr: Result<JsonApiParams<T::FilterField, T::SortField>, QueryStringParseError>|
            #[trigger] reads_params(query, pr) && match pr {
                Err(e) => is_query_error_answer(r, e@),
                Ok(p) => exists|res: Result<Option<JsonApiData<T>>, T::Error>|
                    #[trigger] call_ensures(T::find, (i, &p, ctx), res) && find_answer(res, r),
            },
    }
}

/// The answer to GET `/{resource-name}` with the context `ctx`: the query string error; else,
/// for the parameters read from the query string, the answer to what `T::find_all` gave for
/// them and `ctx`.
pub open spec fn index_answer<T: JsonIndex>(ctx: T::Context, query: Seq<char>, r: JsonApiResponse<Vec<JsonApiData<T>>>) -> bool {
    exists|pr: Result<JsonApiParams<T::FilterField, T::SortField>, QueryStringParseError>|
        #[trigger] reads_params(query, pr) && match pr {
            Err(e) => is_query_error_answer(r, e@),
            Ok(p) => exists|res: Result<Vec<JsonApiData<T>>, T::Error>|
                #[trigger] call_ensures(T::find_all, (&p, ctx), res) && result_answer(res, r),
        }
}

/// The answer to DELETE `/{resource-name}/{id}` with the context `ctx`: the id error; else the
/// answer to what `T::delete` gave for the id and `ctx`.
pub open spec fn delete_ctx_answer<T: JsonDelete>(
    ctx: T::Context,
    id: Result<T::JsonApiIdType, IdParseError>,
    r: JsonApiResponse<()>,
) -> bool {
    match id {
        Err(e) => is_id_error_answer(r, e),
        Ok(i) => exists|res: Result<(), T::Error>| #[trigger] call_ensures(T::delete, (i, ctx), res) && delete_answer(res, r),
    }
}

/// The answer to POST `/{resource-name}` of `json` with the context `ctx`: the query string
/// error; else, for the parameters read from the query string, the answer to what `T::create`
/// gave for `json`, those parameters and `ctx`.
pub open spec fn post_answer<T: JsonPost>(
    json: JsonApiData<T>,
    ctx: T::Context,
    query: Seq<char>,
    r: JsonApiResponse<JsonApiData<T>>,
) -> bool {
    exists|pr: Result<JsonApiParams<T::FilterField, T::SortField>, QueryStringParseError>|
        #[trigger] reads_params(query, pr) && match pr {
            Err(e) => is_query_error_answer(r, e@),
            Ok(p) => exists|res: Result<JsonApiData<T>, T::Error>|
                #[trigger] call_ensures(T::create, (json, &p, ctx), res) && result_answer(res, r),
        }
}

/// The answer to PATCH `/{resource-name}/{id}` of `json` with the context `ctx`: the id error;
/// else the query string error; else, for the parameters read from the query string, the answer
/// to what `T::update` gave for the id, `json`, those parameters and `ctx`.
pub open spec fn patch_answer<T: JsonPatch>(
    json: JsonApiData<T>,
    ctx: T::Context,
    id: Result<T::JsonApiIdType, IdParseError>,
    query: Seq<char>,
    r: JsonApiResponse<JsonApiData<T>>,
) -> bool {
    match id {
        Err(e) => is_id_error_answer(r, e),
        Ok(i) => exists|pr: Result<JsonApiParams<T::FilterField, T::SortField>, QueryStringParseError>|
            #[trigger] reads_params(query, pr) && match pr {
                Err(e) => is_query_error_answer(r, e@),
                Ok(p) => exists|res: Result<JsonApiData<T>, T::Error>|
                    #[trigger] call_ensures(T::update, (i, json, &p, ctx), res) && result_answer(res, r),
            },
    }
}

/// Serves GET `/{resource-name}/{id}`, given the request's context and the reading of its id:
/// the id error, else the query string error, else the answer to the lookup.
pub fn get_with_context<T: JsonGet>(
    ctx: T::Context,
    id: Result<T::JsonApiIdType, IdParseError>,
    query: &str,
) -> (r: JsonApiResponse<JsonApiData<T>>)
    ensures
        id matches Err(e) ==> r.is_error(
            Status::BadRequest,
            seq![error_object(e.description@, e.spec_message(), Status::BadRequest)],
        ),
        forall|e| id is Ok && #[trigger] query_fails_plainly(query, e) ==> is_query_error_answer(r, e),
        r is Data ==> id is Ok && query_reads(query),
        is_data_or_error(r),
        get_answer::<T>(ctx, id, query@, r),
{
    let id = match id {
        Ok(id) => id,
        Err(e) => return id_error_response(&e),
    };
    let ghost gid = id;
    let ghost gctx = ctx;
    let pr = params_from_query::<T::FilterField, T::SortField>(query);
    let ghost gpr = pr;
    let params = match pr {
        Ok(p) => p,
        Err(e) => {
            let r = query_error_response(&e);
            assert(reads_params(query@, gpr));
            return r;
        },
    };
    let res = T::find(id, &params, ctx);
    let ghost gres = res;
    let r = find_response(res);
    proof {
        assert(call_ensures(T::find, (gid, &params, gctx), gres));
        assert(reads_params(query@, gpr));
    }
    r
}

/// Serves GET `/{resource-name}`, given the request's context: the query string error, else the
/// answer to the listing.
pub fn index_with_context<T: JsonIndex>(ctx: T::Context, query: &str) -> (r: JsonApiResponse<Vec<JsonApiData<T>>>)
    ensures
        forall|e| #[trigger] query_fails_plainly(query, e) ==> is_query_error_answer(r, e),
        r is Data ==> query_reads(query),
        is_data_or_error(r),
        index_answer::<T>(ctx, query@, r),
{
    let ghost gctx = ctx;
    let pr = params_from_query::<T::FilterField, T::SortField>(query);
    let ghost gpr = pr;
    let params = match pr {
        Ok(p) => p,
        Err(e) => {
            let r = query_error_response(&e);
            assert(reads_params(query@, gpr));
            return r;
        },
    };
    let res = T::find_all(&params, ctx);
    let ghost gres = res;
    let r = result_response(res);
    proof {
        assert(call_ensures(T::find_all, (&params, gctx), gres));
        assert(reads_params(query@, gpr));
    }
    r
}

/// Serves DELETE `/{resource-name}/{id}`, given the request's context and the reading of its id:
/// the id error, else the answer to the deletion.
pub fn delete_with_context<T: JsonDelete>(ctx: T::Context, id: Result<T::JsonApiIdType, IdParseError>) -> (r: JsonApiResponse<()>)
    ensures
        id matches Err(e) ==> r.is_error(
            Status::BadRequest,
            seq![error_object(e.description@, e.spec_message(), Status::BadRequest)],
        ),
        r is Empty ==> id is Ok && r.spec_status() == Status::NoContent,
        is_empty_or_error(r),
        delete_ctx_answer::<T>(ctx, id, r),
{
    let id = match id {
        Ok(id) => id,
        Err(e) => return id_error_response(&e),
    };
    let ghost gid = id;
    let ghost gctx = ctx;
    let res = T::delete(id, ctx);
    let ghost gres = res;
    let r = delete_response(res);
    proof {
        assert(call_ensures(T::delete, (gid, gctx), gres));
    }
    r
}

/// Serves POST `/{resource-name}`, given the resource read from the body and the request's
/// context: the query string error, else the answer to the creation.
pub fn post_with_context<T: JsonPost>(json: JsonApiData<T>, ctx: T::Context, query: &str) -> (r: JsonApiResponse<JsonApiData<T>>)
    ensures
        forall|e| #[trigger] query_fails_plainly(query, e) ==> is_query_error_answer(r, e),
        r is Data ==> query_reads(query),
        is_data_or_error(r),
        post_answer::<T>(json, ctx, query@, r),
{
    let ghost gjson = json;
    let ghost gctx = ctx;
    let pr = params_from_query::<T::FilterField, T::SortField>(query);
    let ghost gpr = pr;
    let params = match pr {
        Ok(p) => p,
        Err(e) => {
            let r = query_error_response(&e);
            assert(reads_params(query@, gpr));
            return r;
        },
    };
    let res = T::create(json, &params, ctx);
    let ghost gres = res;
    let r = result_response(res);
    proof {
        assert(call_ensures(T::create, (gjson, &params, gctx), gres));
        assert(reads_params(query@, gpr));
    }
    r
}

/// Serves PATCH `/{resource-name}/{id}`, given the resource read from the body, the request's
/// context and the reading of its id: the id error, else the query string error, else the
/// answer to the update.
pub fn patch_with_context<T: JsonPatch>(
    json: JsonApiData<T>,
    ctx: T::Context,
    id: Result<T::JsonApiIdType, IdParseError>,
    query: &str,
) -> (r: JsonApiResponse<JsonApiData<T>>)
    ensures
        id matches Err(e) ==> r.is_error(
            Status::BadRequest,
            seq![error_object(e.description@, e.spec_message(), Status::BadRequest)],
        ),
        forall|e| id is Ok && #[trigger] query_fails_plainly(query, e) ==> is_query_error_answer(r, e),
        r is Data ==> id is Ok && query_reads(query),
        is_data_or_error(r),
        patch_answer::<T>(json, ctx, id, query@, r),
{
    let id = match id {
        Ok(id) => id,
        Err(e) => return id_error_response(&e),
    };
    let ghost gid = id;
    let ghost gjson = json;
    let ghost gctx = ctx;
    let pr = params_from_query::<T::FilterField, T::SortField>(query);
    let ghost gpr = pr;
    let params = match pr {
        Ok(p) => p,
        Err(e) => {
            let r = query_error_response(&e);
            assert(reads_params(query@, gpr));
            return r;
        },
    };
    let res = T::update(id, json, &params, ctx);
    let ghost gres = res;
    let r = result_response(res);
    proof {
        assert(call_ensures(T::update, (gid, gjson, &params, gctx), gres));
        assert(reads_params(query@, gpr));
    }
    r
}

/// Serves GET `/{resource-name}/{id}`: builds the request's context, then answers as
/// `get_with_context`; a context error is answered with its status.
pub fn respond_get<T: JsonGet>(
    request: &Request,
    id: Result<T::JsonApiIdType, IdParseError>,
    query: &str,
) -> (r: JsonApiResponse<JsonApiData<T>>)
    where T::Context: FromRequest,
    ensures
        r is Data ==> id is Ok && query_reads(query),
        is_data_or_error(r),
        exists|res: Result<T::Context, (<T::Context as FromRequest>::Error, Status)>|
            #[trigger] call_ensures(<T::Context as FromRequest>::from_request, (request,), res) && match res {
                Err((e, s)) => is_error_for(r, &e, s),
                Ok(ctx) => get_answer::<T>(ctx, id, query@, r),
            },
{
    let res = <T::Context as FromRequest>::from_request(request);
    let ghost gres = res;
    assert(call_ensures(<T::Context as FromRequest>::from_request, (request,), gres));
    let ctx = match res {
        Ok(c) => c,
        Err((e, status)) => return context_error_response(&e, status),
    };
    get_with_context::<T>(ctx, id, query)
}

/// Serves GET `/{resource-name}`: builds the request's context, then answers as
/// `index_with_context`; a context error is answered with its status.
pub fn respond_index<T: JsonIndex>(request: &Request, query: &str) -> (r: JsonApiResponse<Vec<JsonApiData<T>>>)
    where T::Context: FromRequest,
    ensures
        r is Data ==> query_reads(query),
        is_data_or_error(r),
        exists|res: Result<T::Context, (<T::Context as FromRequest>::Error, Status)>|
            #[trigger] call_ensures(<T::Context as FromRequest>::from_request, (request,), res) && match res {
                Err((e, s)) => is_error_for(r, &e, s),
                Ok(ctx) => index_answer::<T>(ctx, query@, r),
            },
{
    let res = <T::Context as FromRequest>::from_request(request);
    let ghost gres = res;
    assert(call_ensures(<T::Context as FromRequest>::from_request, (request,), gres));
    let ctx = match res {
        Ok(c) => c,
        Err((e, status)) => return context_error_response(&e, status),
    };
    index_with_context::<T>(ctx, query)
}

/// Serves DELETE `/{resource-name}/{id}`: builds the request's context, then answers as
/// `delete_with_context`; a context error is answered with its status.
pub fn respond_delete<T: JsonDelete>(request: &Request, id: Result<T::JsonApiIdType, IdParseError>) -> (r: JsonApiResponse<()>)
    where T::Context: FromRequest,
    ensures
        r is Empty ==> id is Ok && r.spec_status() == Status::NoContent,
        is_empty_or_error(r),
        exists|res: Result<T::Context, (<T::Context as FromRequest>::Error, Status)>|
            #[trigger] call_ensures(<T::Context as FromRequest>::from_request, (request,), res) && match res {
                Err((e, s)) => is_error_for(r, &e, s),
                Ok(ctx) => delete_ctx_answer::<T>(ctx, id, r),
            },
{
    let res = <T::Context as FromRequest>::from_request(request);
    let ghost gres = res;
    assert(call_ensures(<T::Context as FromRequest>::from_request, (request,), gres));
    let ctx = match res {
        Ok(c) => c,
        Err((e, status)) => return context_error_response(&e, status),
    };
    delete_with_context::<T>(ctx, id)
}

/// Serves POST `/{resource-name}`: reads the body (no body, or an unreadable one reported as an
/// error of parsing JSON, is answered with status 400), builds the request's context, then
/// answers as `post_with_context`.
pub fn respond_post<T: JsonPost>(
    request: &Request,
    body: Result<Option<JsonApiContainer<JsonApiData<T>>>, BodyError>,
    query: &str,
) -> (r: JsonApiResponse<JsonApiData<T>>)
    where T::Context: FromRequest,
    ensures
        body matches Ok(None) ==> r.is_error(
            Status::BadRequest,
            seq![error_object("No body"@, "No body"@, Status::BadRequest)],
        ),
        body matches Err(e) ==> r.is_error(
            Status::BadRequest,
            seq![error_object(e.detail@, "Error when parsing json: "@ + e.detail@, Status::BadRequest)],
        ),
        r is Data ==> (body matches Ok(Some(_)) && query_reads(query)),
        is_data_or_error(r),
        body matches Ok(Some(c)) ==> exists|res: Result<T::Context, (<T::Context as FromRequest>::Error, Status)>|
            #[trigger] call_ensures(<T::Context as FromRequest>::from_request, (request,), res) && match res {
                Err((e, s)) => is_error_for(r, &e, s),
                Ok(ctx) => post_answer::<T>(c.data, ctx, query@, r),
            },
{
    let json = match read_post_body(body) {
        Ok(json) => json,
        Err(answer) => return answer,
    };
    let res = <T::Context as FromRequest>::from_request(request);
    let ghost gres = res;
    assert(call_ensures(<T::Context as FromRequest>::from_request, (request,), gres));
    let ctx = match res {
        Ok(c) => c,
        Err((e, status)) => return context_error_response(&e, status),
    };
    post_with_context::<T>(json, ctx, query)
}

/// Serves PATCH `/{resource-name}/{id}`: reads the body (no body, or an unreadable one, is
/// answered with status 400), builds the request's context, then answers as
/// `patch_with_context`.
pub fn respond_patch<T: JsonPatch>(
    request: &Request,
    body: Result<Option<JsonApiContainer<JsonApiData<T>>>, BodyError>,
    id: Result<T::JsonApiIdType, IdParseError>,
    query: &str,
) -> (r: JsonApiResponse<JsonApiData<T>>)
    where T::Context: FromRequest,
    ensures
        body matches Ok(None) ==> r.is_error(
            Status::BadRequest,
            seq![error_object("No body"@, "No body"@, Status::BadRequest)],
        ),
        body matches Err(e) ==> r.is_error(
            Status::BadRequest,
            seq![error_object(e.detail@, e.detail@, Status::BadRequest)],
        ),
        r is Data ==> (body matches Ok(Some(_)) && id is Ok && query_reads(query)),
        is_data_or_error(r),
        body matches Ok(Some(c)) ==> exists|res: Result<T::Context, (<T::Context as FromRequest>::Error, Status)>|
            #[trigger] call_ensures(<T::Context as FromRequest>::from_request, (request,), res) && match res {
                Err((e, s)) => is_error_for(r, &e, s),
                Ok(ctx) => patch_answer::<T>(c.data, ctx, id, query@, r),
            },
{
    let json = match read_body(body) {
        Ok(json) => json,
        Err(answer) => return answer,
    };
    let res = <T::Context as FromRequest>::from_request(request);
    let ghost gres = res;
    assert(call_ensures(<T::Context as FromRequest>::from_request, (request,), gres));
    let ctx = match res {
        Ok(c) => c,
        Err((e, status)) => return context_error_response(&e, status),
    };
    patch_with_context::<T>(json, ctx, id, query)
}

} // verus!
