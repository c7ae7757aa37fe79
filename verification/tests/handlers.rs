#![allow(non_camel_case_types)]

use rustiful::request;
use rustiful::response::{
    delete_response, delete_with_context, find_response, get_with_context, index_with_context,
    patch_with_context, post_with_context, read_body, read_post_body, JsonApiResponse,
};
use rustiful::{
    BodyError, ErrorDescription, ErrorStatus, IdParseError, IntoJson, JsonApiContainer, JsonApiData,
    JsonApiParams, JsonApiResource, JsonDelete, JsonGet, JsonIndex, JsonPatch, JsonPost,
    QueryStringParseError, RequestError, SortOrder, Status, ToJson, TryFromFieldset, TryFromSort,
};
use rustiful::AttributesFrom;

#[derive(Debug, PartialEq, Eq, Clone)]
struct Todo {
    id: String,
    title: String,
}

#[derive(Debug, PartialEq, Eq)]
enum sort {
    title(SortOrder),
}

impl TryFromSort for sort {
    fn try_from_sort(field: &str, order: SortOrder) -> Result<Self, QueryStringParseError> {
        if field == "title" {
            Ok(sort::title(order))
        } else {
            Err(QueryStringParseError::InvalidSortValue(field.to_string()))
        }
    }
}

#[derive(Debug, PartialEq, Eq)]
enum field {
    title,
}

impl TryFromFieldset for field {
    fn try_from_fieldset(_model: &str, _fields: Vec<&str>) -> Result<Self, QueryStringParseError> {
        Ok(field::title)
    }
}

#[derive(Debug, PartialEq, Eq)]
struct TodoErr(String);

impl ErrorDescription for TodoErr {
    fn description(&self) -> String {
        self.0.clone()
    }

    fn message(&self) -> String {
        self.0.clone()
    }
}

impl ErrorStatus for TodoErr {
    fn status(&self) -> Status {
        Status::InternalServerError
    }
}

impl ToJson for Todo {
    type Attrs = String;

    fn id(&self) -> String {
        self.id.clone()
    }

    fn json_type(&self) -> String {
        "todos".to_string()
    }
}

impl AttributesFrom<Todo, field, sort> for String {
    fn attributes_from(model: Todo, _params: &JsonApiParams<field, sort>) -> Self {
        model.title
    }
}

impl JsonApiResource for Todo {
    type SortField = sort;
    type FilterField = field;
    type JsonApiIdType = String;

    fn resource_name() -> &'static str {
        "todos"
    }
}

fn todo(id: &str) -> Todo {
    Todo { id: id.to_string(), title: format!("title {}", id) }
}

impl JsonGet for Todo {
    type Error = TodoErr;
    type Context = ();

    fn find(id: String, params: &JsonApiParams<field, sort>, _ctx: ()) -> Result<Option<JsonApiData<Todo>>, TodoErr> {
        match id.as_str() {
            "1" => Ok(Some(todo("1").into_json(params))),
            "2" => Ok(None),
            _ => Err(TodoErr("Unimplemented".to_string())),
        }
    }
}

impl JsonIndex for Todo {
    type Error = TodoErr;
    type Context = ();

    fn find_all(params: &JsonApiParams<field, sort>, _ctx: ()) -> Result<Vec<JsonApiData<Todo>>, TodoErr> {
        Ok(vec![todo("1"), todo("2")].into_json(params))
    }
}

impl JsonDelete for Todo {
    type Error = TodoErr;
    type Context = ();

    fn delete(id: String, _ctx: ()) -> Result<(), TodoErr> {
        if id == "1" { Ok(()) } else { Err(TodoErr("no such todo".to_string())) }
    }
}

impl JsonPost for Todo {
    type Error = TodoErr;
    type Context = ();

    fn create(json: JsonApiData<Todo>, _params: &JsonApiParams<field, sort>, _ctx: ()) -> Result<JsonApiData<Todo>, TodoErr> {
        Ok(JsonApiData::new(Some("3".to_string()), json.attributes))
    }
}

impl JsonPatch for Todo {
    type Error = TodoErr;
    type Context = ();

    fn update(id: String, json: JsonApiData<Todo>, _params: &JsonApiParams<field, sort>, _ctx: ()) -> Result<JsonApiData<Todo>, TodoErr> {
        Ok(JsonApiData::new(Some(id), json.attributes))
    }
}

fn error_of<T>(r: JsonApiResponse<T>) -> (Status, String, String, String) {
    match r {
        JsonApiResponse::Errors { status, document } => {
            assert_eq!(document.errors.len(), 1);
            let e = document.errors[0].clone();
            (status, e.title, e.status, e.detail)
        },
        _ => panic!("expected an error document"),
    }
}

fn data_of<T>(r: JsonApiResponse<T>) -> T {
    match r {
        JsonApiResponse::Data { status, document } => {
            assert_eq!(status, Status::OK);
            document.data
        },
        _ => panic!("expected a data document"),
    }
}

#[test]
fn get_answers_the_found_resource() {
    let d = data_of(get_with_context::<Todo>((), Ok("1".to_string()), "sort=-title"));
    assert_eq!(d.id, Some("1".to_string()));
    assert_eq!(d.attributes, "title 1");
}

#[test]
fn get_answers_not_found_with_bad_request() {
    let e = error_of(get_with_context::<Todo>((), Ok("2".to_string()), ""));
    assert_eq!(e, (Status::BadRequest, "Not found".to_string(), "400".to_string(), "Not found".to_string()));
}

#[test]
fn get_answers_the_repository_error_with_its_status() {
    let e = error_of(get_with_context::<Todo>((), Ok("9".to_string()), ""));
    assert_eq!(e, (Status::InternalServerError, "Unimplemented".to_string(), "500".to_string(), "Unimplemented".to_string()));
}

#[test]
fn get_checks_the_id_before_the_query() {
    let id_error = IdParseError::new("bad id".to_string(), "bad id".to_string());
    let e = error_of(get_with_context::<Todo>((), Err(id_error), "sort=nope"));
    assert_eq!(e, (Status::BadRequest, "bad id".to_string(), "400".to_string(), "Error parsing id: bad id".to_string()));
}

#[test]
fn get_answers_a_query_error_with_bad_request() {
    let e = error_of(get_with_context::<Todo>((), Ok("1".to_string()), "sort=nope"));
    assert_eq!(e, (Status::BadRequest, "nope".to_string(), "400".to_string(), "Query string parse error: Invalid value: nope".to_string()));
}

#[test]
fn index_answers_all_resources_in_order() {
    let all = data_of(index_with_context::<Todo>((), ""));
    let ids: Vec<Option<String>> = all.iter().map(|d| d.id.clone()).collect();
    assert_eq!(ids, vec![Some("1".to_string()), Some("2".to_string())]);
}

#[test]
fn delete_answers_no_content() {
    match delete_with_context::<Todo>((), Ok("1".to_string())) {
        JsonApiResponse::Empty { status } => assert_eq!(status, Status::NoContent),
        _ => panic!("expected no content"),
    }
    let e = error_of(delete_with_context::<Todo>((), Ok("5".to_string())));
    assert_eq!(e.0, Status::InternalServerError);
    assert_eq!(e.1, "no such todo");
}

#[test]
fn post_and_patch_answer_the_saved_resource() {
    let created = data_of(post_with_context::<Todo>(JsonApiData::new(None, "new".to_string()), (), ""));
    assert_eq!(created.id, Some("3".to_string()));
    let updated = data_of(patch_with_context::<Todo>(JsonApiData::new(None, "upd".to_string()), (), Ok("7".to_string()), ""));
    assert_eq!(updated.id, Some("7".to_string()));
    assert_eq!(updated.attributes, "upd");
}

#[test]
fn body_is_read_or_answered() {
    let body: Result<Option<JsonApiContainer<u8>>, BodyError> = Ok(Some(JsonApiContainer { data: 5 }));
    assert_eq!(read_body::<u8, ()>(body).ok(), Some(5));
    let none: Result<Option<JsonApiContainer<u8>>, BodyError> = Ok(None);
    let e = error_of(read_body::<u8, ()>(none).err().unwrap());
    assert_eq!(e, (Status::BadRequest, "No body".to_string(), "400".to_string(), "No body".to_string()));
    let bad: Result<Option<JsonApiContainer<u8>>, BodyError> = Err(BodyError { detail: "EOF".to_string() });
    let e = error_of(read_body::<u8, ()>(bad).err().unwrap());
    assert_eq!(e, (Status::BadRequest, "EOF".to_string(), "400".to_string(), "EOF".to_string()));
}

#[test]
fn post_body_error_is_reported_as_json_parse_error() {
    let none: Result<Option<JsonApiContainer<u8>>, BodyError> = Ok(None);
    let e = error_of(read_post_body::<u8, ()>(none).err().unwrap());
    assert_eq!(e, (Status::BadRequest, "No body".to_string(), "400".to_string(), "No body".to_string()));
    let bad: Result<Option<JsonApiContainer<u8>>, BodyError> =
        Err(BodyError { detail: "Can't parse body to the struct".to_string() });
    let e = error_of(read_post_body::<u8, ()>(bad).err().unwrap());
    assert_eq!(
        e,
        (
            Status::BadRequest,
            "Can't parse body to the struct".to_string(),
            "400".to_string(),
            "Error when parsing json: Can't parse body to the struct".to_string()
        )
    );
    let body: Result<Option<JsonApiContainer<u8>>, BodyError> = Ok(Some(JsonApiContainer { data: 7 }));
    assert_eq!(read_post_body::<u8, ()>(body).ok(), Some(7));
}

#[test]
fn outcome_answers() {
    let found: Result<Option<u8>, TodoErr> = Ok(Some(1));
    assert_eq!(data_of(find_response(found)), 1);
    let deleted: Result<(), TodoErr> = Ok(());
    match delete_response(deleted) {
        JsonApiResponse::Empty { status } => assert_eq!(status, Status::NoContent),
        _ => panic!("expected no content"),
    }
}

#[test]
fn request_utilities_report_request_errors() {
    assert!(request::delete::<Todo>("1".to_string(), ()).is_ok());
    match request::delete::<Todo>("4".to_string(), ()) {
        Err(RequestError::RepositoryError(e)) => assert_eq!(e.status, Status::InternalServerError),
        _ => panic!("expected a repository error"),
    }
    assert_eq!(request::get::<Todo>("1".to_string(), "", ()).unwrap().data.id, Some("1".to_string()));
    assert!(matches!(request::get::<Todo>("2".to_string(), "", ()), Err(RequestError::NotFound)));
    assert!(matches!(request::get::<Todo>("1".to_string(), "sort=x", ()), Err(RequestError::QueryStringParseError(_))));
    assert_eq!(request::index::<Todo>("", ()).unwrap().data.len(), 2);
    assert_eq!(request::post::<Todo>("", JsonApiData::new(None, "a".to_string()), ()).unwrap().data.id, Some("3".to_string()));
    let id_error = IdParseError::new("x".to_string(), "y".to_string());
    assert!(matches!(
        request::patch::<Todo>(Err(id_error), "", JsonApiData::new(None, "a".to_string()), ()),
        Err(RequestError::IdParseError(_))
    ));
}

#[test]
fn list_representations_keep_the_order_of_the_models() {
    let params: JsonApiParams<field, sort> = JsonApiParams::default();
    let models = vec![
        Todo { id: "a".to_string(), title: "first".to_string() },
        Todo { id: "b".to_string(), title: "second".to_string() },
        Todo { id: "c".to_string(), title: "third".to_string() },
    ];
    let data: Vec<JsonApiData<Todo>> = models.into_json(&params);
    let ids: Vec<Option<String>> = data.iter().map(|d| d.id.clone()).collect();
    let titles: Vec<String> = data.iter().map(|d| d.attributes.clone()).collect();
    assert_eq!(ids, vec![Some("a".to_string()), Some("b".to_string()), Some("c".to_string())]);
    assert_eq!(titles, vec!["first".to_string(), "second".to_string(), "third".to_string()]);
}
