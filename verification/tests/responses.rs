use rustiful::errors::IdParseError;
use rustiful::response::{body_error_response, id_error_response, ok_response, query_error_response, JsonApiResponse};
use rustiful::{BodyError, JsonApiContainer, JsonApiError, QueryStringParseError, Status};

#[derive(Debug, PartialEq, Eq, Clone)]
struct Data {
    id: String,
    lower_case_type: String,
    attributes: Vec<(String, String)>,
}

fn data() -> Data {
    Data {
        id: "foo".to_string(),
        lower_case_type: "foos".to_string(),
        attributes: vec![("foo".to_string(), "bar".to_string())],
    }
}

fn single_error<T>(response: JsonApiResponse<T>, status: Status) -> JsonApiError {
    match response {
        JsonApiResponse::Errors { status: s, document } => {
            assert_eq!(s, status);
            assert_eq!(document.errors.len(), 1);
            document.errors[0].clone()
        },
        _ => panic!("expected an error document"),
    }
}

#[test]
fn into_json_api_response_object() {
    let response = ok_response(data());
    match response {
        JsonApiResponse::Data { status, document } => {
            assert_eq!(status, Status::OK);
            assert_eq!(document, JsonApiContainer { data: data() });
        },
        _ => panic!("expected a data document"),
    }
}

#[test]
fn into_json_api_response_list() {
    let response = ok_response(vec![data()]);
    match response {
        JsonApiResponse::Data { status, document } => {
            assert_eq!(status, Status::OK);
            assert_eq!(document, JsonApiContainer { data: vec![data()] });
        },
        _ => panic!("expected a data document"),
    }
}

#[test]
fn from_query_parse_error_conversion() {
    let error = QueryStringParseError::UnImplementedError;
    let e = single_error(query_error_response::<()>(&error), Status::BadRequest);
    assert_eq!(e.title, "Unimplemented");
    assert_eq!(e.status, "400");
    assert_eq!(e.detail, "Query string parse error: Unimplemented!");
}

#[test]
fn from_body_parser_error_conversion() {
    let error = BodyError { detail: "test".to_string() };
    let e = single_error(body_error_response::<()>(&error), Status::BadRequest);
    assert_eq!(e.title, "test");
    assert_eq!(e.status, "400");
    assert_eq!(e.detail, "test");
}

#[test]
fn from_id_parse_error_conversion() {
    let parse_fail: Result<u8, _> = "not a string".parse();
    let text = parse_fail.expect_err("unexpected ok!").to_string();
    let error = IdParseError::new(text.clone(), text);
    let e = single_error(id_error_response::<()>(&error), Status::BadRequest);
    assert_eq!(e.title, "invalid digit found in string");
    assert_eq!(e.status, "400");
    assert_eq!(e.detail, "Error parsing id: invalid digit found in string");
}

#[test]
fn documents_have_the_jsonapi_media_type() {
    assert_eq!(rustiful::response::json_api_type(), "application/vnd.api+json");
}
