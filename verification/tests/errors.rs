use rustiful::error::JsonApiErrorArray;
use rustiful::{
    BodyError, BodyParserError, ErrorDescription, ErrorStatus, FromRequestError, IdParseError,
    JsonApiError, QueryStringParseError, RepositoryError, RequestError, Status,
};

#[derive(Debug, PartialEq, Eq)]
struct MyErr(String);

impl ErrorDescription for MyErr {
    fn description(&self) -> String {
        self.0.clone()
    }

    fn message(&self) -> String {
        format!("my error: {}", self.0)
    }
}

impl ErrorStatus for MyErr {
    fn status(&self) -> Status {
        Status::ImATeapot
    }
}

#[test]
fn query_string_parse_error_messages() {
    let cases: Vec<(QueryStringParseError, &str, &str)> = vec![
        (QueryStringParseError::InvalidFieldsetKey("k".to_string()), "k", "Query string parse error: Invalid key: k"),
        (QueryStringParseError::InvalidFieldValue("v".to_string()), "v", "Query string parse error: Invalid value: v"),
        (QueryStringParseError::InvalidSortValue("s".to_string()), "s", "Query string parse error: Invalid value: s"),
        (QueryStringParseError::EmptyFieldsetValue("m".to_string()), "m", "Query string parse error: No values specified for fields[m]"),
        (QueryStringParseError::DuplicateSortKey("d".to_string()), "d", "Query string parse error: Duplicate sort param key: d"),
        (QueryStringParseError::UnImplementedError, "Unimplemented", "Query string parse error: Unimplemented!"),
    ];
    for (e, description, message) in cases {
        assert_eq!(e.description(), description);
        assert_eq!(e.to_string(), message);
        assert_eq!(ErrorDescription::message(&e), message);
    }
}

#[test]
fn request_error_statuses_and_descriptions() {
    let no_body: RequestError<MyErr> = RequestError::NoBody;
    let not_found: RequestError<MyErr> = RequestError::NotFound;
    assert_eq!(no_body.status(), Status::BadRequest);
    assert_eq!(not_found.status(), Status::NotFound);
    assert_eq!(no_body.description(), "No body");
    assert_eq!(not_found.to_string(), "Not found");
    let id: RequestError<MyErr> = RequestError::IdParseError(IdParseError::new("bad".to_string(), "bad id".to_string()));
    assert_eq!(id.status(), Status::BadRequest);
    assert_eq!(id.description(), "bad");
    let q: RequestError<MyErr> = RequestError::QueryStringParseError(QueryStringParseError::UnImplementedError);
    assert_eq!(q.status(), Status::BadRequest);
    assert_eq!(q.to_string(), "Unimplemented");
    let r: RequestError<MyErr> = RequestError::RepositoryError(RepositoryError::new(MyErr("boom".to_string())));
    assert_eq!(r.status(), Status::ImATeapot);
    assert_eq!(r.description(), "boom");
}

#[test]
fn repository_error_takes_the_status_of_its_error() {
    let e = RepositoryError::new(MyErr("boom".to_string()));
    assert_eq!(e.status, Status::ImATeapot);
    assert_eq!(e.error, MyErr("boom".to_string()));
    assert_eq!(ErrorDescription::description(&e), "boom");
    assert_eq!(ErrorDescription::message(&e), "Error in repository: boom");
}

#[test]
fn from_request_error_messages() {
    let e = FromRequestError(MyErr("no header".to_string()));
    assert_eq!(ErrorDescription::description(&e), "no header");
    assert_eq!(ErrorDescription::message(&e), "Error in FromRequest: no header");
}

#[test]
fn id_parse_error_messages() {
    let e = IdParseError::new("invalid digit found in string".to_string(), "invalid digit found in string".to_string());
    assert_eq!(ErrorDescription::description(&e), "invalid digit found in string");
    assert_eq!(e.to_string(), "Error parsing id: invalid digit found in string");
}

#[test]
fn body_errors_messages() {
    let e = BodyError { detail: "EOF while parsing".to_string() };
    assert_eq!(ErrorDescription::description(&e), "EOF while parsing");
    assert_eq!(ErrorDescription::message(&e), "EOF while parsing");
    let p = BodyParserError(e);
    assert_eq!(ErrorDescription::description(&p), "EOF while parsing");
    assert_eq!(p.to_string(), "Error when parsing json: EOF while parsing");
}

#[test]
fn json_api_error_document() {
    let a = JsonApiErrorArray::new(&MyErr("Unimplemented".to_string()), Status::InternalServerError);
    assert_eq!(
        a.errors,
        vec![JsonApiError {
            title: "Unimplemented".to_string(),
            status: "500".to_string(),
            detail: "my error: Unimplemented".to_string(),
        }]
    );
    let b = JsonApiErrorArray::from_parts("t".to_string(), "d".to_string(), Status::from_u16(599));
    assert_eq!(b.errors[0].status, "599");
    let c = JsonApiError::new(&QueryStringParseError::UnImplementedError, Status::BadRequest);
    assert_eq!(c.title, "Unimplemented");
    assert_eq!(c.detail, "Query string parse error: Unimplemented!");
    assert_eq!(c.status, "400");
}

#[test]
fn first_error_of_conversions() {
    let all_ok: Vec<Result<u8, String>> = vec![Ok(1), Ok(2)];
    assert_eq!(rustiful::json::first_error(all_ok), Ok(vec![1, 2]));
    let some_err: Vec<Result<u8, String>> = vec![Ok(1), Err("a".to_string()), Err("b".to_string())];
    assert_eq!(rustiful::json::first_error(some_err), Err("a".to_string()));
}
