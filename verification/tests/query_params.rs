#![allow(non_camel_case_types)]

use rustiful::query::{parse_query, parse_query_pairs, QueryItem};
use rustiful::{
    JsonApiParams, JsonApiResource, QueryParams, QueryStringParseError, SortOrder, TryFromFieldset,
    TryFromSort,
};

#[derive(Debug, PartialEq, Eq, Clone)]
struct MyResource {
    id: String,
    foo: bool,
    bar: String,
}

#[derive(Debug, PartialEq, Eq, Clone)]
enum sort {
    foo(SortOrder),
    bar(SortOrder),
}

impl TryFromSort for sort {
    fn try_from_sort(field: &str, order: SortOrder) -> Result<Self, QueryStringParseError> {
        match field {
            "foo" => Ok(sort::foo(order)),
            "bar" => Ok(sort::bar(order)),
            _ => Err(QueryStringParseError::InvalidSortValue(field.to_string())),
        }
    }
}

#[derive(Debug, PartialEq, Eq, Clone)]
enum field {
    foo,
    bar,
}

impl TryFromFieldset for field {
    fn try_from_fieldset(model: &str, fields: Vec<&str>) -> Result<Self, QueryStringParseError> {
        match model {
            "my-resources" => {
                for f in fields {
                    match f {
                        "foo" => return Ok(field::foo),
                        "bar" => return Ok(field::bar),
                        _ => return Err(QueryStringParseError::InvalidFieldValue(f.to_string())),
                    }
                }
            },
            _ => return Err(QueryStringParseError::UnImplementedError),
        }
        Err(QueryStringParseError::UnImplementedError)
    }
}

impl JsonApiResource for MyResource {
    type SortField = sort;
    type FilterField = field;
    type JsonApiIdType = String;

    fn resource_name() -> &'static str {
        "my-resources"
    }
}

fn strings(v: &[&str]) -> Vec<String> {
    v.iter().map(|s| s.to_string()).collect()
}

fn pairs(v: &[(&str, &str)]) -> Vec<(String, String)> {
    v.iter().map(|(k, w)| (k.to_string(), w.to_string())).collect()
}

#[test]
fn params_new_holds_its_parts() {
    let fields = vec![field::foo, field::bar];
    let sorts = vec![sort::foo(SortOrder::Asc)];
    let query_params = QueryParams::new();
    let params = JsonApiParams::new(fields.clone(), sorts.clone(), QueryParams::new());
    assert_eq!(fields, params.fieldset.fields);
    assert_eq!(sorts, params.sort.fields);
    assert_eq!(query_params, params.query_params);
}

#[test]
fn from_str_reads_sort_fields_and_other_params() {
    let mut query_params = QueryParams::new();
    query_params.insert("other".to_string(), strings(&["test", "abc"]));
    let expected = JsonApiParams::new(vec![field::bar], vec![sort::foo(SortOrder::Desc)], query_params);
    let query_string = "sort=-foo&fields[my-resources]=bar&other=test&other=abc";
    let params = MyResource::from_str(query_string);
    assert_eq!(expected, params.unwrap());
}

#[test]
fn empty_query_gives_default_params() {
    let params = MyResource::from_str("").unwrap();
    assert_eq!(params, JsonApiParams::default());
    assert!(params.query_params.is_empty());
}

#[test]
fn sort_fields_keep_their_order_and_direction() {
    let params = MyResource::from_str("sort=bar,-foo,,foo").unwrap();
    assert_eq!(
        params.sort.fields,
        vec![sort::bar(SortOrder::Asc), sort::foo(SortOrder::Desc), sort::foo(SortOrder::Asc)]
    );
}

#[test]
fn every_leading_dash_is_dropped() {
    let q = parse_query("sort=--foo");
    assert_eq!(q.items, vec![QueryItem::Sort { field: "foo".to_string(), order: SortOrder::Desc }]);
    assert!(q.error.is_none());
}

#[test]
fn unknown_sort_field_is_refused() {
    let r = MyResource::from_str("sort=baz");
    assert_eq!(r, Err(QueryStringParseError::InvalidSortValue("baz".to_string())));
}

#[test]
fn second_sort_key_is_refused() {
    let r = MyResource::from_str("sort=foo&sort=bar");
    assert_eq!(r, Err(QueryStringParseError::DuplicateSortKey("bar".to_string())));
}

#[test]
fn any_repeated_sort_key_is_refused() {
    let r = MyResource::from_str("sort=,&sort=bar");
    assert_eq!(r, Err(QueryStringParseError::DuplicateSortKey("bar".to_string())));
}

#[test]
fn empty_pieces_are_skipped_and_directions_kept() {
    let params = MyResource::from_str("sort=-foo,,bar").unwrap();
    assert_eq!(params.sort.fields, vec![sort::foo(SortOrder::Desc), sort::bar(SortOrder::Asc)]);
    assert!(params.fieldset.fields.is_empty());
    assert!(params.query_params.is_empty());
}

#[test]
fn first_conversion_error_is_returned_unchanged() {
    let r = MyResource::from_str("fields[my-resources]=baz&sort=baz");
    assert_eq!(r, Err(QueryStringParseError::InvalidFieldValue("baz".to_string())));
    let r = MyResource::from_str("sort=foo,baz,qux");
    assert_eq!(r, Err(QueryStringParseError::InvalidSortValue("baz".to_string())));
}

#[test]
fn fieldsets_keep_their_order() {
    let params = MyResource::from_str("fields[my-resources]=bar&fields[my-resources]=foo,bar").unwrap();
    assert_eq!(params.fieldset.fields, vec![field::bar, field::foo]);
}

#[test]
fn conversion_error_comes_before_a_later_malformed_pair() {
    let r = MyResource::from_str("sort=baz&sort=foo");
    assert_eq!(r, Err(QueryStringParseError::InvalidSortValue("baz".to_string())));
}

#[test]
fn fields_key_without_brackets_is_refused() {
    let q = parse_query_pairs(pairs(&[("fields", "foo")]));
    assert_eq!(q.error, Some(QueryStringParseError::InvalidFieldsetKey("".to_string())));
    let q = parse_query_pairs(pairs(&[("fieldsx]", "foo")]));
    assert_eq!(q.error, Some(QueryStringParseError::InvalidFieldsetKey("x]".to_string())));
}

#[test]
fn fields_key_with_empty_model_is_refused() {
    let q = parse_query_pairs(pairs(&[("fields[]", "foo")]));
    assert_eq!(q.error, Some(QueryStringParseError::InvalidFieldsetKey("fields[]".to_string())));
}

#[test]
fn fields_without_values_are_refused() {
    let q = parse_query_pairs(pairs(&[("fields[my-resources]", ",,")]));
    assert_eq!(q.error, Some(QueryStringParseError::EmptyFieldsetValue("my-resources".to_string())));
}

#[test]
fn repeated_fields_prefix_and_brackets_are_trimmed() {
    let q = parse_query_pairs(pairs(&[("fieldsfields[[todos]]", "a,b")]));
    assert!(q.error.is_none());
    assert_eq!(
        q.items,
        vec![QueryItem::Fieldset { model: "todos".to_string(), fields: strings(&["a", "b"]) }]
    );
}

#[test]
fn unknown_fieldset_model_is_unimplemented() {
    let r = MyResource::from_str("fields[others]=foo");
    assert_eq!(r, Err(QueryStringParseError::UnImplementedError));
}

#[test]
fn other_params_are_grouped_by_key_in_order() {
    let q = parse_query("a=1&b=2&a=3&c");
    assert!(q.error.is_none());
    assert!(q.items.is_empty());
    assert_eq!(q.query_params.len(), 3);
    assert_eq!(q.query_params.get("a"), Some(&strings(&["1", "3"])));
    assert_eq!(q.query_params.get("b"), Some(&strings(&["2"])));
    assert_eq!(q.query_params.get("c"), Some(&strings(&[""])));
    assert_eq!(q.query_params.get("d"), None);
}

#[test]
fn query_string_is_percent_decoded() {
    let q = parse_query("%23first=%25try%25&a+b=c+d");
    assert_eq!(q.query_params.get("#first"), Some(&strings(&["%try%"])));
    assert_eq!(q.query_params.get("a b"), Some(&strings(&["c d"])));
}

#[test]
fn reading_stops_at_the_first_malformed_pair() {
    let q = parse_query("a=1&fields=x&b=2");
    assert_eq!(q.error, Some(QueryStringParseError::InvalidFieldsetKey("".to_string())));
    assert_eq!(q.query_params.get("a"), Some(&strings(&["1"])));
    assert_eq!(q.query_params.get("b"), None);
}

#[test]
fn query_params_insert_replaces_and_push_appends() {
    let mut q = QueryParams::new();
    q.push_value("k".to_string(), "1".to_string());
    q.push_value("k".to_string(), "2".to_string());
    assert_eq!(q.get("k"), Some(&strings(&["1", "2"])));
    q.insert("k".to_string(), strings(&["x"]));
    assert_eq!(q.get("k"), Some(&strings(&["x"])));
    assert_eq!(q.len(), 1);
}
