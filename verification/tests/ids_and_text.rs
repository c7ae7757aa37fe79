use rustiful::json::{check_type_name, comma_separated};
use rustiful::text::{i64_to_text, u64_to_text};
use rustiful::{JsonApiId, JsonApiIdType, Status};

#[test]
fn ids_read_back_what_they_were_made_of() {
    assert_eq!(JsonApiId::from("abc".to_string()).into_string(), "abc");
    assert_eq!(JsonApiId::from(-7i32).into_i32(), -7);
    assert_eq!(JsonApiId::from(i64::MIN).into_i64(), i64::MIN);
    assert_eq!(JsonApiId::from(u32::MAX).into_u32(), u32::MAX);
    assert_eq!(JsonApiId::from(42u64).into_u64(), 42);
    let u = uuid::Uuid::from_u128(0x0123_4567_89ab_cdef_0011_2233_4455_6677);
    assert_eq!(JsonApiId::from_uuid(u).into_uuid(), u);
}

#[test]
fn ids_are_written_in_decimal_or_hyphenated() {
    assert_eq!(JsonApiId::from("x-1".to_string()).to_string(), "x-1");
    assert_eq!(JsonApiId::from(-2147483648i32).to_string(), "-2147483648");
    assert_eq!(JsonApiId::from(i64::MIN).to_string(), "-9223372036854775808");
    assert_eq!(JsonApiId::from(0u32).to_string(), "0");
    assert_eq!(JsonApiId::from(u64::MAX).to_string(), "18446744073709551615");
    let id = JsonApiId(JsonApiIdType::Uuid(uuid::Uuid::from_u128(0x0123_4567_89ab_cdef_0011_2233_4455_6677)));
    assert_eq!(id.to_string(), "01234567-89ab-cdef-0011-223344556677");
}

#[test]
fn decimal_text() {
    assert_eq!(u64_to_text(0), "0");
    assert_eq!(u64_to_text(1000), "1000");
    assert_eq!(i64_to_text(-1), "-1");
    assert_eq!(i64_to_text(i64::MAX), "9223372036854775807");
}

#[test]
fn statuses_read_back_from_their_codes() {
    for code in [200u16, 204, 400, 404, 418, 500, 503, 299, 0, 65535] {
        assert_eq!(Status::from_u16(code).to_u16(), code);
    }
    assert_eq!(Status::from_u16(404), Status::NotFound);
    assert_eq!(Status::from_u16(Status::NoContent.to_u16()), Status::NoContent);
    assert_eq!(Status::from_u16(299), Status::Unregistered(299));
}

#[test]
fn comma_separated_items_skip_empty_pieces() {
    assert_eq!(comma_separated("a,,b,"), vec!["a".to_string(), "b".to_string()]);
    assert_eq!(comma_separated(""), Vec::<String>::new());
    assert_eq!(comma_separated(",,"), Vec::<String>::new());
}

#[test]
fn type_names_are_checked() {
    assert_eq!(check_type_name("my-resources", "my-resources"), Ok(()));
    assert_eq!(
        check_type_name("something-invalid", "my-resources"),
        Err("Invalid type name 'something-invalid'".to_string())
    );
}
