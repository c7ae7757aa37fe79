//! Resource ids of the types that JSONAPI resources use.
use vstd::prelude::*;
use vstd::arithmetic::power2::pow2;
use crate::text::{
    decimal, digits_value, i64_to_text, is_digit, lemma_decimal_reads_back,
    lemma_signed_decimal_reads_back, signed_decimal, signed_value, u64_to_text,
};
use uuid::Uuid;

verus! {

#[verifier::external_type_specification]
#[verifier::external_body]
pub struct ExUuid(Uuid);

/// The value of a resource id, by its type.
#[derive(Debug, Clone, PartialEq, Eq)]
pub enum JsonApiIdType {
    Str(String),
    Int32(i32),
    Int64(i64),
    UInt32(u32),
    UInt64(u64),
    /// A UUID.
    Uuid(Uuid),
}

/// A resource id.
#[derive(Debug, Clone, PartialEq, Eq)]
pub struct JsonApiId(pub JsonApiIdType);

/// The lower-case hexadecimal digit for `d`, where `d < 16`.
pub open spec fn hex_digit(d: nat) -> char {
    if d < 10 {
        ((d + 48) as u32) as char
    } else {
        ((d + 87) as u32) as char
    }
}

/// The `k`-th hexadecimal digit of `v`, counted from the most significant of its 32.
pub open spec fn uuid_nibble(v: u128, k: int) -> nat {
    ((v as nat) / pow2((4 * (31 - k)) as nat)) % 16
}

/// The number of hyphens before position `i` of the hyphenated form.
pub open spec fn hyphens_before(i: int) -> int {
    if i < 9 { 0 } else if i < 14 { 1 } else if i < 19 { 2 } else if i < 24 { 3 } else { 4 }
}

/// The hyphenated form of a UUID: its 32 lower-case hexadecimal digits, most significant first,
/// in groups of 8, 4, 4, 4 and 12 joined by `-`.
pub open spec fn uuid_text(v: u128) -> Seq<char> {
    Seq::new(
        36,
        |i: int|
            if i == 8 || i == 13 || i == 18 || i == 23 {
                '-'
            } else {
                hex_digit(uuid_nibble(v, i - hyphens_before(i)))
            },
    )
}

/// The text of a UUID given by its value, as the `uuid` crate writes it (`Display`, which is
/// the hyphenated lower-case form of `Uuid::from_u128(v)`).
#[verifier::external_body]
fn uuid_to_text(v: u128) -> (s: String)
    ensures
        s@ == uuid_text(v),
{
    Uuid::from_u128(v).to_string()
}

/// `Uuid::as_u128`: the 128-bit value of a UUID, read most significant byte first. As the source
/// of `as_u128` and `from_u128` shows (both use the big-endian bytes of the value), the UUID is
/// what `Uuid::from_u128` gives for that value; nothing else is stated, as a `Uuid` has no
/// mathematical value here.
#[verifier::external_body]
fn uuid_value(id: &Uuid) -> (r: u128)
    ensures
        call_ensures(uuid::Uuid::from_u128, (r,), *id),
{
    id.as_u128()
}

/// `Uuid::from_u128`: the UUID of a 128-bit value. Nothing is stated of the UUID: a `Uuid` has no
/// mathematical value here; what a call gives is spoken of by `call_ensures`.
pub assume_specification[uuid::Uuid::from_u128](v: u128) -> uuid::Uuid;

/// `Clone` of `uuid::Uuid`, which derives `Clone` together with `Copy`: the clone is the same
/// UUID.
pub assume_specification[<uuid::Uuid as std::clone::Clone>::clone](u: &uuid::Uuid) -> (r: uuid::Uuid)
    ensures
        r == *u,
;

impl From<String> for JsonApiId {
    fn from(value: String) -> (id: Self)
        ensures
            id == JsonApiId(JsonApiIdType::Str(value)),
    {
        JsonApiId(JsonApiIdType::Str(value))
    }
}

impl vstd::std_specs::convert::FromSpecImpl<String> for JsonApiId {
    open spec fn obeys_from_spec() -> bool {
        true
    }

    open spec fn from_spec(value: String) -> Self {
        JsonApiId(JsonApiIdType::Str(value))
    }
}

impl From<i32> for JsonApiId {
    fn from(value: i32) -> (id: Self)
        ensures
            id == JsonApiId(JsonApiIdType::Int32(value)),
    {
        JsonApiId(JsonApiIdType::Int32(value))
    }
}

impl vstd::std_specs::convert::FromSpecImpl<i32> for JsonApiId {
    open spec fn obeys_from_spec() -> bool {
        true
    }

    open spec fn from_spec(value: i32) -> Self {
        JsonApiId(JsonApiIdType::Int32(value))
    }
}

impl From<i64> for JsonApiId {
    fn from(value: i64) -> (id: Self)
        ensures
            id == JsonApiId(JsonApiIdType::Int64(value)),
    {
        JsonApiId(JsonApiIdType::Int64(value))
    }
}

impl vstd::std_specs::convert::FromSpecImpl<i64> for JsonApiId {
    open spec fn obeys_from_spec() -> bool {
        true
    }

    open spec fn from_spec(value: i64) -> Self {
        JsonApiId(JsonApiIdType::Int64(value))
    }
}

impl From<u32> for JsonApiId {
    fn from(value: u32) -> (id: Self)
        ensures
            id == JsonApiId(JsonApiIdType::UInt32(value)),
    {
        JsonApiId(JsonApiIdType::UInt32(value))
    }
}

impl vstd::std_specs::convert::FromSpecImpl<u32> for JsonApiId {
    open spec fn obeys_from_spec() -> bool {
        true
    }

    open spec fn from_spec(value: u32) -> Self {
        JsonApiId(JsonApiIdType::UInt32(value))
    }
}

impl From<u64> for JsonApiId {
    fn from(value: u64) -> (id: Self)
        ensures
            id == JsonApiId(JsonApiIdType::UInt64(value)),
    {
        JsonApiId(JsonApiIdType::UInt64(value))
    }
}

impl vstd::std_specs::convert::FromSpecImpl<u64> for JsonApiId {
    open spec fn obeys_from_spec() -> bool {
        true
    }

    open spec fn from_spec(value: u64) -> Self {
        JsonApiId(JsonApiIdType::UInt64(value))
    }
}

/// Whether `text` is the text of an id: a string as it is, an integer in decimal, a UUID
/// hyphenated (the hyphenated form of the 128-bit value from which `Uuid::from_u128` gives it).
pub open spec fn is_id_text(id: JsonApiIdType, text: Seq<char>) -> bool {
    match id {
        JsonApiIdType::Str(s) => text == s@,
        JsonApiIdType::Int32(v) => text == signed_decimal(v as int),
        JsonApiIdType::Int64(v) => text == signed_decimal(v as int),
        JsonApiIdType::UInt32(v) => text == decimal(v as nat),
        JsonApiIdType::UInt64(v) => text == decimal(v as nat),
        JsonApiIdType::Uuid(u) => exists|v: u128|
            #[trigger] call_ensures(uuid::Uuid::from_u128, (v,), u) && text == uuid_text(v),
    }
}

/// The text of an id: a string id is its string; an integer id is its value in decimal, with a
/// `-` only when it is negative, the same text whatever integer type holds the value, and the
/// text reads back to that value; a UUID is written with its 36 characters.
pub proof fn lemma_id_text(id: JsonApiIdType, t: Seq<char>)
    requires
        is_id_text(id, t),
    ensures
        id matches JsonApiIdType::Str(s) ==> t == s@,
        id matches JsonApiIdType::Int32(v) ==> signed_value(t) == v
            && is_id_text(JsonApiIdType::Int64(v as i64), t) && (v >= 0 ==> t == decimal(v as nat))
            && (v < 0 ==> t == seq!['-'] + decimal((-v) as nat)),
        id matches JsonApiIdType::Int64(v) ==> signed_value(t) == v
            && (v >= 0 ==> t == decimal(v as nat)) && (v < 0 ==> t == seq!['-'] + decimal((-v) as nat)),
        id matches JsonApiIdType::UInt32(v) ==> digits_value(t) == v
            && is_id_text(JsonApiIdType::UInt64(v as u64), t)
            && is_id_text(JsonApiIdType::Int64(v as i64), t),
        id matches JsonApiIdType::UInt64(v) ==> digits_value(t) == v,
        id is Int32 || id is Int64 || id is UInt32 || id is UInt64 ==> t.len() > 0 && t[0] != '+',
        id matches JsonApiIdType::UInt32(v) ==> forall|i: int| 0 <= i < t.len() ==> is_digit(#[trigger] t[i]),
        id matches JsonApiIdType::UInt64(v) ==> forall|i: int| 0 <= i < t.len() ==> is_digit(#[trigger] t[i]),
        id is Uuid ==> t.len() == 36,
{
    match id {
        JsonApiIdType::Str(_) => {},
        JsonApiIdType::Int32(v) => {
            lemma_signed_decimal_reads_back(v as int);
            lemma_decimal_reads_back(if v < 0 { (-v) as nat } else { v as nat });
            if v >= 0 {
                assert(is_digit(t[0]));
            }
        },
        JsonApiIdType::Int64(v) => {
            lemma_signed_decimal_reads_back(v as int);
            lemma_decimal_reads_back(if v < 0 { (-v) as nat } else { v as nat });
            if v >= 0 {
                assert(is_digit(t[0]));
            }
        },
        JsonApiIdType::UInt32(v) => {
            lemma_decimal_reads_back(v as nat);
            lemma_signed_decimal_reads_back(v as int);
            assert(is_digit(t[0]));
        },
        JsonApiIdType::UInt64(v) => {
            lemma_decimal_reads_back(v as nat);
            assert(is_digit(t[0]));
        },
        JsonApiIdType::Uuid(u) => {
            let w = choose|w: u128| #[trigger] call_ensures(uuid::Uuid::from_u128, (w,), u) && t == uuid_text(w);
        },
    }
}

impl JsonApiId {
    /// The id of a UUID.
    pub fn from_uuid(value: Uuid) -> (id: JsonApiId)
        ensures
            id == JsonApiId(JsonApiIdType::Uuid(value)),
    {
        JsonApiId(JsonApiIdType::Uuid(value))
    }

    /// The string of a string id.
    pub fn into_string(self) -> (s: String)
        requires
            self.0 is Str,
        ensures
            self.0 == JsonApiIdType::Str(s),
    {
        match self.0 {
            JsonApiIdType::Str(s) => s,
            _ => {
                proof {
                    assert(false);
                }
                String::new()
            },
        }
    }

    /// The integer of a 32-bit signed id.
    pub fn into_i32(self) -> (v: i32)
        requires
            self.0 is Int32,
        ensures
            self.0 == JsonApiIdType::Int32(v),
    {
        match self.0 {
            JsonApiIdType::Int32(v) => v,
            _ => 0,
        }
    }

    /// The integer of a 64-bit signed id.
    pub fn into_i64(self) -> (v: i64)
        requires
            self.0 is Int64,
        ensures
            self.0 == JsonApiIdType::Int64(v),
    {
        match self.0 {
            JsonApiIdType::Int64(v) => v,
            _ => 0,
        }
    }

    /// The integer of a 32-bit unsigned id.
    pub fn into_u32(self) -> (v: u32)
        requires
            self.0 is UInt32,
        ensures
            self.0 == JsonApiIdType::UInt32(v),
    {
        match self.0 {
            JsonApiIdType::UInt32(v) => v,
            _ => 0,
        }
    }

    /// The integer of a 64-bit unsigned id.
    pub fn into_u64(self) -> (v: u64)
        requires
            self.0 is UInt64,
        ensures
            self.0 == JsonApiIdType::UInt64(v),
    {
        match self.0 {
            JsonApiIdType::UInt64(v) => v,
            _ => 0,
        }
    }

    /// The UUID of a UUID id.
    pub fn into_uuid(self) -> (u: Uuid)
        requires
            self.0 is Uuid,
        ensures
            self.0 == JsonApiIdType::Uuid(u),
    {
        match self.0 {
            JsonApiIdType::Uuid(u) => u,
            _ => {
                proof {
                    assert(false);
                }
                Uuid::from_u128(0)
            },
        }
    }

    /// The text of the id.
    pub fn to_string(&self) -> (s: String)
        ensures
            is_id_text(self.0, s@),
        self.0 matches JsonApiIdType::Int32(v) ==> s@ == signed_decimal(v as int),
        self.0 matches JsonApiIdType::Int64(v) ==> s@ == signed_decimal(v as int),
        self.0 matches JsonApiIdType::UInt32(v) ==> s@ == decimal(v as nat),
        self.0 matches JsonApiIdType::UInt64(v) ==> s@ == decimal(v as nat),
        self.0 matches JsonApiIdType::Str(t) ==> s@ == t@,
    {
        match &self.0 {
            JsonApiIdType::Str(s) => s.clone(),
            JsonApiIdType::Int32(v) => i64_to_text(*v as i64),
            JsonApiIdType::Int64(v) => i64_to_text(*v),
            JsonApiIdType::UInt32(v) => u64_to_text(*v as u64),
            JsonApiIdType::UInt64(v) => u64_to_text(*v),
            JsonApiIdType::Uuid(u) => {
                let v = uuid_value(u);
                let s = uuid_to_text(v);
                assert(call_ensures(uuid::Uuid::from_u128, (v,), *u));
                s
            },
        }
    }
}

} // verus!
