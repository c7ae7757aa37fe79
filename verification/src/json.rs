//! The JSON forms that the library reads: comma separated lists and resource type names.
use vstd::prelude::*;
use crate::text::{comma_items, comma_items_exec, str_equal, string_push, string_views};

verus! {

/// The items of a comma separated list: the non-empty pieces between commas, in order.
pub fn comma_separated(s: &str) -> (items: Vec<String>)
    ensures
        string_views(items@) == comma_items(s@),
{
    comma_items_exec(s)
}

/// The message for a type name that is not the expected one.
pub open spec fn invalid_type_name_message(value: Seq<char>) -> Seq<char> {
    "Invalid type name '"@ + value + seq!['\'']
}

/// Checks the `type` member of a resource document against the resource's type name.
pub fn check_type_name(value: &str, expected: &str) -> (r: Result<(), String>)
    ensures
        value@ == expected@ ==> r is Ok,
        value@ != expected@ ==> (r matches Err(m) && m@ == invalid_type_name_message(value@)),
{
    if str_equal(value, expected) {
        Ok(())
    } else {
        let mut m = String::from_str("Invalid type name '");
        m.append(value);
        string_push(&mut m, '\'');
        Err(m)
    }
}

/// The values of `results`, in order, when every one is `Ok`; else the first error.
pub fn first_error<T, E>(results: Vec<Result<T, E>>) -> (r: Result<Vec<T>, E>)
    ensures
        match r {
            Ok(v) => v@.len() == results@.len()
                && forall|i: int| 0 <= i < v@.len() ==> #[trigger] results@[i] == Ok::<T, E>(v@[i]),
            Err(e) => exists|k: int|
                0 <= k < results@.len() && #[trigger] results@[k] == Err::<T, E>(e)
                    && forall|i: int| 0 <= i < k ==> (#[trigger] results@[i]) is Ok,
        },
{
    let ghost all = results@;
    let mut rest = results;
    let mut values: Vec<T> = Vec::new();
    while rest.len() > 0
        invariant
            all == results@,
            values@.len() + rest@.len() == all.len(),
            rest@ == all.subrange(values@.len() as int, all.len() as int),
            forall|i: int| 0 <= i < values@.len() ==> #[trigger] all[i] == Ok::<T, E>(values@[i]),
        decreases rest@.len(),
    {
        let k = values.len();
        let item = rest.remove(0);
        assert(item == all[k as int]);
        match item {
            Ok(v) => {
                values.push(v);
                assert(rest@ =~= all.subrange(values@.len() as int, all.len() as int));
            },
            Err(e) => {
                proof {
                    assert(all[k as int] == Err::<T, E>(e));
                    assert forall|i: int| 0 <= i < k implies (#[trigger] all[i]) is Ok by {
                        assert(all[i] == Ok::<T, E>(values@[i]));
                    }
                }
                return Err(e);
            },
        }
    }
    Ok(values)
}

} // verus!
