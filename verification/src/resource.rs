//! The description of a JSONAPI resource type.
use vstd::prelude::*;
use crate::errors::QueryStringParseError;
use crate::params::{values_of, JsonApiParams};
use crate::query::{
    count_fieldset_items, count_sort_items, form_urlencoded_pairs, is_plain_key, params_from_query, parse_pairs, reads_params, values_for,
    TryFromFieldset, TryFromSort,
};

verus! {

/// Implemented for any resource type served as JSONAPI.
pub trait JsonApiResource: Sized {
    /// The type that lists the sortable fields of the resource.
    type SortField: TryFromSort;
    /// The type that lists the fields of the resource.
    type FilterField: TryFromFieldset;
    /// The type of the id of the resource.
    type JsonApiIdType;

    /// The pluralized, lower-cased and dasherized name of the resource type.
    fn resource_name() -> &'static str;

    /// Converts a query string to typed parameters (see `params_from_query`).
    fn from_str(query_string: &str) -> (r: Result<JsonApiParams<Self::FilterField, Self::SortField>, QueryStringParseError>)
        ensures
            reads_params(query_string@, r),
            r matches Ok(p) ==> forall|key: Seq<char>| is_plain_key(key)
                ==> #[trigger] values_of(p.query_params@, key) == values_for(form_urlencoded_pairs(query_string@), key),
            r is Ok ==> parse_pairs(form_urlencoded_pairs(query_string@)).error is None,
            r matches Ok(p) ==> {
                let q = parse_pairs(form_urlencoded_pairs(query_string@));
                &&& p.query_params@ == q.query_params
                &&& p.sort.fields@.len() == count_sort_items(q.items)
                &&& p.fieldset.fields@.len() == count_fieldset_items(q.items)
            },
            query_string@.len() == 0 ==> (r matches Ok(p) && p.query_params@.len() == 0
                && p.sort.fields@.len() == 0 && p.fieldset.fields@.len() == 0),
            parse_pairs(form_urlencoded_pairs(query_string@)).items.len() == 0 ==> match parse_pairs(
                form_urlencoded_pairs(query_string@),
            ).error {
                Some(e) => r matches Err(e2) && e2@ == e,
                None => r is Ok,
            },
    {
        params_from_query(query_string)
    }
}

} // verus!
