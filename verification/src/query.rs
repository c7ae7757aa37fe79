//! Parsing of the JSONAPI query string: `sort`, `fields[*]` and all other parameters.
use vstd::prelude::*;
use crate::errors::{QueryStringParseError, SpecQueryStringParseError};
use crate::params::{
    entries_push_value, lemma_push_value_reads, unique_keys, values_of, JsonApiParams, QueryParams,
    SpecEntries,
};
use crate::sort_order::SortOrder;
use crate::text::{
    chars_equal, chars_start_with, chars_to_string, comma_items, comma_items_exec, starts_with,
    str_to_chars, string_views, trim_end_char, trim_end_char_exec, trim_start_char,
    trim_start_char_exec, trim_start_matches, trim_start_matches_exec,
};

verus! {

/// One `sort` field or one `fields[*]` parameter of a query string, as written.
#[derive(Debug, PartialEq, Eq)]
pub enum QueryItem {
    /// A field of the `sort` parameter, without its leading `-`, and its direction.
    Sort { field: String, order: SortOrder },
    /// The model named in a `fields[model]` key and the fields listed for it.
    Fieldset { model: String, fields: Vec<String> },
}

/// The mathematical value of a `QueryItem`.
pub enum SpecQueryItem {
    Sort { field: Seq<char>, order: SortOrder },
    Fieldset { model: Seq<char>, fields: Seq<Seq<char>> },
}

impl View for QueryItem {
    type V = SpecQueryItem;

    open spec fn view(&self) -> SpecQueryItem {
        match self {
            QueryItem::Sort { field, order } => SpecQueryItem::Sort { field: field@, order: *order },
            QueryItem::Fieldset { model, fields } => SpecQueryItem::Fieldset {
                model: model@,
                fields: string_views(fields@),
            },
        }
    }
}

/// The views of a sequence of query items.
pub open spec fn item_views(v: Seq<QueryItem>) -> Seq<SpecQueryItem> {
    v.map_values(|i: QueryItem| i@)
}

/// A query string read pair by pair: the `sort` and `fields[*]` items in the order in which they
/// occur, the other parameters, and the error that stopped the reading, if any. Items after the
/// error are not read.
#[derive(Debug)]
pub struct ParsedQuery {
    pub items: Vec<QueryItem>,
    pub query_params: QueryParams,
    pub error: Option<QueryStringParseError>,
}

/// The mathematical value of a `ParsedQuery`.
pub struct SpecParsedQuery {
    pub items: Seq<SpecQueryItem>,
    pub query_params: SpecEntries,
    pub error: Option<SpecQueryStringParseError>,
}

/// The view of an optional error.
pub open spec fn error_view(e: Option<QueryStringParseError>) -> Option<SpecQueryStringParseError> {
    match e {
        Some(e) => Some(e@),
        None => None,
    }
}

impl View for ParsedQuery {
    type V = SpecParsedQuery;

    open spec fn view(&self) -> SpecParsedQuery {
        SpecParsedQuery {
            items: item_views(self.items@),
            query_params: self.query_params@,
            error: error_view(self.error),
        }
    }
}

/// The item for a field of the `sort` parameter: descending when it begins with `-`, which is
/// then dropped (the whole leading run of it), else ascending.
pub open spec fn sort_item(f: Seq<char>) -> SpecQueryItem {
    if f.len() > 0 && f[0] == '-' {
        SpecQueryItem::Sort { field: trim_start_char(f, '-'), order: SortOrder::Desc }
    } else {
        SpecQueryItem::Sort { field: f, order: SortOrder::Asc }
    }
}

/// Whether some pair has the key `sort`.
pub open spec fn has_sort_key(pairs: Seq<(Seq<char>, Seq<char>)>) -> bool {
    exists|k: int| 0 <= k < pairs.len() && (#[trigger] pairs[k]).0 == "sort"@
}

/// Whether the part of a `fields` key after `fields` is written in brackets.
pub open spec fn bracketed(m: Seq<char>) -> bool {
    m.len() > 0 && m[0] == '[' && m.last() == ']'
}

/// The model named by the part of a `fields` key after `fields`.
pub open spec fn fieldset_model(m: Seq<char>) -> Seq<char> {
    trim_end_char(trim_start_char(m, '['), ']')
}

/// The query with `error` recorded.
pub open spec fn with_error(q: SpecParsedQuery, e: SpecQueryStringParseError) -> SpecParsedQuery {
    SpecParsedQuery { items: q.items, query_params: q.query_params, error: Some(e) }
}

/// Reading one pair `key=value` of the query string, `sort_before` telling whether an earlier
/// pair had the key `sort`: the `sort` parameter may be given once.
pub open spec fn parse_step(q: SpecParsedQuery, sort_before: bool, key: Seq<char>, value: Seq<char>) -> SpecParsedQuery {
    if key == "sort"@ {
        if sort_before {
            with_error(q, SpecQueryStringParseError::DuplicateSortKey(value))
        } else {
            SpecParsedQuery {
                items: q.items + comma_items(value).map_values(|f: Seq<char>| sort_item(f)),
                query_params: q.query_params,
                error: None,
            }
        }
    } else if starts_with(key, "fields"@) {
        let m = trim_start_matches(key, "fields"@);
        if !bracketed(m) {
            with_error(q, SpecQueryStringParseError::InvalidFieldsetKey(m))
        } else if fieldset_model(m).len() == 0 {
            with_error(q, SpecQueryStringParseError::InvalidFieldsetKey(key))
        } else if comma_items(value).len() == 0 {
            with_error(q, SpecQueryStringParseError::EmptyFieldsetValue(fieldset_model(m)))
        } else {
            SpecParsedQuery {
                items: q.items.push(
                    SpecQueryItem::Fieldset { model: fieldset_model(m), fields: comma_items(value) },
                ),
                query_params: q.query_params,
                error: None,
            }
        }
    } else {
        SpecParsedQuery {
            items: q.items,
            query_params: entries_push_value(q.query_params, key, value),
            error: None,
        }
    }
}

/// Nothing read yet.
pub open spec fn initial_query() -> SpecParsedQuery {
    SpecParsedQuery {
        items: Seq::<SpecQueryItem>::empty(),
        query_params: Seq::<(Seq<char>, Seq<Seq<char>>)>::empty(),
        error: None,
    }
}

/// Reading the pairs in order, stopping at the first error.
pub open spec fn parse_pairs(pairs: Seq<(Seq<char>, Seq<char>)>) -> SpecParsedQuery
    decreases pairs.len(),
{
    if pairs.len() == 0 {
        initial_query()
    } else {
        let prev = parse_pairs(pairs.drop_last());
        if prev.error is Some {
            prev
        } else {
            parse_step(prev, has_sort_key(pairs.drop_last()), pairs.last().0, pairs.last().1)
        }
    }
}

/// The values given to `key` by `pairs`, in order.
pub open spec fn values_for(pairs: Seq<(Seq<char>, Seq<char>)>, key: Seq<char>) -> Seq<Seq<char>>
    decreases pairs.len(),
{
    if pairs.len() == 0 {
        Seq::<Seq<char>>::empty()
    } else {
        let rest = values_for(pairs.drop_last(), key);
        if pairs.last().0 == key {
            rest.push(pairs.last().1)
        } else {
            rest
        }
    }
}

/// Whether a key is an ordinary parameter: neither `sort` nor a `fields` key.
pub open spec fn is_plain_key(key: Seq<char>) -> bool {
    key != "sort"@ && !starts_with(key, "fields"@)
}

/// Reading a query string never gives a key twice among its other parameters.
pub proof fn lemma_parsed_keys_unique(pairs: Seq<(Seq<char>, Seq<char>)>)
    ensures
        unique_keys(parse_pairs(pairs).query_params),
    decreases pairs.len(),
{
    if pairs.len() > 0 {
        lemma_parsed_keys_unique(pairs.drop_last());
        let prev = parse_pairs(pairs.drop_last());
        if prev.error is None {
            lemma_push_value_reads(prev.query_params, pairs.last().0, pairs.last().1, pairs.last().0);
        }
    }
}

/// A query string of ordinary parameters only reads without error, gives no sort field and no
/// fieldset, and keeps every value given to each key, in order.
pub proof fn lemma_plain_pairs_kept(pairs: Seq<(Seq<char>, Seq<char>)>, key: Seq<char>)
    requires
        forall|i: int| 0 <= i < pairs.len() ==> is_plain_key(#[trigger] pairs[i].0),
    ensures
        parse_pairs(pairs).error is None,
        parse_pairs(pairs).items.len() == 0,
        values_of(parse_pairs(pairs).query_params, key) == values_for(pairs, key),
    decreases pairs.len(),
{
    if pairs.len() == 0 {
        assert(values_of(parse_pairs(pairs).query_params, key) =~= Seq::<Seq<char>>::empty());
    } else {
        let init = pairs.drop_last();
        assert forall|i: int| 0 <= i < init.len() implies is_plain_key(#[trigger] init[i].0) by {
            assert(init[i] == pairs[i]);
        }
        lemma_plain_pairs_kept(init, key);
        lemma_parsed_keys_unique(init);
        let prev = parse_pairs(init);
        let last = pairs.last();
        assert(is_plain_key(pairs[pairs.len() - 1].0));
        lemma_push_value_reads(prev.query_params, last.0, last.1, key);
    }
}

/// Every ordinary parameter is kept: when a query string reads without error, each key that is
/// neither `sort` nor a `fields` key gets exactly the values that the pairs give it, in order,
/// whatever `sort` and `fields[..]` pairs stand among them.
pub proof fn lemma_plain_values_kept(pairs: Seq<(Seq<char>, Seq<char>)>, key: Seq<char>)
    requires
        parse_pairs(pairs).error is None,
        is_plain_key(key),
    ensures
        values_of(parse_pairs(pairs).query_params, key) == values_for(pairs, key),
    decreases pairs.len(),
{
    if pairs.len() == 0 {
        assert(values_of(parse_pairs(pairs).query_params, key) =~= Seq::<Seq<char>>::empty());
    } else {
        let init = pairs.drop_last();
        let prev = parse_pairs(init);
        let last = pairs.last();
        assert(prev.error is None);
        lemma_plain_values_kept(init, key);
        lemma_parsed_keys_unique(init);
        if is_plain_key(last.0) {
            lemma_push_value_reads(prev.query_params, last.0, last.1, key);
        } else {
            assert(last.0 != key);
            assert(parse_pairs(pairs).query_params == prev.query_params);
        }
    }
}

/// When a whole list of pairs reads without error, so does each of its prefixes, and the items
/// read from a prefix stay at the front of the items read from the whole list.
proof fn lemma_items_grow(pairs: Seq<(Seq<char>, Seq<char>)>, m: int)
    requires
        0 <= m <= pairs.len(),
        parse_pairs(pairs).error is None,
    ensures
        parse_pairs(pairs.take(m)).error is None,
        parse_pairs(pairs.take(m)).items.len() <= parse_pairs(pairs).items.len(),
        forall|k: int| 0 <= k < parse_pairs(pairs.take(m)).items.len()
            ==> #[trigger] parse_pairs(pairs.take(m)).items[k] == parse_pairs(pairs).items[k],
    decreases pairs.len(),
{
    if m == pairs.len() {
        assert(pairs.take(m) =~= pairs);
    } else {
        let init = pairs.drop_last();
        assert(parse_pairs(init).error is None);
        assert(init.take(m) =~= pairs.take(m));
        lemma_items_grow(init, m);
    }
}

/// The `sort` parameter may be given once: a second `sort` key makes the reading stop with an
/// error.
pub proof fn lemma_second_sort_refused(pairs: Seq<(Seq<char>, Seq<char>)>, i: int, j: int)
    requires
        0 <= i < j < pairs.len(),
        pairs[i].0 == "sort"@,
        pairs[j].0 == "sort"@,
    ensures
        parse_pairs(pairs).error is Some,
{
    if parse_pairs(pairs).error is None {
        let upto = pairs.take(j + 1);
        lemma_items_grow(pairs, j + 1);
        lemma_items_grow(pairs, j);
        assert(upto.drop_last() =~= pairs.take(j));
        assert(upto.last() == pairs[j]);
        assert(pairs.take(j)[i] == pairs[i]);
        assert(has_sort_key(pairs.take(j)));
        assert(parse_pairs(upto).error is Some);
    }
}

/// The views of a sequence of string pairs.
pub open spec fn pair_views(v: Seq<(String, String)>) -> Seq<(Seq<char>, Seq<char>)> {
    v.map_values(|p: (String, String)| (p.0@, p.1@))
}

fn sort_item_exec(field: &String) -> (item: QueryItem)
    ensures
        item@ == sort_item(field@),
{
    let chars = str_to_chars(field.as_str());
    if chars.len() > 0 && chars[0] == '-' {
        let trimmed = trim_start_char_exec(&chars, '-');
        QueryItem::Sort { field: chars_to_string(&trimmed), order: SortOrder::Desc }
    } else {
        QueryItem::Sort { field: field.clone(), order: SortOrder::Asc }
    }
}

fn apply_pair(q: &mut ParsedQuery, sort_seen: &mut bool, key: String, value: String)
    requires
        old(q)@.error is None,
    ensures
        final(q)@ == parse_step(old(q)@, *old(sort_seen), key@, value@),
        *final(sort_seen) == (*old(sort_seen) || key@ == "sort"@),
{
    let ghost q0 = q@;
    let key_chars = str_to_chars(key.as_str());
    let sort_key = str_to_chars("sort");
    let fields_key = str_to_chars("fields");
    if chars_equal(&key_chars, &sort_key) {
        if *sort_seen {
            q.error = Some(QueryStringParseError::DuplicateSortKey(value));
            return;
        }
        *sort_seen = true;
        let fields = comma_items_exec(value.as_str());
        let ghost fv = string_views(fields@);
        let mut i: usize = 0;
        assert(q@.items =~= q0.items + fv.take(0).map_values(|f: Seq<char>| sort_item(f)));
        while i < fields.len()
            invariant
                i <= fields.len(),
                fv == string_views(fields@),
                fv == comma_items(value@),
                q@.error is None,
                q@.query_params == q0.query_params,
                q@.items == q0.items + fv.take(i as int).map_values(|f: Seq<char>| sort_item(f)),
                *sort_seen,
            decreases fields.len() - i,
        {
            let item = sort_item_exec(&fields[i]);
            let ghost before = q@.items;
            q.items.push(item);
            proof {
                assert(fv[i as int] == fields@[i as int]@);
                assert(fv.take(i + 1).map_values(|f: Seq<char>| sort_item(f))
                    =~= fv.take(i as int).map_values(|f: Seq<char>| sort_item(f)).push(sort_item(fv[i as int])));
                assert(item_views(q.items@) =~= before.push(item@));
            }
            i = i + 1;
        }
        proof {
            assert(fv.take(fields.len() as int) =~= fv);
        }
    } else if chars_start_with(&key_chars, &fields_key) {
        let m = trim_start_matches_exec(&key_chars, &fields_key);
        if !(m.len() > 0 && m[0] == '[' && m[m.len() - 1] == ']') {
            q.error = Some(QueryStringParseError::InvalidFieldsetKey(chars_to_string(&m)));
            return;
        }
        let model = trim_end_char_exec(&trim_start_char_exec(&m, '['), ']');
        if model.len() == 0 {
            q.error = Some(QueryStringParseError::InvalidFieldsetKey(key));
            return;
        }
        let fields = comma_items_exec(value.as_str());
        if fields.len() == 0 {
            q.error = Some(QueryStringParseError::EmptyFieldsetValue(chars_to_string(&model)));
            return;
        }
        let item = QueryItem::Fieldset { model: chars_to_string(&model), fields: fields };
        let ghost before = q@.items;
        q.items.push(item);
        proof {
            assert(item_views(q.items@) =~= before.push(item@));
        }
    } else {
        q.query_params.push_value(key, value);
    }
}

/// Reads the pairs of a decoded query string in order: `sort` gives sort fields, `fields[model]`
/// gives a fieldset for `model`, and every other key is kept with its values. The first
/// malformed pair stops the reading and is recorded as the error.
pub fn parse_query_pairs(pairs: Vec<(String, String)>) -> (q: ParsedQuery)
    ensures
        q@ == parse_pairs(pair_views(pairs@)),
{
    let ghost pv = pair_views(pairs@);
    let mut q = ParsedQuery { items: Vec::new(), query_params: QueryParams::new(), error: None };
    let mut sort_seen = false;
    let mut i: usize = 0;
    proof {
        assert(pv.take(0) =~= Seq::<(Seq<char>, Seq<char>)>::empty());
        assert(item_views(q.items@) =~= Seq::<SpecQueryItem>::empty());
    }
    while i < pairs.len()
        invariant
            i <= pairs.len(),
            pv == pair_views(pairs@),
            q@ == parse_pairs(pv.take(i as int)),
            q@.error is None ==> sort_seen == has_sort_key(pv.take(i as int)),
        decreases pairs.len() - i,
    {
        proof {
            assert(pv.take(i + 1).drop_last() =~= pv.take(i as int));
        }
        if q.error.is_none() {
            let key = pairs[i].0.clone();
            let value = pairs[i].1.clone();
            apply_pair(&mut q, &mut sort_seen, key, value);
            proof {
                let t = pv.take(i + 1);
                assert(t[i as int] == pv[i as int]);
                if has_sort_key(t) {
                    let k = choose|k: int| 0 <= k < t.len() && (#[trigger] t[k]).0 == "sort"@;
                    if k < i {
                        assert(pv.take(i as int)[k] == t[k]);
                    }
                }
                if has_sort_key(pv.take(i as int)) {
                    let k = choose|k: int| 0 <= k < i && (#[trigger] pv.take(i as int)[k]).0 == "sort"@;
                    assert(t[k] == pv.take(i as int)[k]);
                }
            }
        }
        i = i + 1;
    }
    proof {
        assert(pv.take(pairs.len() as int) =~= pv);
    }
    q
}

/// The pairs that `form_urlencoded::parse` of the `url` crate reads from `query`.
pub uninterp spec fn form_urlencoded_pairs(query: Seq<char>) -> Seq<(Seq<char>, Seq<char>)>;

/// Decodes a query string with `url::form_urlencoded::parse`: the pairs are what that function
/// reads (split at `&` and `=`, `+` read as a space, percent escapes decoded), taken as owned
/// strings. The contract names the pairs and states, as the source of `parse` shows (it yields
/// nothing once its input is empty), that an empty string has none.
#[verifier::external_body]
fn decode_query_string(query: &str) -> (pairs: Vec<(String, String)>)
    ensures
        pair_views(pairs@) == form_urlencoded_pairs(query@),
        query@.len() == 0 ==> pairs@.len() == 0,
{
    url::form_urlencoded::parse(query.as_bytes()).into_owned().collect()
}

/// Decodes `query` and reads its pairs in order (see `parse_query_pairs`).
pub fn parse_query(query: &str) -> (q: ParsedQuery)
    ensures
        q@ == parse_pairs(form_urlencoded_pairs(query@)),
        query@.len() == 0 ==> q@ == initial_query(),
{
    let pairs = decode_query_string(query);
    proof {
        if query@.len() == 0 {
            assert(form_urlencoded_pairs(query@) =~= Seq::<(Seq<char>, Seq<char>)>::empty());
        }
    }
    parse_query_pairs(pairs)
}

/// The number of sort items.
pub open spec fn count_sort_items(items: Seq<SpecQueryItem>) -> nat
    decreases items.len(),
{
    if items.len() == 0 {
        0
    } else {
        count_sort_items(items.drop_last()) + if items.last() is Sort { 1nat } else { 0nat }
    }
}

/// The number of fieldset items.
pub open spec fn count_fieldset_items(items: Seq<SpecQueryItem>) -> nat
    decreases items.len(),
{
    if items.len() == 0 {
        0
    } else {
        count_fieldset_items(items.drop_last()) + if items.last() is Fieldset { 1nat } else { 0nat }
    }
}

/// A sort field type: built from a field name of the `sort` parameter and its direction.
/// Implemented, for each resource, by the type that lists its sortable fields.
pub trait TryFromSort: Sized {
    /// The sort field named `field`, in direction `order`, or the error for an unknown field.
    fn try_from_sort(field: &str, order: SortOrder) -> Result<Self, QueryStringParseError>;
}

/// A fieldset type: built from the model of a `fields[model]` key and the fields listed for it.
/// Implemented, for each resource, by the type that lists its fields.
pub trait TryFromFieldset: Sized {
    /// The fieldset entry for `fields` of `model`, or the error for an unknown model or field.
    fn try_from_fieldset(model: &str, fields: Vec<&str>) -> Result<Self, QueryStringParseError>;
}

/// The views of a sequence of string slices.
pub open spec fn str_views(v: Seq<&str>) -> Seq<Seq<char>> {
    v.map_values(|s: &str| s@)
}

/// Whether `res` is what the sort field type gives for the field `field` in direction `order`.
pub open spec fn sort_conversion<S: TryFromSort>(
    field: Seq<char>,
    order: SortOrder,
    res: Result<S, QueryStringParseError>,
) -> bool {
    exists|f: &str| f@ == field && #[trigger] call_ensures(S::try_from_sort, (f, order), res)
}

/// Whether `res` is what the fieldset type gives for `model` and the fields `fields`.
pub open spec fn fieldset_conversion<F: TryFromFieldset>(
    model: Seq<char>,
    fields: Seq<Seq<char>>,
    res: Result<F, QueryStringParseError>,
) -> bool {
    exists|m: &str, names: Vec<&str>|
        m@ == model && str_views(names@) == fields
            && #[trigger] call_ensures(F::try_from_fieldset, (m, names), res)
}

/// Whether typing `items` in order gave the sort fields `sorts` and the fieldsets `fieldsets`,
/// each item being accepted by its type: the k-th sort field is what the k-th sort item converts
/// to, and the k-th fieldset what the k-th fieldset item converts to.
pub open spec fn typed_items<F: TryFromFieldset, S: TryFromSort>(
    items: Seq<SpecQueryItem>,
    sorts: Seq<S>,
    fieldsets: Seq<F>,
) -> bool
    decreases items.len(),
{
    if items.len() == 0 {
        sorts.len() == 0 && fieldsets.len() == 0
    } else {
        match items.last() {
            SpecQueryItem::Sort { field, order } => {
                &&& sorts.len() > 0
                &&& sort_conversion(field, order, Ok::<S, QueryStringParseError>(sorts.last()))
                &&& typed_items(items.drop_last(), sorts.drop_last(), fieldsets)
            },
            SpecQueryItem::Fieldset { model, fields } => {
                &&& fieldsets.len() > 0
                &&& fieldset_conversion(model, fields, Ok::<F, QueryStringParseError>(fieldsets.last()))
                &&& typed_items(items.drop_last(), sorts, fieldsets.drop_last())
            },
        }
    }
}

/// Whether converting `item` gave the error `e`.
pub open spec fn item_refused<F: TryFromFieldset, S: TryFromSort>(item: SpecQueryItem, e: QueryStringParseError) -> bool {
    match item {
        SpecQueryItem::Sort { field, order } => sort_conversion::<S>(field, order, Err(e)),
        SpecQueryItem::Fieldset { model, fields } => fieldset_conversion::<F>(model, fields, Err(e)),
    }
}

/// Whether typing `items` in order stopped at the first item that its type refused, with the
/// error `e`: every item before it was accepted.
pub open spec fn typing_refused<F: TryFromFieldset, S: TryFromSort>(items: Seq<SpecQueryItem>, e: QueryStringParseError) -> bool {
    exists|k: int, sorts: Seq<S>, fieldsets: Seq<F>|
        0 <= k < items.len() && #[trigger] typed_items::<F, S>(items.take(k), sorts, fieldsets)
            && item_refused::<F, S>(items[k], e)
}

/// What typing a read query gives: the typed parameters when every item is accepted and nothing
/// stopped the reading; else the error of the first refused item; else the recorded error.
pub open spec fn typed_query<F: TryFromFieldset, S: TryFromSort>(
    q: SpecParsedQuery,
    r: Result<JsonApiParams<F, S>, QueryStringParseError>,
) -> bool {
    match r {
        Ok(p) => {
            &&& q.error is None
            &&& p.query_params@ == q.query_params
            &&& typed_items(q.items, p.sort.fields@, p.fieldset.fields@)
        },
        Err(e) => typing_refused::<F, S>(q.items, e) || (q.error == Some(e@)
            && exists|sorts: Seq<S>, fieldsets: Seq<F>| #[trigger] typed_items::<F, S>(q.items, sorts, fieldsets)),
    }
}

/// What typing the parameters of the query string `query` gives (see `typed_query`).
pub open spec fn reads_params<F: TryFromFieldset, S: TryFromSort>(
    query: Seq<char>,
    r: Result<JsonApiParams<F, S>, QueryStringParseError>,
) -> bool {
    typed_query(parse_pairs(form_urlencoded_pairs(query)), r)
}

impl ParsedQuery {
    /// Turns the items into typed sort fields and fieldsets, in order. The first item that its
    /// type does not accept gives the error; when all are accepted, the recorded error, if any,
    /// is returned; else the typed parameters.
    pub fn into_params<F: TryFromFieldset, S: TryFromSort>(self) -> (r: Result<JsonApiParams<F, S>, QueryStringParseError>)
        ensures
            typed_query(self@, r),
            r is Ok ==> self@.error is None,
            r matches Ok(p) ==> {
                &&& p.query_params@ == self@.query_params
                &&& p.sort.fields@.len() == count_sort_items(self@.items)
                &&& p.fieldset.fields@.len() == count_fieldset_items(self@.items)
            },
            self@.items.len() == 0 ==> match self@.error {
                Some(e) => r matches Err(e2) && e2@ == e,
                None => r is Ok,
            },
    {
        let ghost sv = self@;
        let ParsedQuery { items, query_params, error } = self;
        let ghost iv = item_views(items@);
        assert(iv == sv.items);
        let mut sort: Vec<S> = Vec::new();
        let mut fieldset: Vec<F> = Vec::new();
        let mut i: usize = 0;
        proof {
            assert(iv.take(0) =~= Seq::<SpecQueryItem>::empty());
        }
        while i < items.len()
            invariant
                i <= items.len(),
                iv == item_views(items@),
                iv == sv.items,
                sv == self@,
                iv.len() == items@.len(),
                sort@.len() == count_sort_items(iv.take(i as int)),
                fieldset@.len() == count_fieldset_items(iv.take(i as int)),
                typed_items(iv.take(i as int), sort@, fieldset@),
            decreases items.len() - i,
        {
            proof {
                assert(iv.take(i + 1).drop_last() =~= iv.take(i as int));
                assert(iv.take(i + 1).last() == items@[i as int]@);
                assert(iv[i as int] == items@[i as int]@);
            }
            match &items[i] {
                QueryItem::Sort { field, order } => {
                    let f = field.as_str();
                    let res = S::try_from_sort(f, *order);
                    proof {
                        assert(call_ensures(S::try_from_sort, (f, *order), res));
                        assert(sort_conversion(field@, *order, res));
                    }
                    match res {
                        Ok(s) => {
                            let ghost before = sort@;
                            sort.push(s);
                            proof {
                                assert(sort@.drop_last() =~= before);
                                assert(sort@.last() == s);
                            }
                        },
                        Err(e) => {
                            proof {
                                assert(typed_items::<F, S>(iv.take(i as int), sort@, fieldset@));
                                assert(item_refused::<F, S>(iv[i as int], e));
                                assert(typing_refused::<F, S>(sv.items, e));
                            }
                            return Err(e);
                        },
                    }
                },
                QueryItem::Fieldset { model, fields } => {
                    let mut names: Vec<&str> = Vec::new();
                    let mut j: usize = 0;
                    while j < fields.len()
                        invariant
                            j <= fields.len(),
                            str_views(names@) == string_views(fields@).take(j as int),
                        decreases fields.len() - j,
                    {
                        let ghost before = names@;
                        names.push(fields[j].as_str());
                        proof {
                            assert(str_views(names@) =~= str_views(before).push(fields@[j as int]@));
                            assert(string_views(fields@).take(j + 1) =~= string_views(fields@).take(j as int).push(fields@[j as int]@));
                        }
                        j = j + 1;
                    }
                    proof {
                        assert(string_views(fields@).take(fields.len() as int) =~= string_views(fields@));
                    }
                    let ghost gn = names;
                    let m = model.as_str();
                    let res = F::try_from_fieldset(m, names);
                    proof {
                        assert(call_ensures(F::try_from_fieldset, (m, gn), res));
                        assert(fieldset_conversion(model@, string_views(fields@), res));
                    }
                    match res {
                        Ok(f) => {
                            let ghost before = fieldset@;
                            fieldset.push(f);
                            proof {
                                assert(fieldset@.drop_last() =~= before);
                                assert(fieldset@.last() == f);
                            }
                        },
                        Err(e) => {
                            proof {
                                assert(typed_items::<F, S>(iv.take(i as int), sort@, fieldset@));
                                assert(item_refused::<F, S>(iv[i as int], e));
                                assert(typing_refused::<F, S>(sv.items, e));
                            }
                            return Err(e);
                        },
                    }
                },
            }
            i = i + 1;
        }
        proof {
            assert(iv.take(items.len() as int) =~= iv);
            assert(typed_items::<F, S>(sv.items, sort@, fieldset@));
        }
        match error {
            Some(e) => Err(e),
            None => Ok(JsonApiParams::new(fieldset, sort, query_params)),
        }
    }
}

/// Converts a query string to typed parameters: decodes it, reads its pairs (see
/// `parse_query_pairs`) and types the items (see `ParsedQuery::into_params`).
pub fn params_from_query<F: TryFromFieldset, S: TryFromSort>(query_string: &str) -> (r: Result<JsonApiParams<F, S>, QueryStringParseError>)
    ensures
        reads_params(query_string@, r),
        r matches Ok(p) ==> forall|key: Seq<char>| is_plain_key(key)
            ==> #[trigger] values_of(p.query_params@, key) == values_for(form_urlencoded_pairs(query_string@), key),
        r is Ok ==> parse_pairs(form_urlencoded_pairs(query_string@)).error is None,
        r matches Ok(p) ==> {
            let q = parse_pairs(form_urlencoded_pairs(query_string@));
            &&& p.query_params@ == q.query_params
            &&& p.sort.fields@.len() == count_sort_items(q.items)
            &&& p.fieldset.fields@.len() == count_fieldset_items(q.items)
        },
        query_string@.len() == 0 ==> (r matches Ok(p) && p.query_params@.len() == 0
            && p.sort.fields@.len() == 0 && p.fieldset.fields@.len() == 0),
        parse_pairs(form_urlencoded_pairs(query_string@)).items.len() == 0 ==> match parse_pairs(
            form_urlencoded_pairs(query_string@),
        ).error {
            Some(e) => r matches Err(e2) && e2@ == e,
            None => r is Ok,
        },
{
    let q = parse_query(query_string);
    let r = q.into_params();
    proof {
        if r is Ok {
            let pairs = form_urlencoded_pairs(query_string@);
            assert forall|key: Seq<char>| is_plain_key(key) implies #[trigger] values_of(
                r->Ok_0.query_params@,
                key,
            ) == values_for(pairs, key) by {
                lemma_plain_values_kept(pairs, key);
            }
        }
    }
    r
}

} // verus!
