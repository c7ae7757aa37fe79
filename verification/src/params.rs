//! Type-safe containers for the query parameters of a JSONAPI request.
use vstd::prelude::*;
use crate::text::{str_equal, string_views};

verus! {

/// The mathematical value of a `QueryParams`: each key with its values, keys in the order in
/// which they were first seen.
pub type SpecEntries = Seq<(Seq<char>, Seq<Seq<char>>)>;

/// Whether no key occurs twice.
pub open spec fn unique_keys(e: SpecEntries) -> bool {
    forall|i: int, j: int| 0 <= i < e.len() && 0 <= j < e.len() && i != j ==> e[i].0 != e[j].0
}

/// Whether `key` occurs in `e`.
pub open spec fn has_key(e: SpecEntries, key: Seq<char>) -> bool {
    exists|j: int| 0 <= j < e.len() && e[j].0 == key
}

/// The position of `key` in `e`, where it occurs.
pub open spec fn key_position(e: SpecEntries, key: Seq<char>) -> int {
    choose|j: int| 0 <= j < e.len() && e[j].0 == key
}

/// The values of `key` in `e`: empty when the key does not occur.
pub open spec fn values_of(e: SpecEntries, key: Seq<char>) -> Seq<Seq<char>> {
    if has_key(e, key) {
        e[key_position(e, key)].1
    } else {
        Seq::<Seq<char>>::empty()
    }
}

/// `e` with `value` added after the values of `key`, or with `key` added last, holding `value`
/// alone, when it did not occur.
pub open spec fn entries_push_value(e: SpecEntries, key: Seq<char>, value: Seq<char>) -> SpecEntries {
    if has_key(e, key) {
        let j = key_position(e, key);
        e.update(j, (key, e[j].1.push(value)))
    } else {
        e.push((key, seq![value]))
    }
}

/// `e` with the values of `key` replaced by `values`, or with `key` added last when it did not
/// occur.
pub open spec fn entries_insert(e: SpecEntries, key: Seq<char>, values: Seq<Seq<char>>) -> SpecEntries {
    if has_key(e, key) {
        e.update(key_position(e, key), (key, values))
    } else {
        e.push((key, values))
    }
}

/// The position of a key that occurs in entries without repeated keys is the one where it
/// stands.
proof fn lemma_key_position(e: SpecEntries, key: Seq<char>, j: int)
    requires
        unique_keys(e),
        0 <= j < e.len(),
        e[j].0 == key,
    ensures
        has_key(e, key),
        key_position(e, key) == j,
{
    assert(has_key(e, key));
}

/// Adding a value to a key: reading that key gives its earlier values followed by the new one,
/// every other key keeps its values, and no key occurs twice.
pub proof fn lemma_push_value_reads(e: SpecEntries, key: Seq<char>, value: Seq<char>, other: Seq<char>)
    requires
        unique_keys(e),
    ensures
        unique_keys(entries_push_value(e, key, value)),
        values_of(entries_push_value(e, key, value), key) == values_of(e, key).push(value),
        other != key ==> values_of(entries_push_value(e, key, value), other) == values_of(e, other),
{
    let n = entries_push_value(e, key, value);
    if has_key(e, key) {
        let j = key_position(e, key);
        assert(n.len() == e.len());
        assert forall|a: int| 0 <= a < n.len() implies n[a].0 == e[a].0 by {}
        lemma_key_position(n, key, j);
        if other != key && has_key(e, other) {
            let k = key_position(e, other);
            lemma_key_position(n, other, k);
        }
        if other != key && has_key(n, other) {
            let k = key_position(n, other);
            lemma_key_position(e, other, k);
        }
    } else {
        let j = e.len() as int;
        assert(n[j].0 == key);
        lemma_key_position(n, key, j);
        assert(values_of(e, key) =~= Seq::<Seq<char>>::empty());
        assert(n[j].1 =~= values_of(e, key).push(value));
        if other != key && has_key(e, other) {
            let k = key_position(e, other);
            lemma_key_position(n, other, k);
        }
        if other != key && has_key(n, other) {
            let k = key_position(n, other);
            assert(k < e.len());
            lemma_key_position(e, other, k);
        }
    }
}

/// Setting the values of a key: reading that key gives them, every other key keeps its values,
/// and no key occurs twice.
pub proof fn lemma_insert_reads(e: SpecEntries, key: Seq<char>, values: Seq<Seq<char>>, other: Seq<char>)
    requires
        unique_keys(e),
    ensures
        unique_keys(entries_insert(e, key, values)),
        values_of(entries_insert(e, key, values), key) == values,
        other != key ==> values_of(entries_insert(e, key, values), other) == values_of(e, other),
{
    let n = entries_insert(e, key, values);
    if has_key(e, key) {
        let j = key_position(e, key);
        assert forall|a: int| 0 <= a < n.len() implies n[a].0 == e[a].0 by {}
        lemma_key_position(n, key, j);
        if other != key && has_key(e, other) {
            let k = key_position(e, other);
            lemma_key_position(n, other, k);
        }
        if other != key && has_key(n, other) {
            let k = key_position(n, other);
            lemma_key_position(e, other, k);
        }
    } else {
        let j = e.len() as int;
        assert(n[j].0 == key);
        lemma_key_position(n, key, j);
        if other != key && has_key(e, other) {
            let k = key_position(e, other);
            lemma_key_position(n, other, k);
        }
        if other != key && has_key(n, other) {
            let k = key_position(n, other);
            assert(k < e.len());
            lemma_key_position(e, other, k);
        }
    }
}

/// All query parameters that are neither `sort` nor `fields[*]`: each key with the values it was
/// given, in order.
#[derive(Debug, PartialEq, Eq)]
pub struct QueryParams {
    entries: Vec<(String, Vec<String>)>,
}

impl View for QueryParams {
    type V = SpecEntries;

    closed spec fn view(&self) -> SpecEntries {
        self.entries@.map_values(|e: (String, Vec<String>)| (e.0@, string_views(e.1@)))
    }
}

impl QueryParams {
    #[verifier::type_invariant]
    closed spec fn keys_unique(self) -> bool {
        unique_keys(self@)
    }

    /// No parameters.
    pub fn new() -> (q: QueryParams)
        ensures
            q@ == Seq::<(Seq<char>, Seq<Seq<char>>)>::empty(),
    {
        let q = QueryParams { entries: Vec::new() };
        assert(q@ =~= Seq::<(Seq<char>, Seq<Seq<char>>)>::empty());
        q
    }

    /// The number of distinct keys.
    pub fn len(&self) -> (n: usize)
        ensures
            n == self@.len(),
    {
        self.entries.len()
    }

    /// Whether there are no parameters.
    pub fn is_empty(&self) -> (b: bool)
        ensures
            b == (self@.len() == 0),
    {
        self.entries.len() == 0
    }

    /// No key occurs twice.
    pub fn keys_are_unique(&self)
        ensures
            unique_keys(self@),
    {
        proof {
            use_type_invariant(self);
        }
    }

    fn find(&self, key: &str) -> (r: Option<usize>)
        ensures
            r matches Some(i) ==> i < self@.len() && self@[i as int].0 == key@
                && key_position(self@, key@) == i && has_key(self@, key@),
            r is None ==> !has_key(self@, key@),
    {
        proof {
            use_type_invariant(self);
        }
        let mut i: usize = 0;
        while i < self.entries.len()
            invariant
                i <= self.entries@.len(),
                self@.len() == self.entries@.len(),
                unique_keys(self@),
                forall|j: int| 0 <= j < i ==> self@[j].0 != key@,
            decreases self.entries.len() - i,
        {
            assert(self@[i as int].0 == self.entries@[i as int].0@);
            if str_equal(self.entries[i].0.as_str(), key) {
                proof {
                    assert(has_key(self@, key@));
                }
                return Some(i);
            }
            i = i + 1;
        }
        None
    }

    /// The values of `key`, if it was given.
    pub fn get(&self, key: &str) -> (r: Option<&Vec<String>>)
        ensures
            r is Some == has_key(self@, key@),
            r matches Some(v) ==> string_views(v@) == values_of(self@, key@),
    {
        match self.find(key) {
            Some(i) => {
                assert(self@[i as int].1 == string_views(self.entries@[i as int].1@));
                Some(&self.entries[i].1)
            },
            None => None,
        }
    }

    /// Adds `value` after the values already given for `key`.
    pub fn push_value(&mut self, key: String, value: String)
        ensures
            final(self)@ == entries_push_value(old(self)@, key@, value@),
    {
        proof {
            use_type_invariant(&*self);
        }
        let found = self.find(key.as_str());
        let mut entries: Vec<(String, Vec<String>)> = Vec::new();
        std::mem::swap(&mut entries, &mut self.entries);
        let ghost old_view = entries@.map_values(|e: (String, Vec<String>)| (e.0@, string_views(e.1@)));
        assert(old_view == old(self)@);
        match found {
            Some(i) => {
                let (k, mut values) = entries.remove(i);
                values.push(value);
                entries.insert(i, (k, values));
                let ghost new_view = entries@.map_values(|e: (String, Vec<String>)| (e.0@, string_views(e.1@)));
                assert(string_views(values@) =~= old_view[i as int].1.push(value@));
                assert(new_view =~= old_view.update(i as int, (key@, old_view[i as int].1.push(value@))));
            },
            None => {
                let mut values: Vec<String> = Vec::new();
                values.push(value);
                entries.push((key, values));
                let ghost new_view = entries@.map_values(|e: (String, Vec<String>)| (e.0@, string_views(e.1@)));
                assert(string_views(values@) =~= seq![value@]);
                assert(new_view =~= old_view.push((key@, seq![value@])));
            },
        }
        self.entries = entries;
    }

    /// Sets the values of `key`, replacing those it had.
    pub fn insert(&mut self, key: String, values: Vec<String>)
        ensures
            final(self)@ == entries_insert(old(self)@, key@, string_views(values@)),
    {
        proof {
            use_type_invariant(&*self);
        }
        let found = self.find(key.as_str());
        let mut entries: Vec<(String, Vec<String>)> = Vec::new();
        std::mem::swap(&mut entries, &mut self.entries);
        let ghost old_view = entries@.map_values(|e: (String, Vec<String>)| (e.0@, string_views(e.1@)));
        assert(old_view == old(self)@);
        let ghost vv = string_views(values@);
        match found {
            Some(i) => {
                let _ = entries.remove(i);
                entries.insert(i, (key, values));
                let ghost new_view = entries@.map_values(|e: (String, Vec<String>)| (e.0@, string_views(e.1@)));
                assert(new_view =~= old_view.update(i as int, (key@, vv)));
            },
            None => {
                entries.push((key, values));
                let ghost new_view = entries@.map_values(|e: (String, Vec<String>)| (e.0@, string_views(e.1@)));
                assert(new_view =~= old_view.push((key@, vv)));
            },
        }
        self.entries = entries;
    }
}


/// A type-safe container for the "sort" query parameter in JSONAPI.
///
/// The type parameter `<S>` is an enum type with a variant per sortable field of a resource.
#[derive(Debug, PartialEq, Eq)]
pub struct Sort<S> {
    pub fields: Vec<S>,
}

/// A type-safe container for the "fields" query parameter in JSONAPI.
///
/// The type parameter `<F>` is an enum type with a variant per field of a resource.
#[derive(Debug, PartialEq, Eq)]
pub struct FieldSet<F> {
    pub fields: Vec<F>,
}

/// A type-safe container for all incoming query parameters in a request.
#[derive(Debug, PartialEq, Eq)]
pub struct JsonApiParams<F, S> {
    /// A type-safe container for the "sort" query parameter in JSONAPI.
    pub sort: Sort<S>,
    /// A type-safe container for the "fields" query parameter in JSONAPI.
    pub fieldset: FieldSet<F>,
    /// All query parameters that are neither "sort" nor "fields[*]".
    pub query_params: QueryParams,
}

impl<F, S> JsonApiParams<F, S> {
    /// Parameters holding the given fieldset, sort fields and other query parameters.
    pub fn new(fieldset: Vec<F>, sort_params: Vec<S>, query_params: QueryParams) -> (p: JsonApiParams<F, S>)
        ensures
            p.fieldset.fields@ == fieldset@,
            p.sort.fields@ == sort_params@,
            p.query_params@ == query_params@,
    {
        JsonApiParams {
            sort: Sort { fields: sort_params },
            fieldset: FieldSet { fields: fieldset },
            query_params: query_params,
        }
    }
}

impl<F, S> Default for JsonApiParams<F, S> {
    /// No sort fields, no fieldset and no other query parameters.
    fn default() -> (p: Self)
        ensures
            p.fieldset.fields@.len() == 0,
            p.sort.fields@.len() == 0,
            p.query_params@.len() == 0,
    {
        JsonApiParams::new(Vec::new(), Vec::new(), QueryParams::new())
    }
}

} // verus!
