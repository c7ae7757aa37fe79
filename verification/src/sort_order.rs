//! The direction of a `sort` query parameter.
use vstd::prelude::*;

verus! {

/// The direction of a sort field: ascending, or descending when the field is written with a
/// leading `-`.
#[derive(Debug, Clone, Copy, PartialEq, Eq)]
pub enum SortOrder {
    Asc,
    Desc,
}

} // verus!
