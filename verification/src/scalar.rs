//! Numeric facet data: inclusive or exclusive bounds, an optional range,
//! and the unit handed to the numeric emitter.

use vstd::prelude::*;

verus! {

use crate::model::{Symbol, SymbolV};
use crate::primitives::Numeric;
use crate::views::opt_view;

/// A bound on a numeric range, inclusive or exclusive of its value.
#[derive(Debug, Clone, Copy, PartialEq, Eq)]
pub enum Bound<T> {
    Inclusive(T),
    Exclusive(T),
}

/// A numeric range: independently optional minimum and maximum bounds. No
/// ordering between the two is enforced here; callers deriving defaults or
/// documentation must not assume `min <= max`.
#[derive(Debug, Clone, Copy, PartialEq, Eq)]
pub struct Range<T> {
    pub min: Option<Bound<T>>,
    pub max: Option<Bound<T>>,
}

/// One unit of numeric emission: the type's name, its builtin base type,
/// its documentation, and its range facets.
#[derive(Debug, Clone)]
pub struct NumericData<T> {
    pub name: Symbol,
    pub base_type: Numeric,
    pub documentation: String,
    pub range: Range<T>,
}

/// The mathematical shape of a [`NumericData`].
pub struct NumericDataV<V> {
    pub name: SymbolV,
    pub base_type: Numeric,
    pub documentation: Seq<char>,
    pub range: Range<V>,
}

/// The view of a bound.
pub open spec fn bound_view<T: View>(b: Bound<T>) -> Bound<T::V> {
    match b {
        Bound::Inclusive(t) => Bound::Inclusive(t@),
        Bound::Exclusive(t) => Bound::Exclusive(t@),
    }
}

impl<T: View> View for Bound<T> {
    type V = Bound<T::V>;

    open spec fn view(&self) -> Bound<T::V> {
        bound_view(*self)
    }
}

impl<T: View> View for Range<T> {
    type V = Range<T::V>;

    open spec fn view(&self) -> Range<T::V> {
        Range { min: opt_view(self.min), max: opt_view(self.max) }
    }
}

impl<T: View> View for NumericData<T> {
    type V = NumericDataV<T::V>;

    open spec fn view(&self) -> NumericDataV<T::V> {
        NumericDataV {
            name: self.name@,
            base_type: self.base_type,
            documentation: self.documentation@,
            range: self.range@,
        }
    }
}

} // verus!
