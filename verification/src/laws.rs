//! What holds of validation as a whole.

use vstd::prelude::*;
use crate::query::components::aggregation::{AggregationView, PostAggregationView};
use crate::query::components::extraction::ExtractionFunctionView;
use crate::query::components::filter::{FilterType, FilterView};
use crate::query::components::having::HavingView;
use crate::query::components::limit::LimitSpecView;
use crate::query::components::toinclude::ToIncludeView;
use crate::query::model::NativeQueryView;

verus! {

/// Validity goes through a conjunction: a filter that is built as one is
/// valid exactly when it carries the discriminator of a conjunction and every
/// filter in it is valid. One invalid filter makes the whole invalid, and a
/// conjunction of no filters is valid.
pub proof fn lemma_conjunction_valid(type_: FilterType, fields: Seq<FilterView>)
    ensures
        (FilterView::And { type_, fields }).valid() <==> (type_ == FilterType::And && forall|
            i: int,
        | 0 <= i < fields.len() ==> (#[trigger] fields[i]).valid()),
        fields.len() == 0 ==> (FilterView::And { type_: FilterType::And, fields }).valid(),
{
    reveal_with_fuel(FilterView::valid, 2);
    reveal_with_fuel(FilterView::subcomponents_valid, 2);
    reveal_with_fuel(FilterView::all_valid, 2);
}

/// Validity goes through a disjunction as it goes through a conjunction.
pub proof fn lemma_disjunction_valid(type_: FilterType, fields: Seq<FilterView>)
    ensures
        (FilterView::Or { type_, fields }).valid() <==> (type_ == FilterType::Or && forall|
            i: int,
        | 0 <= i < fields.len() ==> (#[trigger] fields[i]).valid()),
{
    reveal_with_fuel(FilterView::valid, 2);
    reveal_with_fuel(FilterView::subcomponents_valid, 2);
    reveal_with_fuel(FilterView::all_valid, 2);
}

/// Validity goes through a negation: the negation of a filter is valid
/// exactly when it carries the discriminator of a negation and the filter
/// is valid.
pub proof fn lemma_negation_valid(type_: FilterType, field: FilterView)
    ensures
        (FilterView::Not { type_, field: Box::new(field) }).valid() <==> (type_ == FilterType::Not
            && field.valid()),
{
    reveal_with_fuel(FilterView::valid, 2);
    reveal_with_fuel(FilterView::subcomponents_valid, 2);
}

/// A component that is absent is valid: nothing is asked of what is not
/// there.
pub proof fn lemma_absent_is_valid()
    ensures
        FilterView::opt_valid(None),
        AggregationView::opt_valid(None),
        PostAggregationView::opt_all_valid(None),
        LimitSpecView::opt_valid(None),
        HavingView::opt_valid(None),
        ToIncludeView::opt_all_valid(None),
        ExtractionFunctionView::opt_valid(None),
{
}

/// A query is valid exactly when its discriminator fits its shape and every
/// component it owns is valid; and since a query travels under the
/// discriminator of its shape, that is when every component it owns is valid.
pub proof fn lemma_query_valid(query: NativeQueryView)
    ensures
        query.valid() <==> query.type_consistent() && query.subcomponents_valid(),
        query.valid() <==> query.subcomponents_valid(),
{
}

} // verus!
