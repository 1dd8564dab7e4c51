//! Single result queries: what a query by identifier answers once its rows are read.

use crate::common::queries::aggregate::{children_outputs, Aggregate, AggregateRoot};
use crate::common::queries::converters::{ConversionErrors, ToOutputConverter};
use vstd::prelude::*;
use vstd::std_specs::cmp::PartialEqSpec;

verus! {

/// A query criteria by the given identifier
#[derive(Debug, PartialEq, Eq)]
pub struct ByIdCriteria<'db, Id> {
    /// the identifier to query for
    pub id: &'db Id,
}

impl<'db, Id> ByIdCriteria<'db, Id> {
    /// The criteria for the identifier `id`.
    pub fn new(id: &'db Id) -> (c: Self)
        ensures
            c.id == id,
    {
        ByIdCriteria { id }
    }
}

/// The errors of a query.
#[derive(Debug)]
pub enum QueryError {
    /// No results were found
    EmptyResultSet,
    /// an unexpected error
    UnexpectedError(anyhow::Error),
    /// Error during the row conversion
    ConversionError(ConversionErrors),
}

/// What a single result query answers for the row it read: no row is an empty result set,
/// a row is its output, or the error of its conversion.
pub fn single_result<R: ToOutputConverter<O>, O>(row: Option<R>) -> (r: Result<O, QueryError>)
    ensures
        match row {
            None => r matches Err(QueryError::EmptyResultSet),
            Some(row) => match row.output() {
                Ok(o) => r matches Ok(v) && v == o,
                Err(e) => r matches Err(QueryError::ConversionError(v)) && v == e,
            },
        },
{
    match row {
        None => Err(QueryError::EmptyResultSet),
        Some(row) => match row.to_output() {
            Ok(o) => Ok(o),
            Err(e) => Err(QueryError::ConversionError(e)),
        },
    }
}

/// What a query of a value found by identifier answers: the value, or an empty result set.
pub fn found_or_empty<T>(found: Option<T>) -> (r: Result<T, QueryError>)
    ensures
        match found {
            None => r matches Err(QueryError::EmptyResultSet),
            Some(v) => r matches Ok(w) && w == v,
        },
{
    match found {
        Some(v) => Ok(v),
        None => Err(QueryError::EmptyResultSet),
    }
}

/// What a single result query with children answers for the root row and the children rows
/// it read: no root row is an empty result set; else the aggregate of the root and its
/// children, or the error of a conversion.
pub fn single_result_with_children<A: Aggregate>(
    root: Option<A::RootRowType>,
    children: Vec<A::ChildRowType>,
) -> (r: Result<A::RootOutput, QueryError>)
    ensures
        root is None ==> r matches Err(QueryError::EmptyResultSet),
        root matches Some(row) ==> match row.output() {
            Err(e) => r matches Err(QueryError::ConversionError(v)) && v == e,
            Ok(out) => A::Id::obeys_eq_spec() ==> match children_outputs(children@, out.root_id_of()) {
                Err(e) => r matches Err(QueryError::ConversionError(v)) && v == e,
                Ok(outputs) => r matches Ok(v) && v == (if children@.len() > 0 {
                    out.with_children(outputs)
                } else {
                    out
                }),
            },
        },
{
    match A::init(root, children) {
        Ok(Some(v)) => Ok(v),
        Ok(None) => Err(QueryError::EmptyResultSet),
        Err(e) => Err(QueryError::ConversionError(e)),
    }
}

} // verus!
