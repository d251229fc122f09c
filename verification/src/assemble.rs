//! Building the result column from the rows of a dispatch.

use vstd::prelude::*;
use crate::column::ListColumn;
use crate::column::Series;
use crate::column::rows_have_type;
use crate::dispatch::Dispatched;
use crate::dtype::DataType;
use crate::error::ListEvalError;

verus! {

/// The declared type of the first row that is present; `Null` where none is.
pub open spec fn first_dtype<U>(rows: Seq<Option<Series<U>>>) -> DataType
    decreases rows.len(),
{
    if rows.len() == 0 {
        DataType::Null
    } else {
        match rows[0] {
            Some(s) => s.dtype,
            None => first_dtype(rows.drop_first()),
        }
    }
}

/// `r` is what assembling `d` under the name `name` gives. A failure that was
/// kept is reported and the rows are dropped. Otherwise the rows become a list
/// column of that name whose element type is that of its first present row,
/// unless a row has another type.
pub open spec fn assembles_to<U, E>(
    name: Seq<char>,
    d: Dispatched<U, E>,
    r: Result<ListColumn<U>, ListEvalError<E>>,
) -> bool {
    match d.error {
        Some(e) => r == Err::<ListColumn<U>, ListEvalError<E>>(ListEvalError::Row(e)),
        None => {
            let inner = first_dtype(d.rows@);
            if rows_have_type(d.rows@, inner) {
                &&& r is Ok
                &&& r->Ok_0.name@ == name
                &&& r->Ok_0.dtype == DataType::List(Box::new(inner))
                &&& r->Ok_0.rows == d.rows
            } else {
                r == Err::<ListColumn<U>, ListEvalError<E>>(ListEvalError::SchemaMismatch)
            }
        },
    }
}

/// The type that a list column of these rows is declared with.
pub fn first_present_dtype<U>(rows: &Vec<Option<Series<U>>>) -> (t: DataType)
    ensures
        t == first_dtype(rows@),
{
    let n = rows.len();
    let mut i: usize = 0;
    assert(rows@.skip(0) =~= rows@);
    while i < n
        invariant
            n == rows@.len(),
            i <= n,
            first_dtype(rows@) == first_dtype(rows@.skip(i as int)),
        decreases n - i,
    {
        assert(rows@.skip(i as int).drop_first() =~= rows@.skip(i + 1));
        match &rows[i] {
            Some(s) => {
                return s.dtype.clone();
            },
            None => {},
        }
        i = i + 1;
    }
    DataType::Null
}

/// Builds the result column from the rows of a dispatch, or reports the
/// failure that the dispatch kept.
pub fn assemble<U, E>(name: &str, d: Dispatched<U, E>) -> (r: Result<
    ListColumn<U>,
    ListEvalError<E>,
>)
    ensures
        assembles_to(name@, d, r),
        r is Ok ==> r->Ok_0.wf(),
{
    let Dispatched { rows, error } = d;
    match error {
        Some(e) => Err(ListEvalError::Row(e)),
        None => {
            let inner = first_present_dtype(&rows);
            match ListColumn::new(name, inner, rows) {
                Ok(column) => Ok(column),
                Err(_) => Err(ListEvalError::SchemaMismatch),
            }
        },
    }
}

} // verus!
