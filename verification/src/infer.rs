//! The type of the result column, found without looking at any row.
//!
//! The expression is run once on a probe: a frame of one column that has the
//! element type of the list and no values. The type of what comes back is the
//! element type of the result. Where the run fails the result type is `Null`:
//! a failure here is not a failure of the call.

use vstd::prelude::*;
use crate::column::Frame;
use crate::column::Series;
use crate::column::SeriesView;
use crate::dtype::DataType;
use crate::dtype::Field;
use crate::dtype::FieldView;
use crate::expr::Expr;

verus! {

/// The type of the probe column for an input of type `dtype`: the element type
/// where `dtype` is a list, and `dtype` itself where it is not.
pub open spec fn probe_type(dtype: DataType) -> DataType {
    match dtype.inner() {
        Some(t) => t,
        None => dtype,
    }
}

/// `frame` is a probe of type `dtype`: one column, without a name and without
/// values.
pub open spec fn is_probe<T>(frame: Frame<T>, dtype: DataType) -> bool {
    &&& frame.columns@.len() == 1
    &&& frame.columns@[0]@ == (SeriesView::<T> {
        name: Seq::empty(),
        dtype,
        values: Seq::empty(),
    })
}

/// The result type that follows from the outcome of the trial run.
pub open spec fn inferred_type<U, E>(trial: Result<Series<U>, E>) -> DataType {
    match trial {
        Ok(out) => DataType::List(Box::new(out.dtype)),
        Err(_) => DataType::Null,
    }
}

/// `out` is a result type that the trial run `collect` can give for an input
/// of type `input`.
pub open spec fn infers<T, U, E, Q: FnOnce(&Frame<T>, &Expr) -> Result<Series<U>, E>>(
    collect: Q,
    expr: &Expr,
    input: DataType,
    out: DataType,
) -> bool {
    exists|frame: Frame<T>, trial: Result<Series<U>, E>|
        {
            &&& #[trigger] is_probe(frame, probe_type(input))
            &&& #[trigger] collect.ensures((&frame, expr), trial)
            &&& out == inferred_type(trial)
        }
}

/// `collect` may be called on every probe for an input of type `input`.
pub open spec fn accepts_probe<T, U, E, Q: FnOnce(&Frame<T>, &Expr) -> Result<Series<U>, E>>(
    collect: Q,
    expr: &Expr,
    input: DataType,
) -> bool {
    forall|frame: Frame<T>| #[trigger]
        is_probe(frame, probe_type(input)) ==> collect.requires((&frame, expr))
}

/// The type of the probe column for the field `f`.
pub fn probe_dtype(f: &Field) -> (t: DataType)
    ensures
        t == probe_type(f@.dtype),
{
    match f.dtype.inner_dtype() {
        Some(inner) => inner.clone(),
        None => f.dtype.clone(),
    }
}

/// The field of the result column, given the outcome of the trial run: the
/// name of `f`, with a list of the trial's type, or with `Null` where the
/// trial failed.
pub fn output_field<U, E>(f: &Field, trial: &Result<Series<U>, E>) -> (out: Field)
    ensures
        out@ == (FieldView { name: f@.name, dtype: inferred_type(*trial) }),
{
    match trial {
        Ok(column) => Field::new(f.name(), DataType::List(Box::new(column.dtype.clone()))),
        Err(_) => Field::new(f.name(), DataType::Null),
    }
}

/// The field of the column that evaluating `expr` on the elements of a column
/// of field `f` gives. `collect` is the trial run: it takes a frame and the
/// expression and returns the column that the expression selects from it.
pub fn field_to_dtype<T, U, E, Q: FnOnce(&Frame<T>, &Expr) -> Result<Series<U>, E>>(
    f: &Field,
    expr: &Expr,
    collect: Q,
) -> (out: Field)
    requires
        accepts_probe(collect, expr, f@.dtype),
    ensures
        out@.name == f@.name,
        infers(collect, expr, f@.dtype, out@.dtype),
{
    let dtype = probe_dtype(f);
    proof {
        reveal_strlit("");
    }
    let probe: Series<T> = Series::new_empty("", dtype);
    assert(probe@.name =~= Seq::<char>::empty());
    let frame = Frame::of_row(&probe);
    assert(is_probe(frame, probe_type(f@.dtype)));
    let trial = collect(&frame, expr);
    output_field(f, &trial)
}

} // verus!
