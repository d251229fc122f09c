//! The whole call: validate the expression, then evaluate it on every row of
//! the list column and assemble the result column.

use vstd::prelude::*;
use crate::assemble::assemble;
use crate::assemble::assembles_to;
use crate::assemble::first_dtype;
use crate::column::Frame;
use crate::column::ListColumn;
use crate::column::ListColumnView;
use crate::column::Series;
use crate::dispatch::accepts_rows;
use crate::dispatch::dispatch;
use crate::dispatch::dispatched;
use crate::dispatch::lemma_dispatched_by_row;
use crate::dispatch::row_dispatched;
use crate::dispatch::run_on;
use crate::dispatch::Dispatched;
use crate::dtype::DataType;
use crate::dtype::Field;
use crate::error::ListEvalError;
use crate::expr::Expr;
use crate::expr::Transform;
use crate::infer::accepts_probe;
use crate::infer::field_to_dtype;
use crate::infer::infers;
use crate::validate::has_categorical_cast;
use crate::validate::has_named_column;
use crate::validate::lemma_verdict;
use crate::validate::validate;
use crate::validate::verdict;

verus! {

/// The column has no rows: `r` is a column without rows that has the name
/// `name` and a type that the trial run can give.
pub open spec fn evaluated_empty<T, U, E, Q: FnOnce(&Frame<T>, &Expr) -> Result<Series<U>, E>>(
    name: Seq<char>,
    input: DataType,
    expr: &Expr,
    collect: Q,
    r: Result<ListColumn<U>, ListEvalError<E>>,
) -> bool {
    &&& r is Ok
    &&& r->Ok_0@ == (ListColumnView::<U> { name, dtype: r->Ok_0.dtype, rows: Seq::empty() })
    &&& r->Ok_0.rows@.len() == 0
    &&& infers(collect, expr, input, r->Ok_0.dtype)
}

/// The column has rows: `r` is the failure of the compiler, or it is
/// assembled from a dispatch of the compiled evaluator over the rows.
pub open spec fn evaluated_rows<T, U, S, E, C, F>(
    name: Seq<char>,
    inner: DataType,
    rows: Seq<Option<Series<T>>>,
    expr: &Expr,
    compile: C,
    env: &S,
    r: Result<ListColumn<U>, ListEvalError<E>>,
) -> bool where
    C: FnOnce(&Expr, &DataType) -> Result<F, E>,
    F: Fn(&Frame<T>, &S) -> Result<Series<U>, E>,
{
    exists|compiled: Result<F, E>| #[trigger]
        compile.ensures((expr, &inner), compiled) && match compiled {
            Err(e) => r == Err::<ListColumn<U>, ListEvalError<E>>(ListEvalError::Compilation(e)),
            Ok(f) => exists|d: Dispatched<U, E>| #[trigger]
                dispatched(&f, env, rows, d) && assembles_to(name, d, r),
        }
}

/// `r` is a possible result of evaluating `expr` on the elements of `column`.
pub open spec fn evaluated<T, U, S, E, Q, C, F>(
    column: &ListColumn<T>,
    expr: &Expr,
    collect: Q,
    compile: C,
    env: &S,
    r: Result<ListColumn<U>, ListEvalError<E>>,
) -> bool where
    Q: FnOnce(&Frame<T>, &Expr) -> Result<Series<U>, E>,
    C: FnOnce(&Expr, &DataType) -> Result<F, E>,
    F: Fn(&Frame<T>, &S) -> Result<Series<U>, E>,
{
    match verdict(*expr) {
        Err(v) => r == Err::<ListColumn<U>, ListEvalError<E>>(ListEvalError::Validation(v)),
        Ok(_) => match column.dtype.inner() {
            None => r == Err::<ListColumn<U>, ListEvalError<E>>(ListEvalError::NotAList),
            Some(inner) => if column.rows@.len() == 0 {
                evaluated_empty(column.name@, column.dtype, expr, collect, r)
            } else {
                evaluated_rows(column.name@, inner, column.rows@, expr, compile, env, r)
            },
        },
    }
}

/// What the caller owes the services that a call may use. Nothing is owed
/// where the expression is refused or the column is no list, for then no
/// service is called. For a column without rows only the trial run is called,
/// on a probe. For a column with rows only the compiler is called, and what it
/// returns is run on frames of one row of the column.
pub open spec fn services_ready<T, U, S, E, Q, C, F>(
    column: &ListColumn<T>,
    expr: &Expr,
    collect: Q,
    compile: C,
    env: &S,
) -> bool where
    Q: FnOnce(&Frame<T>, &Expr) -> Result<Series<U>, E>,
    C: FnOnce(&Expr, &DataType) -> Result<F, E>,
    F: Fn(&Frame<T>, &S) -> Result<Series<U>, E>,
{
    verdict(*expr) is Ok && column.dtype.inner() is Some ==> if column.rows@.len() == 0 {
        accepts_probe(collect, expr, column.dtype)
    } else {
        &&& compile.requires((expr, &column.dtype.inner()->Some_0))
        &&& forall|f: F| #[trigger]
            compile.ensures((expr, &column.dtype.inner()->Some_0), Ok(f)) ==> accepts_rows(
                &f,
                env,
                column.rows@,
            )
    }
}

/// `out` holds, row for row, what the evaluator `f` returned on `rows`: null
/// for a null row, and for a row that is present a result of `f` on it.
pub open spec fn rows_evaluated<T, U, S, E, F: Fn(&Frame<T>, &S) -> Result<Series<U>, E>>(
    f: &F,
    env: &S,
    rows: Seq<Option<Series<T>>>,
    out: Seq<Option<Series<U>>>,
) -> bool {
    &&& out.len() == rows.len()
    &&& forall|i: int|
        0 <= i < rows.len() ==> match rows[i] {
            None => (#[trigger] out[i]) is None,
            Some(s) => out[i] is Some && run_on(f, env, s, Ok(out[i]->Some_0)),
        }
}

/// A call on a column with rows that succeeds returns, under the name of the
/// column, the results of one evaluator that the compiler gave: a null row for
/// each null row, and for each row that is present a result of the evaluator
/// on it. The element type of the column is the type of the first result.
pub proof fn lemma_evaluated_by_row<T, U, S, E, Q, C, F>(
    column: &ListColumn<T>,
    expr: &Expr,
    collect: Q,
    compile: C,
    env: &S,
    r: Result<ListColumn<U>, ListEvalError<E>>,
) where
    Q: FnOnce(&Frame<T>, &Expr) -> Result<Series<U>, E>,
    C: FnOnce(&Expr, &DataType) -> Result<F, E>,
    F: Fn(&Frame<T>, &S) -> Result<Series<U>, E>,

    requires
        evaluated(column, expr, collect, compile, env, r),
        column.rows@.len() > 0,
        r is Ok,
    ensures
        verdict(*expr) is Ok,
        column.dtype.inner() is Some,
        r->Ok_0.name@ == column.name@,
        r->Ok_0.dtype == DataType::List(Box::new(first_dtype(r->Ok_0.rows@))),
        exists|f: F| #[trigger]
            compile.ensures((expr, &column.dtype.inner()->Some_0), Ok(f)) && rows_evaluated(
                &f,
                env,
                column.rows@,
                r->Ok_0.rows@,
            ),
{
    let inner = column.dtype.inner()->Some_0;
    let compiled = choose|compiled: Result<F, E>| #[trigger]
        compile.ensures((expr, &inner), compiled) && match compiled {
            Err(e) => r == Err::<ListColumn<U>, ListEvalError<E>>(ListEvalError::Compilation(e)),
            Ok(f) => exists|d: Dispatched<U, E>| #[trigger]
                dispatched(&f, env, column.rows@, d) && assembles_to(column.name@, d, r),
        };
    let f = compiled->Ok_0;
    let d = choose|d: Dispatched<U, E>| #[trigger]
        dispatched(&f, env, column.rows@, d) && assembles_to(column.name@, d, r);
    lemma_dispatched_by_row(&f, env, column.rows@, d);
    assert forall|i: int| 0 <= i < column.rows@.len() implies match column.rows@[i] {
        None => (#[trigger] d.rows@[i]) is None,
        Some(s) => d.rows@[i] is Some && run_on(&f, env, s, Ok(d.rows@[i]->Some_0)),
    } by {
        assert(row_dispatched(&f, env, column.rows@[i], d.rows@[i]));
    }
}

/// Evaluates `expr` on every row of the list column `column` and returns the
/// column of the results, under the name of `column`.
///
/// `collect` is the trial run that finds the result type of a column without
/// rows. `compile` binds the expression to the element type and returns the
/// evaluator, which is then run once for each row that is present, with `env`,
/// on rayon's thread pool where `parallel` is set and on the calling thread
/// where it is not. What the call returns does not depend on `parallel`
/// otherwise.
pub fn evaluate_list<T, U, S, E, Q, C, F>(
    column: &ListColumn<T>,
    expr: &Expr,
    parallel: bool,
    collect: Q,
    compile: C,
    env: &S,
) -> (r: Result<ListColumn<U>, ListEvalError<E>>) where
    T: Sync,
    U: Send,
    S: Sync,
    E: Send,
    Q: FnOnce(&Frame<T>, &Expr) -> Result<Series<U>, E>,
    C: FnOnce(&Expr, &DataType) -> Result<F, E>,
    F: Fn(&Frame<T>, &S) -> Result<Series<U>, E> + Sync,

    requires
        services_ready(column, expr, collect, compile, env),
    ensures
        evaluated(column, expr, collect, compile, env, r),
        has_categorical_cast(*expr) || has_named_column(*expr) ==> r is Err && r->Err_0 is Validation,
        r is Ok ==> {
            &&& r->Ok_0.name@ == column.name@
            &&& r->Ok_0.rows@.len() == column.rows@.len()
            &&& r->Ok_0.wf()
            &&& forall|i: int|
                0 <= i < column.rows@.len() && column.rows@[i] is None ==> (
                #[trigger] r->Ok_0.rows@[i]) is None
        },
{
    proof {
        lemma_verdict(*expr);
    }
    match validate(expr) {
        Err(v) => {
            return Err(ListEvalError::Validation(v));
        },
        Ok(_) => {},
    }
    let inner = match column.inner_dtype() {
        None => {
            return Err(ListEvalError::NotAList);
        },
        Some(inner) => inner,
    };
    if column.is_empty() {
        let field = field_to_dtype(&column.field(), expr, collect);
        return Ok(ListColumn::new_empty(column.name(), field.dtype));
    }
    let evaluator = match compile(expr, inner) {
        Err(e) => {
            return Err(ListEvalError::Compilation(e));
        },
        Ok(f) => f,
    };
    let d = dispatch(&column.rows, &evaluator, env, parallel);
    assemble(column.name(), d)
}

/// Runs a transform on the column that its input has become. `None` where
/// the transform is not one of this engine.
pub fn apply_transform<T, U, S, E, Q, C, F>(
    transform: &Transform,
    column: &ListColumn<T>,
    collect: Q,
    compile: C,
    env: &S,
) -> (r: Option<Result<ListColumn<U>, ListEvalError<E>>>) where
    T: Sync,
    U: Send,
    S: Sync,
    E: Send,
    Q: FnOnce(&Frame<T>, &Expr) -> Result<Series<U>, E>,
    C: FnOnce(&Expr, &DataType) -> Result<F, E>,
    F: Fn(&Frame<T>, &S) -> Result<Series<U>, E> + Sync,

    requires
        match *transform {
            Transform::ListEval { evaluation, .. } => services_ready(
                column,
                &*evaluation,
                collect,
                compile,
                env,
            ),
            Transform::Opaque => true,
        },
    ensures
        match *transform {
            Transform::ListEval { evaluation, .. } => r is Some && evaluated(
                column,
                &*evaluation,
                collect,
                compile,
                env,
                r->Some_0,
            ),
            Transform::Opaque => r is None,
        },
{
    match transform {
        Transform::ListEval { evaluation, parallel } => Some(
            evaluate_list(column, evaluation, *parallel, collect, compile, env),
        ),
        Transform::Opaque => None,
    }
}

/// The field of the column that a transform gives for an input of field `f`.
/// `None` where the transform is not one of this engine.
pub fn transform_field<T, U, E, Q: FnOnce(&Frame<T>, &Expr) -> Result<Series<U>, E>>(
    transform: &Transform,
    f: &Field,
    collect: Q,
) -> (r: Option<Field>)
    requires
        match *transform {
            Transform::ListEval { evaluation, .. } => accepts_probe(collect, &*evaluation, f@.dtype),
            Transform::Opaque => true,
        },
    ensures
        match *transform {
            Transform::ListEval { evaluation, .. } => {
                &&& r is Some
                &&& r->Some_0@.name == f@.name
                &&& infers(collect, &*evaluation, f@.dtype, r->Some_0@.dtype)
            },
            Transform::Opaque => r is None,
        },
{
    match transform {
        Transform::ListEval { evaluation, .. } => Some(field_to_dtype(f, evaluation, collect)),
        Transform::Opaque => None,
    }
}

} // verus!
