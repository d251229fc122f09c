//! Evaluators whose outcome is fixed by the frame they are given, and what
//! follows for them: the two ways of dispatching give the same column.

use vstd::prelude::*;
use crate::assemble::assembles_to;
use crate::assemble::first_dtype;
use crate::column::row_view;
use crate::column::rows_have_type;
use crate::column::rows_view;
use crate::column::Frame;
use crate::column::ListColumn;
use crate::column::ListColumnView;
use crate::column::Series;
use crate::column::SeriesView;
use crate::dispatch::dispatched;
use crate::dispatch::first_failure;
use crate::dispatch::outcomes_of;
use crate::dispatch::values_of;
use crate::dispatch::Dispatched;
use crate::dispatch::RowOutcome;
use crate::dtype::DataType;
use crate::error::ListEvalError;
use crate::eval::evaluated;
use crate::expr::Expr;

verus! {

/// An evaluator's outcome as a mathematical value.
pub open spec fn outcome_view<U, E>(r: Result<Series<U>, E>) -> Result<SeriesView<U>, E> {
    match r {
        Ok(s) => Ok(s@),
        Err(e) => Err(e),
    }
}

/// The result of a call as a mathematical value.
pub open spec fn result_view<U, E>(r: Result<ListColumn<U>, ListEvalError<E>>) -> Result<
    ListColumnView<U>,
    ListEvalError<E>,
> {
    match r {
        Ok(c) => Ok(c@),
        Err(e) => Err(e),
    }
}

/// The outcome of `f` with `env` is fixed by the columns of the frame: two
/// runs on frames of the same columns succeed with the same series or fail
/// with the same failure.
pub open spec fn determinate<T, U, S, E, F: Fn(&Frame<T>, &S) -> Result<Series<U>, E>>(
    f: &F,
    env: &S,
) -> bool {
    forall|a: Frame<T>, b: Frame<T>, ra: Result<Series<U>, E>, rb: Result<Series<U>, E>|
        a.columns@ == b.columns@ && #[trigger] f.ensures((&a, env), ra) && #[trigger] f.ensures(
            (&b, env),
            rb,
        ) ==> outcome_view(ra) == outcome_view(rb)
}

/// The failure of an outcome, if it is one.
pub open spec fn failure<U, E>(o: RowOutcome<U, E>) -> Option<E> {
    match o {
        RowOutcome::Failed(e) => Some(e),
        _ => None,
    }
}

proof fn lemma_first_failure_by_rows<U, E>(a: Seq<RowOutcome<U, E>>, b: Seq<RowOutcome<U, E>>)
    requires
        a.len() == b.len(),
        forall|i: int| 0 <= i < a.len() ==> failure(#[trigger] a[i]) == failure(b[i]),
    ensures
        first_failure(a) == first_failure(b),
    decreases a.len(),
{
    if a.len() > 0 {
        assert forall|i: int| 0 <= i < a.drop_last().len() implies failure(
            #[trigger] a.drop_last()[i],
        ) == failure(b.drop_last()[i]) by {
            assert(a.drop_last()[i] == a[i]);
            assert(b.drop_last()[i] == b[i]);
        }
        lemma_first_failure_by_rows(a.drop_last(), b.drop_last());
    }
}

/// Rows with the same views agree row by row.
proof fn lemma_rows_agree<U>(a: Seq<Option<Series<U>>>, b: Seq<Option<Series<U>>>)
    requires
        rows_view(a) == rows_view(b),
    ensures
        a.len() == b.len(),
        forall|i: int| 0 <= i < a.len() ==> row_view(#[trigger] a[i]) == row_view(b[i]),
{
    assert(a.len() == rows_view(a).len());
    assert(b.len() == rows_view(b).len());
    assert forall|i: int| 0 <= i < a.len() implies row_view(#[trigger] a[i]) == row_view(b[i]) by {
        assert(rows_view(a)[i] == row_view(a[i]));
        assert(rows_view(b)[i] == row_view(b[i]));
    }
}

proof fn lemma_first_dtype_by_rows<U>(a: Seq<Option<Series<U>>>, b: Seq<Option<Series<U>>>)
    requires
        rows_view(a) == rows_view(b),
    ensures
        first_dtype(a) == first_dtype(b),
    decreases a.len(),
{
    lemma_rows_agree(a, b);
    if a.len() > 0 {
        assert(row_view(a[0]) == row_view(b[0]));
        assert(rows_view(a.drop_first()) =~= rows_view(a).drop_first());
        assert(rows_view(b.drop_first()) =~= rows_view(b).drop_first());
        lemma_first_dtype_by_rows(a.drop_first(), b.drop_first());
    }
}

proof fn lemma_rows_have_type_by_rows<U>(
    a: Seq<Option<Series<U>>>,
    b: Seq<Option<Series<U>>>,
    inner: DataType,
)
    requires
        rows_view(a) == rows_view(b),
    ensures
        rows_have_type(a, inner) == rows_have_type(b, inner),
{
    lemma_rows_agree(a, b);
    if rows_have_type(a, inner) {
        assert forall|i: int| 0 <= i < b.len() implies match #[trigger] b[i] {
            Some(s) => s.dtype == inner,
            None => true,
        } by {
            assert(row_view(a[i]) == row_view(b[i]));
        }
    }
    if rows_have_type(b, inner) {
        assert forall|i: int| 0 <= i < a.len() implies match #[trigger] a[i] {
            Some(s) => s.dtype == inner,
            None => true,
        } by {
            assert(row_view(a[i]) == row_view(b[i]));
        }
    }
}

/// Two dispatches of a determinate evaluator over the same rows give the same
/// rows and keep the same failure.
pub proof fn lemma_dispatch_determinate<T, U, S, E, F: Fn(&Frame<T>, &S) -> Result<Series<U>, E>>(
    f: &F,
    env: &S,
    rows: Seq<Option<Series<T>>>,
    d1: Dispatched<U, E>,
    d2: Dispatched<U, E>,
)
    requires
        determinate(f, env),
        dispatched(f, env, rows, d1),
        dispatched(f, env, rows, d2),
    ensures
        rows_view(d1.rows@) == rows_view(d2.rows@),
        d1.error == d2.error,
{
    let o1 = choose|o: Seq<RowOutcome<U, E>>|
        {
            &&& #[trigger] outcomes_of(f, env, rows, o)
            &&& d1.rows@ == values_of(o)
            &&& d1.error == first_failure(o)
        };
    let o2 = choose|o: Seq<RowOutcome<U, E>>|
        {
            &&& #[trigger] outcomes_of(f, env, rows, o)
            &&& d2.rows@ == values_of(o)
            &&& d2.error == first_failure(o)
        };
    assert forall|i: int| 0 <= i < rows.len() implies failure(#[trigger] o1[i]) == failure(o2[i])
        && row_view(o1[i].value()) == row_view(o2[i].value()) by {
        match rows[i] {
            None => {},
            Some(s) => {
                let r1: Result<Series<U>, E> = match o1[i] {
                    RowOutcome::Value(v) => Ok(v),
                    RowOutcome::Failed(e) => Err(e),
                    RowOutcome::Null => arbitrary(),
                };
                let r2: Result<Series<U>, E> = match o2[i] {
                    RowOutcome::Value(v) => Ok(v),
                    RowOutcome::Failed(e) => Err(e),
                    RowOutcome::Null => arbitrary(),
                };
                let a = choose|frame: Frame<T>| #[trigger]
                    frame.holds_only(s) && f.ensures((&frame, env), r1);
                let b = choose|frame: Frame<T>| #[trigger]
                    frame.holds_only(s) && f.ensures((&frame, env), r2);
                assert(a.columns@ == b.columns@);
            },
        }
    }
    lemma_first_failure_by_rows(o1, o2);
    assert(rows_view(d1.rows@) =~= rows_view(d2.rows@)) by {
        assert forall|i: int| 0 <= i < rows.len() implies rows_view(d1.rows@)[i] == rows_view(
            d2.rows@,
        )[i] by {
            assert(row_view(o1[i].value()) == row_view(o2[i].value()));
        }
    }
}

/// Two results that are assembled under one name from the same rows and the
/// same failure are the same.
pub proof fn lemma_assemble_by_rows<U, E>(
    name: Seq<char>,
    d1: Dispatched<U, E>,
    d2: Dispatched<U, E>,
    r1: Result<ListColumn<U>, ListEvalError<E>>,
    r2: Result<ListColumn<U>, ListEvalError<E>>,
)
    requires
        rows_view(d1.rows@) == rows_view(d2.rows@),
        d1.error == d2.error,
        assembles_to(name, d1, r1),
        assembles_to(name, d2, r2),
    ensures
        result_view(r1) == result_view(r2),
{
    lemma_first_dtype_by_rows(d1.rows@, d2.rows@);
    lemma_rows_have_type_by_rows(d1.rows@, d2.rows@, first_dtype(d1.rows@));
}

/// For a determinate evaluator it makes no difference whether the rows are
/// evaluated one after another or on the thread pool: whatever the two ways of
/// dispatching return, the call ends in the same column or the same failure.
pub proof fn lemma_modes_agree<T, U, S, E, F: Fn(&Frame<T>, &S) -> Result<Series<U>, E>>(
    name: Seq<char>,
    f: &F,
    env: &S,
    rows: Seq<Option<Series<T>>>,
    sequential: Dispatched<U, E>,
    parallel: Dispatched<U, E>,
    r_sequential: Result<ListColumn<U>, ListEvalError<E>>,
    r_parallel: Result<ListColumn<U>, ListEvalError<E>>,
)
    requires
        determinate(f, env),
        dispatched(f, env, rows, sequential),
        dispatched(f, env, rows, parallel),
        assembles_to(name, sequential, r_sequential),
        assembles_to(name, parallel, r_parallel),
    ensures
        result_view(r_sequential) == result_view(r_parallel),
{
    lemma_dispatch_determinate(f, env, rows, sequential, parallel);
    lemma_assemble_by_rows(name, sequential, parallel, r_sequential, r_parallel);
}

/// The compiler gives one answer for the expression and the element type, and
/// an evaluator that it gives is determinate with `env`.
pub open spec fn compiles_determinately<T, U, S, E, C, F>(
    compile: C,
    expr: &Expr,
    inner: DataType,
    env: &S,
) -> bool where C: FnOnce(&Expr, &DataType) -> Result<F, E>, F: Fn(&Frame<T>, &S) -> Result<Series<U>, E> {
    &&& forall|a: Result<F, E>, b: Result<F, E>| #[trigger]
        compile.ensures((expr, &inner), a) && #[trigger] compile.ensures((expr, &inner), b) ==> a
            == b
    &&& forall|f: F| #[trigger] compile.ensures((expr, &inner), Ok(f)) ==> determinate(&f, env)
}

/// On a column that has rows, a call with a determinate compiler and
/// evaluator has one result: the same column or the same failure comes back
/// whether the rows are evaluated on the thread pool or one after another.
pub proof fn lemma_call_determinate<T, U, S, E, Q, C, F>(
    column: &ListColumn<T>,
    expr: &Expr,
    collect: Q,
    compile: C,
    env: &S,
    r_sequential: Result<ListColumn<U>, ListEvalError<E>>,
    r_parallel: Result<ListColumn<U>, ListEvalError<E>>,
) where
    Q: FnOnce(&Frame<T>, &Expr) -> Result<Series<U>, E>,
    C: FnOnce(&Expr, &DataType) -> Result<F, E>,
    F: Fn(&Frame<T>, &S) -> Result<Series<U>, E>,

    requires
        column.rows@.len() > 0,
        column.dtype.inner() is Some ==> compiles_determinately(
            compile,
            expr,
            column.dtype.inner()->Some_0,
            env,
        ),
        evaluated(column, expr, collect, compile, env, r_sequential),
        evaluated(column, expr, collect, compile, env, r_parallel),
    ensures
        result_view(r_sequential) == result_view(r_parallel),
{
    if crate::validate::verdict(*expr) is Ok && column.dtype.inner() is Some {
        let inner = column.dtype.inner()->Some_0;
        let c1 = choose|compiled: Result<F, E>| #[trigger]
            compile.ensures((expr, &inner), compiled) && match compiled {
                Err(e) => r_sequential == Err::<ListColumn<U>, ListEvalError<E>>(
                    ListEvalError::Compilation(e),
                ),
                Ok(f) => exists|d: Dispatched<U, E>| #[trigger]
                    dispatched(&f, env, column.rows@, d) && assembles_to(
                        column.name@,
                        d,
                        r_sequential,
                    ),
            };
        let c2 = choose|compiled: Result<F, E>| #[trigger]
            compile.ensures((expr, &inner), compiled) && match compiled {
                Err(e) => r_parallel == Err::<ListColumn<U>, ListEvalError<E>>(
                    ListEvalError::Compilation(e),
                ),
                Ok(f) => exists|d: Dispatched<U, E>| #[trigger]
                    dispatched(&f, env, column.rows@, d) && assembles_to(
                        column.name@,
                        d,
                        r_parallel,
                    ),
            };
        match c1 {
            Err(_) => {},
            Ok(f) => {
                let d1 = choose|d: Dispatched<U, E>| #[trigger]
                    dispatched(&f, env, column.rows@, d) && assembles_to(
                        column.name@,
                        d,
                        r_sequential,
                    );
                let d2 = choose|d: Dispatched<U, E>| #[trigger]
                    dispatched(&f, env, column.rows@, d) && assembles_to(
                        column.name@,
                        d,
                        r_parallel,
                    );
                lemma_modes_agree(column.name@, &f, env, column.rows@, d1, d2, r_sequential, r_parallel);
            },
        }
    }
}

} // verus!
