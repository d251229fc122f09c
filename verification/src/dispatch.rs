//! Running an evaluator once for every row of a list column.
//!
//! A row that is null is not evaluated and gives null. A row that is present
//! is wrapped into a frame of one column and handed to the evaluator; where
//! that fails the row gives null as well and the failure is kept, unless an
//! earlier row has failed already. Rows may be evaluated one after another or
//! on a pool of threads: the outcome is stated once, for both.

use vstd::prelude::*;
use rayon::iter::IntoParallelRefIterator;
use rayon::iter::ParallelIterator;
use crate::column::Frame;
use crate::column::Series;

verus! {

/// `r` is a possible outcome of running `f` on a frame that holds the single
/// column `row`.
pub open spec fn run_on<T, U, S, E, F: Fn(&Frame<T>, &S) -> Result<Series<U>, E>>(
    f: &F,
    env: &S,
    row: Series<T>,
    r: Result<Series<U>, E>,
) -> bool {
    exists|frame: Frame<T>| #[trigger] frame.holds_only(row) && f.ensures((&frame, env), r)
}

/// `f` may be called on a frame of any one row of `rows`.
pub open spec fn accepts_rows<T, U, S, E, F: Fn(&Frame<T>, &S) -> Result<Series<U>, E>>(
    f: &F,
    env: &S,
    rows: Seq<Option<Series<T>>>,
) -> bool {
    forall|i: int, frame: Frame<T>|
        0 <= i < rows.len() && (#[trigger] rows[i]) is Some && #[trigger] frame.holds_only(
            rows[i]->Some_0,
        ) ==> f.requires((&frame, env))
}

/// What became of one row.
#[derive(Debug, PartialEq)]
pub enum RowOutcome<U, E> {
    /// The row was null and was not evaluated.
    Null,
    /// The evaluator's result for the row.
    Value(Series<U>),
    /// The evaluator's failure on the row.
    Failed(E),
}

impl<U, E> RowOutcome<U, E> {
    /// The result row: null unless the evaluator gave a value.
    pub open spec fn value(self) -> Option<Series<U>> {
        match self {
            RowOutcome::Value(v) => Some(v),
            _ => None,
        }
    }

    /// `self` is a possible outcome for the input row `row` under `f`.
    pub open spec fn arises_from<T, S, F: Fn(&Frame<T>, &S) -> Result<Series<U>, E>>(
        self,
        f: &F,
        env: &S,
        row: Option<Series<T>>,
    ) -> bool {
        match row {
            None => self is Null,
            Some(s) => match self {
                RowOutcome::Null => false,
                RowOutcome::Value(v) => run_on(f, env, s, Ok(v)),
                RowOutcome::Failed(e) => run_on(f, env, s, Err(e)),
            },
        }
    }
}

/// The result rows of a dispatch, and the failure that was kept, if any.
#[derive(Debug, PartialEq)]
pub struct Dispatched<U, E> {
    pub rows: Vec<Option<Series<U>>>,
    pub error: Option<E>,
}

/// `outcomes` holds, row for row, a possible outcome of `f` on `rows`.
pub open spec fn outcomes_of<T, U, S, E, F: Fn(&Frame<T>, &S) -> Result<Series<U>, E>>(
    f: &F,
    env: &S,
    rows: Seq<Option<Series<T>>>,
    outcomes: Seq<RowOutcome<U, E>>,
) -> bool {
    &&& outcomes.len() == rows.len()
    &&& forall|i: int| 0 <= i < rows.len() ==> (#[trigger] outcomes[i]).arises_from(f, env, rows[i])
}

/// The failure of the first row of `outcomes` that failed.
pub open spec fn first_failure<U, E>(outcomes: Seq<RowOutcome<U, E>>) -> Option<E>
    decreases outcomes.len(),
{
    if outcomes.len() == 0 {
        None
    } else {
        match first_failure(outcomes.drop_last()) {
            Some(e) => Some(e),
            None => match outcomes.last() {
                RowOutcome::Failed(e) => Some(e),
                _ => None,
            },
        }
    }
}

/// The result rows that `outcomes` give.
pub open spec fn values_of<U, E>(outcomes: Seq<RowOutcome<U, E>>) -> Seq<Option<Series<U>>> {
    outcomes.map_values(|o: RowOutcome<U, E>| o.value())
}

/// `d` is a possible result of dispatching `f` over `rows`: there is an
/// outcome for each row, in the order of the rows, of which `d` holds the
/// values and the first failure.
pub open spec fn dispatched<T, U, S, E, F: Fn(&Frame<T>, &S) -> Result<Series<U>, E>>(
    f: &F,
    env: &S,
    rows: Seq<Option<Series<T>>>,
    d: Dispatched<U, E>,
) -> bool {
    exists|outcomes: Seq<RowOutcome<U, E>>|
        {
            &&& #[trigger] outcomes_of(f, env, rows, outcomes)
            &&& d.rows@ == values_of(outcomes)
            &&& d.error == first_failure(outcomes)
        }
}

/// No failure is kept exactly where no row failed; a failure that is kept is
/// that of a row before which no row failed.
pub proof fn lemma_first_failure_scan<U, E>(outcomes: Seq<RowOutcome<U, E>>)
    ensures
        first_failure(outcomes) is None <==> forall|i: int|
            0 <= i < outcomes.len() ==> !((#[trigger] outcomes[i]) is Failed),
        first_failure(outcomes) is Some ==> exists|k: int|
            {
                &&& 0 <= k < outcomes.len()
                &&& #[trigger] outcomes[k] == RowOutcome::<U, E>::Failed(
                    first_failure(outcomes)->Some_0,
                )
                &&& forall|j: int| 0 <= j < k ==> !((#[trigger] outcomes[j]) is Failed)
            },
    decreases outcomes.len(),
{
    if outcomes.len() > 0 {
        let init = outcomes.drop_last();
        lemma_first_failure_scan(init);
        assert(forall|i: int| 0 <= i < init.len() ==> init[i] == outcomes[i]);
        if first_failure(init) is None && outcomes.last() is Failed {
            assert(outcomes[outcomes.len() - 1] == RowOutcome::<U, E>::Failed(
                first_failure(outcomes)->Some_0,
            ));
        }
    }
}

/// `row_out` is what a dispatch of `f` may give for the input row `row_in`:
/// null for a null row; for a row that is present, a result of `f` on it, or
/// null where `f` can fail on it.
pub open spec fn row_dispatched<T, U, S, E, F: Fn(&Frame<T>, &S) -> Result<Series<U>, E>>(
    f: &F,
    env: &S,
    row_in: Option<Series<T>>,
    row_out: Option<Series<U>>,
) -> bool {
    match row_in {
        None => row_out is None,
        Some(s) => match row_out {
            Some(v) => run_on(f, env, s, Ok(v)),
            None => exists|e: E| #[trigger] run_on(f, env, s, Err::<Series<U>, E>(e)),
        },
    }
}

/// What a dispatch promises, row by row. There is one result row for each
/// input row. A null row gives null; a row that is present gives what the
/// evaluator returned for it, or null where the evaluator failed. No failure
/// is kept exactly where every present row has a result; a failure that is
/// kept is the evaluator's failure on the first present row without one.
pub proof fn lemma_dispatched_by_row<T, U, S, E, F: Fn(&Frame<T>, &S) -> Result<Series<U>, E>>(
    f: &F,
    env: &S,
    rows: Seq<Option<Series<T>>>,
    d: Dispatched<U, E>,
)
    requires
        dispatched(f, env, rows, d),
    ensures
        d.rows@.len() == rows.len(),
        forall|i: int|
            0 <= i < rows.len() ==> row_dispatched(f, env, rows[i], #[trigger] d.rows@[i]),
        d.error is None <==> forall|i: int|
            0 <= i < rows.len() && rows[i] is Some ==> (#[trigger] d.rows@[i]) is Some,
        d.error is Some ==> exists|k: int|
            {
                &&& 0 <= k < rows.len()
                &&& rows[k] is Some
                &&& (#[trigger] d.rows@[k]) is None
                &&& run_on(f, env, rows[k]->Some_0, Err::<Series<U>, E>(d.error->Some_0))
                &&& forall|j: int| 0 <= j < k && rows[j] is Some ==> (#[trigger] d.rows@[j]) is Some
            },
{
    let outcomes = choose|outcomes: Seq<RowOutcome<U, E>>|
        {
            &&& #[trigger] outcomes_of(f, env, rows, outcomes)
            &&& d.rows@ == values_of(outcomes)
            &&& d.error == first_failure(outcomes)
        };
    lemma_first_failure_scan(outcomes);
    assert forall|i: int| 0 <= i < rows.len() implies row_dispatched(
        f,
        env,
        rows[i],
        #[trigger] d.rows@[i],
    ) && (rows[i] is Some ==> (d.rows@[i] is Some <==> !(outcomes[i] is Failed))) by {
        assert(outcomes[i].arises_from(f, env, rows[i]));
    }
    if d.error is Some {
        let k = choose|k: int|
            {
                &&& 0 <= k < outcomes.len()
                &&& #[trigger] outcomes[k] == RowOutcome::<U, E>::Failed(
                    first_failure(outcomes)->Some_0,
                )
                &&& forall|j: int| 0 <= j < k ==> !((#[trigger] outcomes[j]) is Failed)
            };
        assert(d.rows@[k] == outcomes[k].value());
    }
}

/// Evaluates one row on a frame of its own.
pub fn evaluate_row<T, U, S, E, F: Fn(&Frame<T>, &S) -> Result<Series<U>, E>>(
    row: &Option<Series<T>>,
    f: &F,
    env: &S,
) -> (out: RowOutcome<U, E>)
    requires
        forall|frame: Frame<T>|
            row is Some && #[trigger] frame.holds_only(row->Some_0) ==> f.requires((&frame, env)),
    ensures
        out.arises_from(f, env, *row),
{
    match row {
        None => RowOutcome::Null,
        Some(s) => {
            let frame = Frame::of_row(s);
            match f(&frame, env) {
                Ok(v) => RowOutcome::Value(v),
                Err(e) => RowOutcome::Failed(e),
            }
        },
    }
}

/// Folds the outcomes into the result rows and the first failure.
pub fn collect_outcomes<U, E>(outcomes: Vec<RowOutcome<U, E>>) -> (d: Dispatched<U, E>)
    ensures
        d.rows@ == values_of(outcomes@),
        d.error == first_failure(outcomes@),
{
    let mut rows: Vec<Option<Series<U>>> = Vec::new();
    let mut error: Option<E> = None;
    let ghost all = outcomes@;
    for outcome in it: outcomes
        invariant
            it.seq() == all,
            rows@ == values_of(all.take(it.index() as int)),
            error == first_failure(all.take(it.index() as int)),
    {
        let ghost k = it.index() as int;
        assert(all.take(k + 1).drop_last() =~= all.take(k));
        match outcome {
            RowOutcome::Null => {
                rows.push(None);
            },
            RowOutcome::Value(v) => {
                rows.push(Some(v));
            },
            RowOutcome::Failed(e) => {
                rows.push(None);
                if error.is_none() {
                    error = Some(e);
                }
            },
        }
    }
    assert(all.take(all.len() as int) =~= all);
    Dispatched { rows, error }
}

/// Evaluates the rows one after another on the calling thread. One frame is
/// reused for all rows: it is filled with the row, handed to the evaluator and
/// cleared again. Every row is evaluated, also after one has failed.
pub fn dispatch_sequential<T, U, S, E, F: Fn(&Frame<T>, &S) -> Result<Series<U>, E>>(
    rows: &Vec<Option<Series<T>>>,
    f: &F,
    env: &S,
) -> (d: Dispatched<U, E>)
    requires
        accepts_rows(f, env, rows@),
    ensures
        dispatched(f, env, rows@, d),
        d.rows@.len() == rows@.len(),
        forall|i: int| 0 <= i < rows@.len() && rows@[i] is None ==> (#[trigger] d.rows@[i]) is None,
{
    let mut out: Vec<Option<Series<U>>> = Vec::new();
    let mut error: Option<E> = None;
    let mut container: Frame<T> = Frame::new_empty();
    let ghost mut outcomes: Seq<RowOutcome<U, E>> = Seq::empty();
    let n = rows.len();
    let mut i: usize = 0;
    while i < n
        invariant
            n == rows@.len(),
            i <= n,
            accepts_rows(f, env, rows@),
            container.columns@.len() == 0,
            outcomes.len() == i,
            forall|j: int| 0 <= j < i ==> (#[trigger] outcomes[j]).arises_from(f, env, rows@[j]),
            out@ == values_of(outcomes),
            error == first_failure(outcomes),
        decreases n - i,
    {
        let ghost before = outcomes;
        match &rows[i] {
            None => {
                out.push(None);
                proof {
                    outcomes = before.push(RowOutcome::Null);
                }
            },
            Some(s) => {
                container.columns.push(s);
                assert(container.holds_only(*s)) by {
                    assert(container.columns@ =~= seq![s]);
                }
                let r = f(&container, env);
                container.columns.clear();
                match r {
                    Ok(v) => {
                        proof {
                            outcomes = before.push(RowOutcome::Value(v));
                        }
                        out.push(Some(v));
                    },
                    Err(e) => {
                        proof {
                            outcomes = before.push(RowOutcome::Failed(e));
                        }
                        if error.is_none() {
                            error = Some(e);
                        }
                        out.push(None);
                    },
                }
            },
        }
        assert(outcomes.drop_last() =~= before);
        i = i + 1;
    }
    let d = Dispatched { rows: out, error };
    proof {
        assert(outcomes_of(f, env, rows@, outcomes));
        lemma_dispatched_by_row(f, env, rows@, d);
    }
    d
}

/// Runs `evaluate_row` on every row with rayon's `par_iter().map(..).collect()`
/// into a `Vec`. Rayon hands each row to the closure once, on some thread of
/// its pool, and collects the results in the order of the rows; so the result
/// has one outcome of `evaluate_row` for each row, at the row's index.
#[verifier::external_body]
fn par_map_rows<T, U, S, E, F>(rows: &Vec<Option<Series<T>>>, f: &F, env: &S) -> (outcomes: Vec<
    RowOutcome<U, E>,
>) where
    T: Sync,
    U: Send,
    S: Sync,
    E: Send,
    F: Fn(&Frame<T>, &S) -> Result<Series<U>, E> + Sync,

    requires
        accepts_rows(f, env, rows@),
    ensures
        outcomes_of(f, env, rows@, outcomes@),
{
    rows.par_iter().map(|row| evaluate_row(row, f, env)).collect()
}

/// Evaluates the rows on rayon's thread pool. Each row is evaluated on a frame
/// of its own, every row is evaluated whatever happens to the others, and the
/// results stand in the order of the rows. Of the rows that fail, the first in
/// that order has its failure kept, whichever thread came to an end first: the
/// result does not depend on how the rows were scheduled.
pub fn dispatch_parallel<T, U, S, E, F>(rows: &Vec<Option<Series<T>>>, f: &F, env: &S) -> (d:
    Dispatched<U, E>) where
    T: Sync,
    U: Send,
    S: Sync,
    E: Send,
    F: Fn(&Frame<T>, &S) -> Result<Series<U>, E> + Sync,

    requires
        accepts_rows(f, env, rows@),
    ensures
        dispatched(f, env, rows@, d),
        d.rows@.len() == rows@.len(),
        forall|i: int| 0 <= i < rows@.len() && rows@[i] is None ==> (#[trigger] d.rows@[i]) is None,
{
    let outcomes = par_map_rows(rows, f, env);
    let d = collect_outcomes(outcomes);
    proof {
        lemma_dispatched_by_row(f, env, rows@, d);
    }
    d
}

/// Evaluates the rows, on the thread pool where `parallel` is set and on the
/// calling thread where it is not.
pub fn dispatch<T, U, S, E, F>(rows: &Vec<Option<Series<T>>>, f: &F, env: &S, parallel: bool) -> (d:
    Dispatched<U, E>) where
    T: Sync,
    U: Send,
    S: Sync,
    E: Send,
    F: Fn(&Frame<T>, &S) -> Result<Series<U>, E> + Sync,

    requires
        accepts_rows(f, env, rows@),
    ensures
        dispatched(f, env, rows@, d),
        d.rows@.len() == rows@.len(),
        forall|i: int| 0 <= i < rows@.len() && rows@[i] is None ==> (#[trigger] d.rows@[i]) is None,
{
    if parallel {
        dispatch_parallel(rows, f, env)
    } else {
        dispatch_sequential(rows, f, env)
    }
}

} // verus!
