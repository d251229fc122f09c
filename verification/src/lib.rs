//! Element-wise evaluation of an expression over the rows of a list column.
//!
//! A list column holds, row by row, either nothing or a series of values of
//! one element type. To evaluate an expression on the elements of such a
//! column is to run it once on every row that is present, as if the row were
//! a column of its own, and to collect the results into a new list column.
//!
//! The engine does not compile or evaluate expressions itself. The caller
//! brings a compiler, which binds an expression to an element type and returns
//! an evaluator, and a trial run, which tells the type of the result without
//! any row. What the engine adds is stated in its contracts and proved:
//!
//!  - `validate` refuses expressions that cannot be evaluated on an element;
//!  - `infer` finds the field of the result column;
//!  - `dispatch` runs the evaluator over the rows, one after another or on
//!    rayon's thread pool, and keeps the first failure;
//!  - `assemble` builds the result column or reports that failure;
//!  - `eval` is the whole call, and `determinism` shows that for an evaluator
//!    whose outcome is fixed by its input the two ways of dispatching agree;
//!  - `namespace` offers the call as the transform `eval` on an expression.

pub mod assemble;
pub mod column;
pub mod determinism;
pub mod dispatch;
pub mod dtype;
pub mod error;
pub mod eval;
pub mod expr;
pub mod infer;
pub mod namespace;
pub mod validate;
