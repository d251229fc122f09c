//! How an evaluation over a list column can fail.

use vstd::prelude::*;
use crate::validate::Violation;

verus! {

/// The one failure that a call reports. `E` is the failure type of the
/// compiler and of the evaluator.
#[derive(Debug, PartialEq)]
pub enum ListEvalError<E> {
    /// The expression may not be evaluated on the elements of a list.
    Validation(Violation),
    /// The column is not declared as a list.
    NotAList,
    /// The expression could not be compiled against the element type.
    Compilation(E),
    /// A row failed to evaluate: the failure of the first such row.
    Row(E),
    /// The evaluator gave rows of different types, which no list column holds.
    SchemaMismatch,
}

impl Violation {
    /// The text of the message for this violation.
    pub open spec fn message_text(self) -> Seq<char> {
        match self {
            Violation::CategoricalCast => "Casting to 'Categorical' not allowed in 'arr.eval'"@,
            Violation::NamedColumn =>
                "Named columns not allowed in 'arr.eval'. Consider using 'element' or 'col(\"\")'."@,
        }
    }

    /// A message that tells the user what to change.
    pub fn message(&self) -> (s: String)
        ensures
            s@ == self.message_text(),
    {
        match self {
            Violation::CategoricalCast => {
                "Casting to 'Categorical' not allowed in 'arr.eval'".to_owned()
            },
            Violation::NamedColumn => {
                "Named columns not allowed in 'arr.eval'. Consider using 'element' or 'col(\"\")'.".to_owned()
            },
        }
    }
}

} // verus!
