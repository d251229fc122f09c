//! The list namespace of an expression, and the transform that it offers.

use vstd::prelude::*;
use crate::expr::Expr;
use crate::expr::Transform;

verus! {

/// The operations on an expression that stands for a list column.
#[derive(Debug, PartialEq, Eq)]
pub struct ListNameSpace(pub Expr);

/// What can be taken for a list namespace.
pub trait IntoListNameSpace {
    /// The expression whose list namespace this is.
    spec fn list_expr(self) -> Expr where Self: Sized;

    fn into_list_name_space(self) -> (r: ListNameSpace) where Self: Sized
        ensures
            r.0 == self.list_expr(),
    ;
}

impl IntoListNameSpace for ListNameSpace {
    open spec fn list_expr(self) -> Expr {
        self.0
    }

    fn into_list_name_space(self) -> (r: ListNameSpace) {
        self
    }
}

/// `r` is the transform "evaluate `expr` on every element of `list`", not yet
/// run: a user-defined function of the one input `list` that is shown as
/// `eval`.
pub open spec fn is_eval_of(r: Expr, list: Expr, expr: Expr, parallel: bool) -> bool {
    match r {
        Expr::AnonymousFunction { inputs, function, fmt_str } => {
            &&& inputs@ == seq![list]
            &&& function == (Transform::ListEval { evaluation: Box::new(expr), parallel })
            &&& fmt_str@ == "eval"@
        },
        _ => false,
    }
}

/// The transforms that the list namespace offers.
pub trait ListNameSpaceExtension: IntoListNameSpace + Sized {
    /// Run any expression on the elements of these lists. Nothing is
    /// evaluated here: the transform is run later, on a column.
    fn eval(self, expr: Expr, parallel: bool) -> (r: Expr)
        ensures
            is_eval_of(r, self.list_expr(), expr, parallel),
    {
        let this = self.into_list_name_space();
        let mut inputs: Vec<Expr> = Vec::new();
        inputs.push(this.0);
        Expr::AnonymousFunction {
            inputs,
            function: Transform::ListEval { evaluation: Box::new(expr), parallel },
            fmt_str: "eval".to_owned(),
        }
    }
}

impl ListNameSpaceExtension for ListNameSpace {
}

} // verus!
