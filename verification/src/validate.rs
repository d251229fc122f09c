//! Which expressions may be evaluated on the elements of a list.
//!
//! An element is evaluated on its own, away from the frame that holds the list
//! column. So an expression may name no column of that frame, only the element
//! itself (the column with the empty name), and it may not cast to a
//! categorical type, whose dictionary would have to be shared by all elements.

use vstd::prelude::*;
use crate::dtype::DataType;
use crate::expr::Expr;
use crate::expr::nodes_back_from;
use crate::expr::nodes_from;

verus! {

/// Why an expression is refused.
#[derive(Debug, Clone, Copy, PartialEq, Eq, Structural)]
pub enum Violation {
    /// A node casts to a categorical type.
    CategoricalCast,
    /// A node refers to a column by a name that is not empty.
    NamedColumn,
}

/// What is wrong with the node `e` itself, whatever stands below it.
pub open spec fn node_violation(e: Expr) -> Option<Violation> {
    match e {
        Expr::Cast { data_type: DataType::Categorical, .. } => Some(Violation::CategoricalCast),
        Expr::Column(name) => if name@.len() > 0 {
            Some(Violation::NamedColumn)
        } else {
            None
        },
        _ => None,
    }
}

/// The violation of the first node of `nodes` that has one.
pub open spec fn first_violation(nodes: Seq<Expr>) -> Option<Violation>
    decreases nodes.len(),
{
    if nodes.len() == 0 {
        None
    } else {
        match node_violation(nodes[0]) {
            Some(v) => Some(v),
            None => first_violation(nodes.drop_first()),
        }
    }
}

/// The outcome of validating `e`: the violation of the first offending node
/// in the order of `Expr::nodes`, or success where no node offends.
pub open spec fn verdict(e: Expr) -> Result<(), Violation> {
    match first_violation(e.nodes()) {
        Some(v) => Err(v),
        None => Ok(()),
    }
}

/// Some node of `e` casts to a categorical type.
pub open spec fn has_categorical_cast(e: Expr) -> bool {
    exists|i: int|
        0 <= i < e.nodes().len() && node_violation(#[trigger] e.nodes()[i]) == Some(
            Violation::CategoricalCast,
        )
}

/// Some node of `e` refers to a column by a name that is not empty.
pub open spec fn has_named_column(e: Expr) -> bool {
    exists|i: int|
        0 <= i < e.nodes().len() && node_violation(#[trigger] e.nodes()[i]) == Some(
            Violation::NamedColumn,
        )
}

/// The first violation of a concatenation is that of the left part, and that
/// of the right part where the left part has none.
pub proof fn lemma_first_violation_concat(a: Seq<Expr>, b: Seq<Expr>)
    ensures
        first_violation(a + b) == match first_violation(a) {
            Some(v) => Some(v),
            None => first_violation(b),
        },
    decreases a.len(),
{
    if a.len() > 0 {
        assert((a + b).drop_first() =~= a.drop_first() + b);
        lemma_first_violation_concat(a.drop_first(), b);
    }
}

/// `first_violation` is `None` exactly where no node offends; where it is
/// `Some(v)`, `v` is the violation of a node before which none offends.
pub proof fn lemma_first_violation_scan(nodes: Seq<Expr>)
    ensures
        first_violation(nodes) is None <==> forall|i: int|
            0 <= i < nodes.len() ==> node_violation(#[trigger] nodes[i]) is None,
        first_violation(nodes) is Some ==> exists|i: int|
            0 <= i < nodes.len() && node_violation(#[trigger] nodes[i]) == first_violation(nodes)
                && forall|j: int| 0 <= j < i ==> node_violation(#[trigger] nodes[j]) is None,
    decreases nodes.len(),
{
    if nodes.len() > 0 {
        let rest = nodes.drop_first();
        lemma_first_violation_scan(rest);
        if node_violation(nodes[0]) is None {
            if first_violation(rest) is None {
                assert forall|i: int| 0 <= i < nodes.len() implies node_violation(
                    #[trigger] nodes[i],
                ) is None by {
                    if i > 0 {
                        assert(rest[i - 1] == nodes[i]);
                    }
                }
            } else {
                let k = choose|i: int|
                    0 <= i < rest.len() && node_violation(#[trigger] rest[i]) == first_violation(
                        rest,
                    ) && forall|j: int| 0 <= j < i ==> node_violation(#[trigger] rest[j]) is None;
                assert forall|j: int| 0 <= j < k + 1 implies node_violation(
                    #[trigger] nodes[j],
                ) is None by {
                    if j > 0 {
                        assert(rest[j - 1] == nodes[j]);
                    }
                }
            }
        }
    }
}

/// An expression is accepted exactly where none of its nodes offends, and one
/// that holds an offending node is refused with the violation of such a node.
pub proof fn lemma_verdict(e: Expr)
    ensures
        verdict(e) is Ok <==> !has_categorical_cast(e) && !has_named_column(e),
        verdict(e) == Err::<(), Violation>(Violation::CategoricalCast) ==> has_categorical_cast(e),
        verdict(e) == Err::<(), Violation>(Violation::NamedColumn) ==> has_named_column(e),
{
    lemma_first_violation_scan(e.nodes());
}

/// The nodes that a walk has still to visit when `stack` holds the roots of
/// the subtrees not yet entered, the next one on top (at the end).
pub open spec fn pending(stack: Seq<&Expr>) -> Seq<Expr>
    decreases stack.len(),
{
    if stack.len() == 0 {
        Seq::empty()
    } else {
        stack.last().nodes() + pending(stack.drop_last())
    }
}

proof fn lemma_pending_push(stack: Seq<&Expr>, e: &Expr)
    ensures
        pending(stack.push(e)) == e.nodes() + pending(stack),
{
    assert(stack.push(e).drop_last() =~= stack);
}

/// The violation of one node.
pub fn check_node(e: &Expr) -> (r: Option<Violation>)
    ensures
        r == node_violation(*e),
{
    match e {
        Expr::Cast { data_type: DataType::Categorical, .. } => Some(Violation::CategoricalCast),
        Expr::Column(name) => {
            if !name.as_str().is_empty() {
                Some(Violation::NamedColumn)
            } else {
                None
            }
        },
        _ => None,
    }
}

/// Pushes the trees of `list` so that the first is on top.
fn push_first_on_top<'a>(stack: &mut Vec<&'a Expr>, list: &'a Vec<Expr>)
    ensures
        pending(final(stack)@) == nodes_from(list@, 0) + pending(old(stack)@),
{
    let mut j: usize = list.len();
    while j > 0
        invariant
            j <= list@.len(),
            pending(stack@) == nodes_from(list@, j as nat) + pending(old(stack)@),
        decreases j,
    {
        j = j - 1;
        proof {
            lemma_pending_push(stack@, &list@[j as int]);
            assert(list@[j as int].nodes() + (nodes_from(list@, (j + 1) as nat) + pending(
                old(stack)@,
            )) =~= nodes_from(list@, j as nat) + pending(old(stack)@));
        }
        stack.push(&list[j]);
    }
}

/// Pushes the trees of `list` so that the last is on top.
fn push_last_on_top<'a>(stack: &mut Vec<&'a Expr>, list: &'a Vec<Expr>)
    ensures
        pending(final(stack)@) == nodes_back_from(list@, list@.len()) + pending(old(stack)@),
{
    let n = list.len();
    let mut j: usize = 0;
    while j < n
        invariant
            n == list@.len(),
            j <= n,
            pending(stack@) == nodes_back_from(list@, j as nat) + pending(old(stack)@),
        decreases n - j,
    {
        proof {
            lemma_pending_push(stack@, &list@[j as int]);
            assert(list@[j as int].nodes() + (nodes_back_from(list@, j as nat) + pending(
                old(stack)@,
            )) =~= nodes_back_from(list@, (j + 1) as nat) + pending(old(stack)@));
        }
        stack.push(&list[j]);
        j = j + 1;
    }
}

/// Pushes one tree.
fn push_one<'a>(stack: &mut Vec<&'a Expr>, e: &'a Expr)
    ensures
        pending(final(stack)@) == e.nodes() + pending(old(stack)@),
{
    proof {
        lemma_pending_push(stack@, e);
    }
    stack.push(e);
}

/// Pushes two trees so that `first` is on top.
fn push_two<'a>(stack: &mut Vec<&'a Expr>, first: &'a Expr, second: &'a Expr)
    ensures
        pending(final(stack)@) == first.nodes() + second.nodes() + pending(old(stack)@),
{
    push_one(stack, second);
    push_one(stack, first);
    assert(first.nodes() + (second.nodes() + pending(old(stack)@)) =~= first.nodes()
        + second.nodes() + pending(old(stack)@));
}

/// Pushes three trees so that `first` is on top and `second` below it.
fn push_three<'a>(
    stack: &mut Vec<&'a Expr>,
    first: &'a Expr,
    second: &'a Expr,
    third: &'a Expr,
)
    ensures
        pending(final(stack)@) == first.nodes() + second.nodes() + third.nodes() + pending(
            old(stack)@,
        ),
{
    push_one(stack, third);
    push_two(stack, first, second);
    assert(first.nodes() + second.nodes() + (third.nodes() + pending(old(stack)@))
        =~= first.nodes() + second.nodes() + third.nodes() + pending(old(stack)@));
}

/// Pushes the trees below the node `current`, so that the walk goes on with
/// the nodes below `current` before it turns to what was pending.
fn push_children<'a>(stack: &mut Vec<&'a Expr>, current: &'a Expr)
    ensures
        pending(final(stack)@) == current.nodes().drop_first() + pending(old(stack)@),
{
    let ghost below = current.nodes().drop_first();
    let ghost rest = pending(stack@);
    match current {
        Expr::Column(_)
        | Expr::Columns(_)
        | Expr::DtypeColumn(_)
        | Expr::Literal(_)
        | Expr::Wildcard
        | Expr::Count
        | Expr::Nth(_) => {},
        Expr::Alias(e, _) => push_one(stack, e),
        Expr::Cast { expr: e, .. } => push_one(stack, e),
        Expr::Sort { expr: e, .. } => push_one(stack, e),
        Expr::Agg { input, .. } => push_one(stack, input),
        Expr::Explode(e) => push_one(stack, e),
        Expr::Exclude(e, _) => push_one(stack, e),
        Expr::KeepName(e) => push_one(stack, e),
        Expr::RenameAlias(e) => push_one(stack, e),
        Expr::BinaryExpr { left, right, .. } => push_two(stack, left, right),
        Expr::Take { expr: e, idx } => push_two(stack, e, idx),
        Expr::Filter { input, by } => push_two(stack, input, by),
        Expr::Ternary { predicate, truthy, falsy } => push_three(stack, truthy, falsy, predicate),
        Expr::Slice { input, offset, length } => push_three(stack, input, offset, length),
        Expr::SortBy { expr: e, by, .. } => {
            push_last_on_top(stack, by);
            push_one(stack, e);
        },
        Expr::Window { function, partition_by, order_by } => {
            push_first_on_top(stack, partition_by);
            match order_by {
                Some(e) => {
                    push_two(stack, function, e);
                    assert(function.nodes() + e.nodes() + (nodes_from(partition_by@, 0) + rest)
                        =~= below + rest);
                },
                None => {
                    push_one(stack, function);
                    assert(function.nodes() + (nodes_from(partition_by@, 0) + rest) =~= below
                        + rest);
                },
            }
        },
        Expr::Function { inputs, .. } => push_first_on_top(stack, inputs),
        Expr::AnonymousFunction { inputs, .. } => push_first_on_top(stack, inputs),
    }
}

/// Walks every node of `expr` and refuses the expression at the first node
/// that offends.
pub fn validate(expr: &Expr) -> (r: Result<(), Violation>)
    ensures
        r == verdict(*expr),
{
    let mut stack: Vec<&Expr> = Vec::new();
    push_one(&mut stack, expr);
    while stack.len() > 0
        invariant
            first_violation(pending(stack@)) == first_violation(expr.nodes()),
        decreases pending(stack@).len(),
    {
        let ghost before = stack@;
        let current = stack.pop().unwrap();
        let ghost rest = pending(stack@);
        let ghost below: Seq<Expr> = current.nodes().drop_first();
        proof {
            assert(pending(before) =~= seq![*current] + (below + rest));
            lemma_first_violation_concat(seq![*current], below + rest);
            assert(first_violation(seq![*current]) == node_violation(*current)) by {
                assert(seq![*current].drop_first() =~= Seq::<Expr>::empty());
                assert(first_violation(Seq::<Expr>::empty()) is None);
            }
        }
        if let Some(v) = check_node(current) {
            return Err(v);
        }
        push_children(&mut stack, current);
    }
    Ok(())
}

} // verus!
