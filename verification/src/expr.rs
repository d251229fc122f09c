//! The expression tree that the engine inspects.
//!
//! The engine reads the shape of an expression, never its meaning: what an
//! expression computes is the business of the compiler and the evaluator.

use vstd::prelude::*;
use crate::dtype::DataType;

verus! {

/// A binary operator.
#[derive(Debug, Clone, Copy, PartialEq, Eq)]
pub enum Operator {
    Eq,
    NotEq,
    Lt,
    LtEq,
    Gt,
    GtEq,
    Plus,
    Minus,
    Multiply,
    Divide,
    TrueDivide,
    FloorDivide,
    Modulus,
    And,
    Or,
    Xor,
}

/// A constant in an expression. A floating-point constant is held by the bits
/// of its IEEE 754 encoding.
#[derive(Debug, PartialEq, Eq)]
pub enum LiteralValue {
    Null,
    Boolean(bool),
    Utf8(String),
    UInt32(u32),
    UInt64(u64),
    Int32(i32),
    Int64(i64),
    Float32Bits(u32),
    Float64Bits(u64),
    /// A constant of any other kind.
    Other,
}

/// An aggregation of one input.
#[derive(Debug, Clone, Copy, PartialEq, Eq)]
pub enum AggFunction {
    Min,
    Max,
    Median,
    NUnique,
    First,
    Last,
    Mean,
    List,
    Count,
    Quantile,
    Sum,
    AggGroups,
    Std,
    Var,
}

/// What a user-defined function node does when it is run.
#[derive(Debug, PartialEq, Eq)]
pub enum Transform {
    /// Evaluate `evaluation` on every element of the list column that is the
    /// node's input.
    ListEval { evaluation: Box<Expr>, parallel: bool },
    /// A function that the engine knows nothing about.
    Opaque,
}

/// An expression: a tree with one variant for each kind of node.
#[derive(Debug, PartialEq, Eq)]
#[allow(inconsistent_fields)]
pub enum Expr {
    Alias(Box<Expr>, String),
    /// A reference to a column by name. The empty name stands for the element
    /// that is currently being evaluated.
    Column(String),
    Columns(Vec<String>),
    DtypeColumn(Vec<DataType>),
    Literal(LiteralValue),
    BinaryExpr { left: Box<Expr>, op: Operator, right: Box<Expr> },
    Cast { expr: Box<Expr>, data_type: DataType, strict: bool },
    Sort { expr: Box<Expr>, descending: bool },
    Take { expr: Box<Expr>, idx: Box<Expr> },
    SortBy { expr: Box<Expr>, by: Vec<Expr>, reverse: Vec<bool> },
    Agg { input: Box<Expr>, function: AggFunction },
    Ternary { predicate: Box<Expr>, truthy: Box<Expr>, falsy: Box<Expr> },
    /// A built-in function, known by its name.
    Function { inputs: Vec<Expr>, function: String },
    Explode(Box<Expr>),
    Filter { input: Box<Expr>, by: Box<Expr> },
    Window { function: Box<Expr>, partition_by: Vec<Expr>, order_by: Option<Box<Expr>> },
    Wildcard,
    Slice { input: Box<Expr>, offset: Box<Expr>, length: Box<Expr> },
    Exclude(Box<Expr>, Vec<String>),
    KeepName(Box<Expr>),
    RenameAlias(Box<Expr>),
    Count,
    Nth(i64),
    /// A user-defined function of the inputs, shown as `fmt_str`. What stands
    /// inside `function` is the function's own matter and no input of the
    /// node: a walk over the tree does not enter it.
    AnonymousFunction { inputs: Vec<Expr>, function: Transform, fmt_str: String },
}

impl Expr {
    /// Every node of the tree, in the order in which a walk from the root
    /// meets them: a node comes before all nodes below it, and the subtrees
    /// below a node follow one another in an order that depends on the kind of
    /// the node.
    pub open spec fn nodes(self) -> Seq<Expr>
        decreases self,
    {
        seq![self] + match self {
            Expr::Alias(e, _) => e.nodes(),
            Expr::Column(_) => Seq::empty(),
            Expr::Columns(_) => Seq::empty(),
            Expr::DtypeColumn(_) => Seq::empty(),
            Expr::Literal(_) => Seq::empty(),
            Expr::BinaryExpr { left, right, .. } => left.nodes() + right.nodes(),
            Expr::Cast { expr, .. } => expr.nodes(),
            Expr::Sort { expr, .. } => expr.nodes(),
            Expr::Take { expr, idx } => expr.nodes() + idx.nodes(),
            Expr::SortBy { expr, by, .. } => expr.nodes() + nodes_back_from(by@, by@.len()),
            Expr::Agg { input, .. } => input.nodes(),
            Expr::Ternary { predicate, truthy, falsy } => truthy.nodes() + falsy.nodes()
                + predicate.nodes(),
            Expr::Function { inputs, .. } => nodes_from(inputs@, 0),
            Expr::Explode(e) => e.nodes(),
            Expr::Filter { input, by } => input.nodes() + by.nodes(),
            Expr::Window { function, partition_by, order_by } => function.nodes() + (match order_by {
                Some(e) => e.nodes(),
                None => Seq::empty(),
            }) + nodes_from(partition_by@, 0),
            Expr::Wildcard => Seq::empty(),
            Expr::Slice { input, offset, length } => input.nodes() + offset.nodes()
                + length.nodes(),
            Expr::Exclude(e, _) => e.nodes(),
            Expr::KeepName(e) => e.nodes(),
            Expr::RenameAlias(e) => e.nodes(),
            Expr::Count => Seq::empty(),
            Expr::Nth(_) => Seq::empty(),
            Expr::AnonymousFunction { inputs, .. } => nodes_from(inputs@, 0),
        }
    }
}

/// The nodes of the trees `list[from]`, `list[from + 1]`, and so on to the
/// last, tree after tree.
pub open spec fn nodes_from(list: Seq<Expr>, from: nat) -> Seq<Expr>
    decreases list, list.len() - from,
{
    if from >= list.len() {
        Seq::empty()
    } else {
        list[from as int].nodes() + nodes_from(list, from + 1)
    }
}

/// The nodes of the trees `list[upto - 1]`, `list[upto - 2]`, and so on down
/// to `list[0]`, tree after tree.
pub open spec fn nodes_back_from(list: Seq<Expr>, upto: nat) -> Seq<Expr>
    decreases list, upto,
{
    if upto == 0 || upto > list.len() {
        Seq::empty()
    } else {
        list[upto - 1].nodes() + nodes_back_from(list, (upto - 1) as nat)
    }
}

} // verus!
