//! The abstract syntax tree of the expression language.
//!
//! Trees are finite and acyclic by construction: every node owns its
//! children outright, and the two expression families (`ArithExpr`,
//! `BoolExpr`) only meet where a comparison consumes two arithmetic
//! subtrees and produces a boolean.

use vstd::prelude::*;

verus! {

/// A top-level expression: either arithmetic or boolean.
pub enum Expr {
    ArithExpr(ArithExpr),
    BoolExpr(BoolExpr),
}

/// An arithmetic expression, reducing to a 64-bit signed integer.
pub enum ArithExpr {
    BinArithExpr { left: Box<ArithExpr>, right: Box<ArithExpr>, op: BinArithOp },
    IntLit(i64),
}

/// A boolean expression, reducing to a boolean.
#[allow(inconsistent_fields)]
pub enum BoolExpr {
    ArithCmpExpr { left: Box<ArithExpr>, right: Box<ArithExpr>, op: ArithCmpOp },
    BinBoolExpr { left: Box<BoolExpr>, right: Box<BoolExpr>, op: BinLogicOp },
    NotExpr(Box<BoolExpr>),
    BoolLit(bool),
}

/// A binary arithmetic operator.
pub enum BinArithOp {
    AddOp,
    SubOp,
    MulOp,
    IntDivOp,
}

/// A comparison operator on two integers.
pub enum ArithCmpOp {
    LtOp,
    LteOp,
    GtOp,
    GteOp,
    ArithEqOp,
    ArithNeqOp,
}

/// A binary boolean operator. Both operands are always evaluated:
/// the language has no short-circuiting.
pub enum BinLogicOp {
    AndOp,
    OrOp,
    BoolEqOp,
    BoolNeqOp,
}

/// The result of evaluating an expression.
#[derive(Debug, PartialEq, Eq, Structural)]
pub enum Value {
    BoolValue(bool),
    IntValue(i64),
}

} // verus!
