//! The evaluator: a pure structural fold that reduces a tree to a scalar.
//!
//! Each function requires its tree to be fatal-free (`expr_in_bounds` and
//! friends), so no evaluation can divide by zero or overflow, and ensures
//! that the result is exactly the mathematical value the semantics assign.
//! The result is a function of the tree alone, so re-evaluating an equal
//! tree always yields an identical result.

use crate::ast::ArithCmpOp;
use crate::ast::ArithExpr;
use crate::ast::BinArithOp;
use crate::ast::BinLogicOp;
use crate::ast::BoolExpr;
use crate::ast::Expr;
use crate::ast::Value;
use crate::semantics::arith_in_bounds;
use crate::semantics::arith_value;
use crate::semantics::bool_in_bounds;
use crate::semantics::bool_value;
use crate::semantics::expr_in_bounds;
use crate::semantics::expr_value;
use crate::semantics::lemma_div_trunc_in_range;
use vstd::prelude::*;

verus! {

/// Evaluate a top-level expression to its `Value`.
pub fn eval(expr: Expr) -> (result: Value)
    requires
        expr_in_bounds(expr),
    ensures
        result == expr_value(expr),
{
    match expr {
        Expr::ArithExpr(arith_expr) => Value::IntValue(eval_arith_expr(arith_expr)),
        Expr::BoolExpr(bool_expr) => Value::BoolValue(eval_bool_expr(bool_expr)),
    }
}

/// Evaluate an arithmetic tree to its 64-bit integer value, left subtree
/// before right. Division truncates toward zero.
pub fn eval_arith_expr(arith_expr: ArithExpr) -> (result: i64)
    requires
        arith_in_bounds(arith_expr),
    ensures
        result == arith_value(arith_expr),
    decreases arith_expr,
{
    match arith_expr {
        ArithExpr::BinArithExpr { left, right, op } => {
            let l: i64 = eval_arith_expr(*left);
            let r: i64 = eval_arith_expr(*right);
            match op {
                BinArithOp::AddOp => l + r,
                BinArithOp::SubOp => l - r,
                BinArithOp::MulOp => l * r,
                BinArithOp::IntDivOp => {
                    proof {
                        lemma_div_trunc_in_range(l as int, r as int);
                    }
                    l.checked_div(r).unwrap()
                },
            }
        },
        ArithExpr::IntLit(int_lit) => int_lit,
    }
}

/// Evaluate a boolean tree to its boolean value, left subtree before right.
/// Both operands of a binary boolean operator are always evaluated.
pub fn eval_bool_expr(bool_expr: BoolExpr) -> (result: bool)
    requires
        bool_in_bounds(bool_expr),
    ensures
        result == bool_value(bool_expr),
    decreases bool_expr,
{
    match bool_expr {
        BoolExpr::ArithCmpExpr { left, right, op } => {
            let l: i64 = eval_arith_expr(*left);
            let r: i64 = eval_arith_expr(*right);
            match op {
                ArithCmpOp::LtOp => l < r,
                ArithCmpOp::LteOp => l <= r,
                ArithCmpOp::GtOp => l > r,
                ArithCmpOp::GteOp => l >= r,
                ArithCmpOp::ArithEqOp => l == r,
                ArithCmpOp::ArithNeqOp => l != r,
            }
        },
        BoolExpr::BinBoolExpr { left, right, op } => {
            let l: bool = eval_bool_expr(*left);
            let r: bool = eval_bool_expr(*right);
            match op {
                BinLogicOp::AndOp => l && r,
                BinLogicOp::OrOp => l || r,
                BinLogicOp::BoolEqOp => l == r,
                BinLogicOp::BoolNeqOp => l != r,
            }
        },
        BoolExpr::NotExpr(inner) => !eval_bool_expr(*inner),
        BoolExpr::BoolLit(bool_lit) => bool_lit,
    }
}

} // verus!
