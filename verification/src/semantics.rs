//! The mathematical meaning of expressions.
//!
//! `arith_value`, `bool_value` and `expr_value` give each tree its value over
//! unbounded integers; `arith_in_bounds`, `bool_in_bounds` and
//! `expr_in_bounds` say that no operation anywhere in the tree divides by
//! zero or leaves the `i64` range. Those predicates carve out exactly the
//! trees on which evaluation is fatal-free, so the executable evaluator
//! requires them and is then proved to return the value given here.

use crate::ast::ArithCmpOp;
use crate::ast::ArithExpr;
use crate::ast::BinArithOp;
use crate::ast::BinLogicOp;
use crate::ast::BoolExpr;
use crate::ast::Expr;
use crate::ast::Value;
use vstd::arithmetic::div_mod::lemma_div_basics;
use vstd::arithmetic::div_mod::lemma_div_is_ordered;
use vstd::arithmetic::div_mod::lemma_div_is_ordered_by_denominator;
use vstd::arithmetic::div_mod::lemma_div_nonincreasing;
use vstd::arithmetic::div_mod::lemma_div_pos_is_pos;
use vstd::prelude::*;

verus! {

/// Integer division truncating toward zero, as Rust's `/` computes it on
/// signed integers. (The `/` of specifications is Euclidean division, which
/// differs on negative operands.) Unspecified when `b == 0`.
pub open spec fn div_trunc(a: int, b: int) -> int {
    if a == 0 {
        0
    } else if a > 0 && b > 0 {
        a / b
    } else if a < 0 && b < 0 {
        (a * -1) / (b * -1)
    } else if a < 0 {
        ((a * -1) / b) * -1
    } else {
        (a / (b * -1)) * -1
    }
}

/// The result of one arithmetic operator on two integer operands.
pub open spec fn apply_bin_arith(op: BinArithOp, l: int, r: int) -> int {
    match op {
        BinArithOp::AddOp => l + r,
        BinArithOp::SubOp => l - r,
        BinArithOp::MulOp => l * r,
        BinArithOp::IntDivOp => div_trunc(l, r),
    }
}

/// Whether one arithmetic operation on `i64` operands is fatal-free: the
/// result stays in the `i64` range, and a division has a nonzero divisor.
/// For division the only overflow is `i64::MIN / -1`.
pub open spec fn bin_arith_fits(op: BinArithOp, l: int, r: int) -> bool {
    match op {
        BinArithOp::AddOp => i64::MIN <= l + r <= i64::MAX,
        BinArithOp::SubOp => i64::MIN <= l - r <= i64::MAX,
        BinArithOp::MulOp => i64::MIN <= l * r <= i64::MAX,
        BinArithOp::IntDivOp => r != 0 && !(l == i64::MIN && r == -1),
    }
}

/// The result of one comparison operator on two integer operands.
pub open spec fn apply_arith_cmp(op: ArithCmpOp, l: int, r: int) -> bool {
    match op {
        ArithCmpOp::LtOp => l < r,
        ArithCmpOp::LteOp => l <= r,
        ArithCmpOp::GtOp => l > r,
        ArithCmpOp::GteOp => l >= r,
        ArithCmpOp::ArithEqOp => l == r,
        ArithCmpOp::ArithNeqOp => l != r,
    }
}

/// The result of one boolean operator on two boolean operands.
pub open spec fn apply_bin_logic(op: BinLogicOp, l: bool, r: bool) -> bool {
    match op {
        BinLogicOp::AndOp => l && r,
        BinLogicOp::OrOp => l || r,
        BinLogicOp::BoolEqOp => l == r,
        BinLogicOp::BoolNeqOp => l != r,
    }
}

/// The value of an arithmetic tree, over unbounded integers.
pub open spec fn arith_value(e: ArithExpr) -> int
    decreases e,
{
    match e {
        ArithExpr::BinArithExpr { left, right, op } => apply_bin_arith(
            op,
            arith_value(*left),
            arith_value(*right),
        ),
        ArithExpr::IntLit(n) => n as int,
    }
}

/// Whether every operation in an arithmetic tree is fatal-free.
pub open spec fn arith_in_bounds(e: ArithExpr) -> bool
    decreases e,
{
    match e {
        ArithExpr::BinArithExpr { left, right, op } => arith_in_bounds(*left)
            && arith_in_bounds(*right) && bin_arith_fits(
            op,
            arith_value(*left),
            arith_value(*right),
        ),
        ArithExpr::IntLit(n) => true,
    }
}

/// The value of a boolean tree.
pub open spec fn bool_value(e: BoolExpr) -> bool
    decreases e,
{
    match e {
        BoolExpr::ArithCmpExpr { left, right, op } => apply_arith_cmp(
            op,
            arith_value(*left),
            arith_value(*right),
        ),
        BoolExpr::BinBoolExpr { left, right, op } => apply_bin_logic(
            op,
            bool_value(*left),
            bool_value(*right),
        ),
        BoolExpr::NotExpr(inner) => !bool_value(*inner),
        BoolExpr::BoolLit(b) => b,
    }
}

/// Whether every arithmetic operation under a boolean tree is fatal-free.
/// Comparisons and boolean operators themselves cannot fail.
pub open spec fn bool_in_bounds(e: BoolExpr) -> bool
    decreases e,
{
    match e {
        BoolExpr::ArithCmpExpr { left, right, op } => arith_in_bounds(*left) && arith_in_bounds(
            *right,
        ),
        BoolExpr::BinBoolExpr { left, right, op } => bool_in_bounds(*left) && bool_in_bounds(
            *right,
        ),
        BoolExpr::NotExpr(inner) => bool_in_bounds(*inner),
        BoolExpr::BoolLit(b) => true,
    }
}

/// The truncating quotient of two in-range `i64` operands itself fits in
/// `i64`: the magnitude of a quotient never exceeds the magnitude of the
/// dividend, and the one exception at the edge, `i64::MIN / -1`, is excluded
/// by precondition.
pub proof fn lemma_div_trunc_in_range(a: int, b: int)
    requires
        i64::MIN <= a <= i64::MAX,
        i64::MIN <= b <= i64::MAX,
        b != 0,
        !(a == i64::MIN && b == -1),
    ensures
        i64::MIN <= div_trunc(a, b) <= i64::MAX,
{
    let pa: int = if a >= 0 { a } else { a * -1 };
    let pb: int = if b >= 0 { b } else { b * -1 };
    assert(div_trunc(a, b) == pa / pb || div_trunc(a, b) == (pa / pb) * -1);
    lemma_div_pos_is_pos(pa, pb);
    lemma_div_nonincreasing(pa, pb);
    if pb == 1 {
        lemma_div_basics(pa);
    } else {
        lemma_div_is_ordered_by_denominator(pa, 2, pb);
        lemma_div_is_ordered(pa, 0x8000_0000_0000_0000, 2);
        assert(pa / pb <= 0x4000_0000_0000_0000);
    }
}

/// The value of a top-level expression.
pub open spec fn expr_value(e: Expr) -> Value {
    match e {
        Expr::ArithExpr(a) => Value::IntValue(arith_value(a) as i64),
        Expr::BoolExpr(b) => Value::BoolValue(bool_value(b)),
    }
}

/// Whether every operation in a top-level expression is fatal-free.
pub open spec fn expr_in_bounds(e: Expr) -> bool {
    match e {
        Expr::ArithExpr(a) => arith_in_bounds(a),
        Expr::BoolExpr(b) => bool_in_bounds(b),
    }
}

} // verus!
