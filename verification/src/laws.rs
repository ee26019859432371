//! Laws of the evaluator, stated over the semantics and proved once for all
//! inputs: literal trees evaluate by the native operator tables, evaluation
//! is pure, fatal-free arithmetic always fits in `i64`, and division by a
//! zero literal is fatal for every dividend.

use crate::ast::ArithCmpOp;
use crate::ast::ArithExpr;
use crate::ast::BinArithOp;
use crate::ast::BinLogicOp;
use crate::ast::BoolExpr;
use crate::ast::Expr;
use crate::semantics::arith_in_bounds;
use crate::semantics::arith_value;
use crate::semantics::bool_in_bounds;
use crate::semantics::bool_value;
use crate::semantics::div_trunc;
use crate::semantics::expr_value;
use crate::semantics::lemma_div_trunc_in_range;
use vstd::prelude::*;

verus! {

/// Adding two integer literals evaluates to their sum: whenever `a + b`
/// fits in `i64`, the tree `IntLit(a) + IntLit(b)` is fatal-free and its
/// value is `a + b`.
pub proof fn lemma_eval_add_literals(a: i64, b: i64)
    requires
        i64::MIN <= a + b <= i64::MAX,
    ensures
        ({
            let e = ArithExpr::BinArithExpr {
                left: Box::new(ArithExpr::IntLit(a)),
                right: Box::new(ArithExpr::IntLit(b)),
                op: BinArithOp::AddOp,
            };
            arith_in_bounds(e) && arith_value(e) == a + b
        }),
{
    assert(arith_value(ArithExpr::IntLit(a)) == a);
    assert(arith_value(ArithExpr::IntLit(b)) == b);
    assert(arith_in_bounds(ArithExpr::IntLit(a)));
    assert(arith_in_bounds(ArithExpr::IntLit(b)));
}

/// Subtracting two integer literals evaluates to their difference whenever
/// `a - b` fits in `i64`.
pub proof fn lemma_eval_sub_literals(a: i64, b: i64)
    requires
        i64::MIN <= a - b <= i64::MAX,
    ensures
        ({
            let e = ArithExpr::BinArithExpr {
                left: Box::new(ArithExpr::IntLit(a)),
                right: Box::new(ArithExpr::IntLit(b)),
                op: BinArithOp::SubOp,
            };
            arith_in_bounds(e) && arith_value(e) == a - b
        }),
{
    assert(arith_value(ArithExpr::IntLit(a)) == a);
    assert(arith_value(ArithExpr::IntLit(b)) == b);
    assert(arith_in_bounds(ArithExpr::IntLit(a)));
    assert(arith_in_bounds(ArithExpr::IntLit(b)));
}

/// Multiplying two integer literals evaluates to their product whenever
/// `a * b` fits in `i64`.
pub proof fn lemma_eval_mul_literals(a: i64, b: i64)
    requires
        i64::MIN <= a * b <= i64::MAX,
    ensures
        ({
            let e = ArithExpr::BinArithExpr {
                left: Box::new(ArithExpr::IntLit(a)),
                right: Box::new(ArithExpr::IntLit(b)),
                op: BinArithOp::MulOp,
            };
            arith_in_bounds(e) && arith_value(e) == a * b
        }),
{
    assert(arith_value(ArithExpr::IntLit(a)) == a);
    assert(arith_value(ArithExpr::IntLit(b)) == b);
    assert(arith_in_bounds(ArithExpr::IntLit(a)));
    assert(arith_in_bounds(ArithExpr::IntLit(b)));
}

/// Dividing two integer literals evaluates to their quotient truncated
/// toward zero, for every nonzero divisor except the one overflowing pair
/// `i64::MIN / -1`.
pub proof fn lemma_eval_int_div_literals(a: i64, b: i64)
    requires
        b != 0,
        !(a == i64::MIN && b == -1),
    ensures
        ({
            let e = ArithExpr::BinArithExpr {
                left: Box::new(ArithExpr::IntLit(a)),
                right: Box::new(ArithExpr::IntLit(b)),
                op: BinArithOp::IntDivOp,
            };
            arith_in_bounds(e) && arith_value(e) == div_trunc(a as int, b as int)
        }),
{
    assert(arith_value(ArithExpr::IntLit(a)) == a);
    assert(arith_value(ArithExpr::IntLit(b)) == b);
    assert(arith_in_bounds(ArithExpr::IntLit(a)));
    assert(arith_in_bounds(ArithExpr::IntLit(b)));
}

/// Comparing two integer literals matches the native comparison on the two
/// integers, for each comparison operator. Comparisons are total: no
/// precondition is needed.
pub proof fn lemma_eval_cmp_literals(a: i64, b: i64, op: ArithCmpOp)
    ensures
        ({
            let e = BoolExpr::ArithCmpExpr {
                left: Box::new(ArithExpr::IntLit(a)),
                right: Box::new(ArithExpr::IntLit(b)),
                op: op,
            };
            &&& bool_in_bounds(e)
            &&& bool_value(e) == match op {
                ArithCmpOp::LtOp => a < b,
                ArithCmpOp::LteOp => a <= b,
                ArithCmpOp::GtOp => a > b,
                ArithCmpOp::GteOp => a >= b,
                ArithCmpOp::ArithEqOp => a == b,
                ArithCmpOp::ArithNeqOp => a != b,
            }
        }),
{
}

/// Combining two boolean literals matches the native truth table of each
/// boolean operator.
pub proof fn lemma_eval_logic_literals(p: bool, q: bool, op: BinLogicOp)
    ensures
        ({
            let e = BoolExpr::BinBoolExpr {
                left: Box::new(BoolExpr::BoolLit(p)),
                right: Box::new(BoolExpr::BoolLit(q)),
                op: op,
            };
            &&& bool_in_bounds(e)
            &&& bool_value(e) == match op {
                BinLogicOp::AndOp => p && q,
                BinLogicOp::OrOp => p || q,
                BinLogicOp::BoolEqOp => p == q,
                BinLogicOp::BoolNeqOp => p != q,
            }
        }),
{
    assert(bool_value(BoolExpr::BoolLit(p)) == p);
    assert(bool_value(BoolExpr::BoolLit(q)) == q);
    assert(bool_in_bounds(BoolExpr::BoolLit(p)));
    assert(bool_in_bounds(BoolExpr::BoolLit(q)));
}

/// Negating a boolean literal evaluates to its logical negation.
pub proof fn lemma_eval_not_literal(p: bool)
    ensures
        bool_in_bounds(BoolExpr::NotExpr(Box::new(BoolExpr::BoolLit(p)))),
        bool_value(BoolExpr::NotExpr(Box::new(BoolExpr::BoolLit(p)))) == !p,
{
    assert(bool_value(BoolExpr::BoolLit(p)) == p);
    assert(bool_in_bounds(BoolExpr::BoolLit(p)));
}

/// Evaluation is pure: the value of a tree is a function of the tree alone.
/// Since `eval` ensures its result equals `expr_value` of its input, two
/// evaluations of equal trees always yield identical results.
pub proof fn lemma_eval_pure(e1: Expr, e2: Expr)
    requires
        e1 == e2,
    ensures
        expr_value(e1) == expr_value(e2),
{
}

/// Division by a zero literal is fatal for every dividend: no such tree is
/// fatal-free, so no precondition of the evaluator admits it.
pub proof fn lemma_div_by_zero_fatal(x: i64)
    ensures
        ({
            let e = ArithExpr::BinArithExpr {
                left: Box::new(ArithExpr::IntLit(x)),
                right: Box::new(ArithExpr::IntLit(0)),
                op: BinArithOp::IntDivOp,
            };
            !arith_in_bounds(e)
        }),
{
}

/// Arithmetic trees only ever reduce to 64-bit signed integers: the
/// mathematical value of every fatal-free arithmetic tree fits in `i64`.
pub proof fn lemma_arith_value_fits(e: ArithExpr)
    requires
        arith_in_bounds(e),
    ensures
        i64::MIN <= arith_value(e) <= i64::MAX,
    decreases e,
{
    match e {
        ArithExpr::BinArithExpr { left, right, op } => {
            lemma_arith_value_fits(*left);
            lemma_arith_value_fits(*right);
            match op {
                BinArithOp::IntDivOp => {
                    lemma_div_trunc_in_range(arith_value(*left), arith_value(*right));
                },
                _ => {
                },
            }
        },
        ArithExpr::IntLit(n) => {
        },
    }
}

} // verus!
