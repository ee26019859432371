use expr_eval::ArithCmpOp;
use expr_eval::ArithExpr;
use expr_eval::BinArithOp;
use expr_eval::BinLogicOp;
use expr_eval::BoolExpr;
use expr_eval::Expr;
use expr_eval::Value;
use expr_eval::eval;

fn lit(n: i64) -> ArithExpr {
    ArithExpr::IntLit(n)
}

fn bin(left: ArithExpr, right: ArithExpr, op: BinArithOp) -> ArithExpr {
    ArithExpr::BinArithExpr { left: Box::new(left), right: Box::new(right), op }
}

fn cmp(left: ArithExpr, right: ArithExpr, op: ArithCmpOp) -> BoolExpr {
    BoolExpr::ArithCmpExpr { left: Box::new(left), right: Box::new(right), op }
}

fn logic(left: BoolExpr, right: BoolExpr, op: BinLogicOp) -> BoolExpr {
    BoolExpr::BinBoolExpr { left: Box::new(left), right: Box::new(right), op }
}

#[test]
fn test_add_negative_operands() {
    let expr = Expr::ArithExpr(bin(lit(-3), lit(5), BinArithOp::AddOp));
    assert_eq!(eval(expr), Value::IntValue(2));
}

#[test]
fn test_sub_goes_negative() {
    let expr = Expr::ArithExpr(bin(lit(2), lit(9), BinArithOp::SubOp));
    assert_eq!(eval(expr), Value::IntValue(-7));
}

#[test]
fn test_mul_negative_operands() {
    let expr = Expr::ArithExpr(bin(lit(-4), lit(-6), BinArithOp::MulOp));
    assert_eq!(eval(expr), Value::IntValue(24));
}

#[test]
fn test_int_div_truncates_toward_zero() {
    let q1 = Expr::ArithExpr(bin(lit(-7), lit(2), BinArithOp::IntDivOp));
    let q2 = Expr::ArithExpr(bin(lit(7), lit(-2), BinArithOp::IntDivOp));
    let q3 = Expr::ArithExpr(bin(lit(-7), lit(-2), BinArithOp::IntDivOp));
    let q4 = Expr::ArithExpr(bin(lit(1), lit(2), BinArithOp::IntDivOp));

    assert_eq!(eval(q1), Value::IntValue(-3));
    assert_eq!(eval(q2), Value::IntValue(-3));
    assert_eq!(eval(q3), Value::IntValue(3));
    assert_eq!(eval(q4), Value::IntValue(0));
}

#[test]
fn test_int_lit_alone() {
    let expr = Expr::ArithExpr(lit(-5));
    assert_eq!(eval(expr), Value::IntValue(-5));
}

#[test]
fn test_arith_at_i64_edges() {
    let keep_max = Expr::ArithExpr(bin(lit(i64::MAX), lit(0), BinArithOp::AddOp));
    let keep_min = Expr::ArithExpr(bin(lit(i64::MIN), lit(1), BinArithOp::IntDivOp));
    let half_min = Expr::ArithExpr(bin(lit(i64::MIN), lit(-2), BinArithOp::IntDivOp));
    let max_by_one = Expr::ArithExpr(bin(lit(i64::MAX), lit(1), BinArithOp::MulOp));

    assert_eq!(eval(keep_max), Value::IntValue(i64::MAX));
    assert_eq!(eval(keep_min), Value::IntValue(i64::MIN));
    assert_eq!(eval(half_min), Value::IntValue(4611686018427387904));
    assert_eq!(eval(max_by_one), Value::IntValue(i64::MAX));
}

#[test]
fn test_cmp_negative_operands() {
    let lt = Expr::BoolExpr(cmp(lit(-3), lit(2), ArithCmpOp::LtOp));
    let gte = Expr::BoolExpr(cmp(lit(-3), lit(-3), ArithCmpOp::GteOp));
    let neq = Expr::BoolExpr(cmp(lit(-1), lit(1), ArithCmpOp::ArithNeqOp));

    assert_eq!(eval(lt), Value::BoolValue(true));
    assert_eq!(eval(gte), Value::BoolValue(true));
    assert_eq!(eval(neq), Value::BoolValue(true));
}

#[test]
fn test_nested_arith() {
    // (1 + 2) * 3
    let sum = bin(lit(1), lit(2), BinArithOp::AddOp);
    let expr = Expr::ArithExpr(bin(sum, lit(3), BinArithOp::MulOp));
    assert_eq!(eval(expr), Value::IntValue(9));
}

#[test]
fn test_nested_bool() {
    // (2 < 4) && !(3 == 3)
    let left = cmp(lit(2), lit(4), ArithCmpOp::LtOp);
    let right = BoolExpr::NotExpr(Box::new(cmp(lit(3), lit(3), ArithCmpOp::ArithEqOp)));
    let expr = Expr::BoolExpr(logic(left, right, BinLogicOp::AndOp));
    assert_eq!(eval(expr), Value::BoolValue(false));
}

#[test]
fn test_not_false() {
    let expr = Expr::BoolExpr(BoolExpr::NotExpr(Box::new(BoolExpr::BoolLit(false))));
    assert_eq!(eval(expr), Value::BoolValue(true));
}

#[test]
fn test_reevaluation_is_identical() {
    let build = || {
        Expr::ArithExpr(bin(
            bin(lit(8), lit(3), BinArithOp::SubOp),
            lit(-2),
            BinArithOp::MulOp,
        ))
    };
    let first = eval(build());
    let second = eval(build());
    assert_eq!(first, second);
    assert_eq!(first, Value::IntValue(-10));
}
