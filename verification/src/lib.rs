//! A small expression language of integer arithmetic and boolean logic,
//! evaluated by structural recursion over an abstract syntax tree.
//!
//! The data model makes malformed trees unrepresentable: arithmetic and
//! boolean subtrees are separate types, and every node carries exactly the
//! operands its operator needs. The evaluator is total on every tree whose
//! arithmetic stays within `i64` and never divides by zero; those two fatal
//! conditions are ruled out by precondition rather than handled at run time.

pub mod ast;
pub mod eval;
pub mod laws;
pub mod semantics;

pub use ast::ArithCmpOp;
pub use ast::ArithExpr;
pub use ast::BinArithOp;
pub use ast::BinLogicOp;
pub use ast::BoolExpr;
pub use ast::Expr;
pub use ast::Value;
pub use eval::eval;
pub use eval::eval_arith_expr;
pub use eval::eval_bool_expr;
