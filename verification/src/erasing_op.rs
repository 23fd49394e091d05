//! Binary operations that give zero whatever the other side holds.
//!
//! An operator may have a value that erases the other operand: zero for
//! multiplication, and zero for bitwise `&` on unsigned integers. Where one
//! side is spelled as that value, the whole expression can be replaced by
//! zero. Only literals count; nothing is folded across variables.

use vstd::prelude::*;
use crate::diagnostic::{Diagnostic, DiagnosticView, Severity};
use crate::module::ModuleId;
use crate::syntax::{BinaryOperator, ExprBinary, NumericLiteral, Operand, OperandType};

verus! {

/// The message for an operation that always gives zero.
pub const ERASING_OPERATION: &'static str = "operation can be simplified to zero";

/// The analyzer that looks for erasing operations.
#[derive(Clone, Copy, Debug, PartialEq, Eq, Structural)]
pub struct EraseOp;

/// The value that, as one operand of `op` on type `ty`, fixes the result
/// whatever the other operand is; `None` where the operator has no such
/// value on that type.
pub open spec fn annihilator(op: BinaryOperator, ty: OperandType) -> Option<nat> {
    match op {
        BinaryOperator::Mul => Some(0),
        BinaryOperator::And => if ty.is_unsigned() {
            Some(0)
        } else {
            None
        },
        _ => None,
    }
}

/// The operand is a literal, and its value is the annihilator of `op` on the
/// operand's type.
pub open spec fn annihilates(op: BinaryOperator, operand: Operand) -> bool {
    match operand.literal {
        Some(literal) => annihilator(op, operand.ty) == Some(literal.value()),
        None => false,
    }
}

/// One side of the expression annihilates its operator.
pub open spec fn erases(expr: ExprBinary) -> bool {
    annihilates(expr.op, expr.lhs) || annihilates(expr.op, expr.rhs)
}

/// What the rule reports for a binary expression in a module: nothing, or one
/// warning that covers the whole expression.
pub open spec fn erase_op_diagnostics(expr: ExprBinary, module: ModuleId) -> Seq<DiagnosticView> {
    if erases(expr) {
        seq![
            DiagnosticView {
                message: ERASING_OPERATION@,
                span: expr.span,
                severity: Severity::Warning,
                module,
            },
        ]
    } else {
        Seq::empty()
    }
}

/// The expression with the operand on one side replaced by a literal of the
/// same type.
pub open spec fn with_literal(expr: ExprBinary, left: bool, literal: NumericLiteral) -> ExprBinary {
    if left {
        ExprBinary { lhs: Operand { ty: expr.lhs.ty, literal: Some(literal) }, ..expr }
    } else {
        ExprBinary { rhs: Operand { ty: expr.rhs.ty, literal: Some(literal) }, ..expr }
    }
}

/// The operand is a literal that stands for zero.
pub open spec fn is_zero_literal(operand: Operand) -> bool {
    operand.literal is Some && operand.literal.unwrap().value() == 0
}

/// A multiplication with a literal zero on either side is reported once,
/// whatever the types of its operands.
pub proof fn lemma_multiplication_by_zero_fires(expr: ExprBinary, module: ModuleId)
    requires
        expr.op == BinaryOperator::Mul,
        is_zero_literal(expr.lhs) || is_zero_literal(expr.rhs),
    ensures
        erases(expr),
        erase_op_diagnostics(expr, module).len() == 1,
        erase_op_diagnostics(expr, module)[0].span == expr.span,
        erase_op_diagnostics(expr, module)[0].message == ERASING_OPERATION@,
{
}

/// Where the literal zero of a multiplication is replaced by a literal that
/// is not zero, and the other side is no literal zero either, nothing is
/// reported any more.
pub proof fn lemma_multiplication_by_nonzero_is_silent(
    expr: ExprBinary,
    left: bool,
    literal: NumericLiteral,
    module: ModuleId,
)
    requires
        expr.op == BinaryOperator::Mul,
        is_zero_literal(if left { expr.lhs } else { expr.rhs }),
        !is_zero_literal(if left { expr.rhs } else { expr.lhs }),
        literal.value() != 0,
    ensures
        erases(expr),
        !erases(with_literal(expr, left, literal)),
        erase_op_diagnostics(with_literal(expr, left, literal), module).len() == 0,
{
}

/// Whether the operand is a literal that annihilates the operator.
fn operand_annihilates(op: BinaryOperator, operand: &Operand) -> (hit: bool)
    ensures
        hit == annihilates(op, *operand),
{
    let zero_erases = match op {
        BinaryOperator::Mul => true,
        BinaryOperator::And => operand.ty.is_unsigned(),
        BinaryOperator::Dot
        | BinaryOperator::Not
        | BinaryOperator::MulEq
        | BinaryOperator::Div
        | BinaryOperator::DivEq
        | BinaryOperator::Mod
        | BinaryOperator::ModEq
        | BinaryOperator::Plus
        | BinaryOperator::PlusEq
        | BinaryOperator::Minus
        | BinaryOperator::MinusEq
        | BinaryOperator::EqEq
        | BinaryOperator::Neq
        | BinaryOperator::Eq
        | BinaryOperator::AndAnd
        | BinaryOperator::Or
        | BinaryOperator::OrOr
        | BinaryOperator::Xor
        | BinaryOperator::LE
        | BinaryOperator::GE
        | BinaryOperator::LT
        | BinaryOperator::GT => false,
    };
    if !zero_erases {
        return false;
    }
    match &operand.literal {
        Some(literal) => literal.is_zero(),
        None => false,
    }
}

impl EraseOp {
    /// Looks at one binary expression and reports it if one of its sides
    /// erases the other.
    pub fn check_expr(&self, expr: &ExprBinary, module_id: &ModuleId) -> (found: Option<Diagnostic>)
        ensures
            found is Some <==> erases(*expr),
            found is Some ==> seq![found.unwrap()@] == erase_op_diagnostics(*expr, *module_id),
            found is Some ==> found.unwrap()@ == (DiagnosticView {
                message: ERASING_OPERATION@,
                span: expr.span,
                severity: Severity::Warning,
                module: *module_id,
            }),
    {
        if operand_annihilates(expr.op, &expr.lhs) || operand_annihilates(expr.op, &expr.rhs) {
            Some(
                Diagnostic {
                    message: ERASING_OPERATION.to_owned(),
                    span: expr.span,
                    severity: Severity::Warning,
                    module: *module_id,
                },
            )
        } else {
            None
        }
    }
}

impl Default for EraseOp {
    fn default() -> (analyzer: EraseOp)
        ensures
            analyzer == EraseOp,
    {
        EraseOp
    }
}

} // verus!
