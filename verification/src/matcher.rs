//! Recognising the outer shape: an ordering comparison, and which of its
//! operands plays which role.
//!
//! In `difference < epsilon` the difference stands on the left, in
//! `epsilon > difference` on the right. Every other operator, and every
//! expression that is not binary, is no match.

use vstd::prelude::*;
use crate::syntax::{BinaryOperator, Expression, ExpressionKind, Node, Shape};

verus! {

/// The operands of `node` by role, as the pair (difference, epsilon), if
/// `node` is a `<` or `>` comparison.
pub open spec fn operand_roles(node: Node) -> Option<(Node, Node)> {
    match node.shape {
        Shape::Binary(BinaryOperator::LessThan, left, right) => Some((*left, *right)),
        Shape::Binary(BinaryOperator::GreaterThan, left, right) => Some((*right, *left)),
        _ => None,
    }
}

/// Whether `node` is itself a subtraction, with nothing wrapped around it.
pub open spec fn is_subtraction(node: Node) -> bool {
    node.shape matches Shape::Binary(op, _, _) && op == BinaryOperator::Subtract
}

impl Expression {
    /// Splits a `<` or `>` comparison into the operand that may be a
    /// difference and the operand that may be an epsilon, in this order.
    pub fn comparison_operands(&self) -> (roles: Option<(&Expression, &Expression)>)
        ensures
            match roles {
                Some((difference, epsilon)) => operand_roles(self@) == Some(
                    (difference@, epsilon@),
                ),
                None => operand_roles(self@) is None,
            },
    {
        match &self.kind {
            ExpressionKind::Binary(op, left, right) => match op {
                BinaryOperator::LessThan => Some((&**left, &**right)),
                BinaryOperator::GreaterThan => Some((&**right, &**left)),
                _ => None,
            },
            _ => None,
        }
    }

    /// Whether this expression is a subtraction at its top level.
    pub fn is_subtraction(&self) -> (subtraction: bool)
        ensures
            subtraction == is_subtraction(self@),
    {
        match &self.kind {
            ExpressionKind::Binary(op, _, _) => match op {
                BinaryOperator::Subtract => true,
                _ => false,
            },
            _ => false,
        }
    }
}

} // verus!
