//! The lint pass: matcher, resolver, synthesizer and emitter in sequence.
//!
//! The pass keeps no state. The host calls it once for each expression
//! node that it visits. A stage that fails ends the call with no finding
//! and no other effect.

use vstd::prelude::*;
use crate::diagnostic::{missing_abs, Finding, FindingView};
use crate::matcher::{is_subtraction, operand_roles};
use crate::resolver::denotes_epsilon;
use crate::suggestion::{
    abs_applied, chars_of, snippet_or_placeholder, synthesize, text_or_placeholder,
};
use crate::syntax::{Expression, Node, Span};

verus! {

/// The name under which the host registers the lint.
pub const LINT_NAME: &'static str = "float_equality_without_abs";

/// The difference that `node` compares with an epsilon without taking its
/// absolute value, if `node` is such a comparison.
pub open spec fn unguarded_difference(node: Node) -> Option<Node> {
    match operand_roles(node) {
        Some((difference, epsilon)) => if is_subtraction(difference) && denotes_epsilon(epsilon) {
            Some(difference)
        } else {
            None
        },
        None => None,
    }
}

/// What the pass reports for `node` when the host's text for the span of
/// the difference is `snippet`.
pub open spec fn finding_for(node: Node, snippet: Option<Seq<char>>) -> Option<FindingView> {
    match unguarded_difference(node) {
        Some(_) => Some(missing_abs(node.span, abs_applied(text_or_placeholder(snippet)))),
        None => None,
    }
}

/// The mathematical value of an optional finding.
pub open spec fn view_of(finding: Option<Finding>) -> Option<FindingView> {
    match finding {
        Some(finding) => Some(finding@),
        None => None,
    }
}

/// The lint pass that flags `(a - b) < EPSILON` and `EPSILON > (a - b)`.
#[derive(Clone, Copy, Debug)]
pub struct FloatEqualityWithoutAbs;

impl FloatEqualityWithoutAbs {
    /// Runs matcher and resolver: the difference operand of `expr`, if
    /// `expr` compares a bare subtraction with `f32::EPSILON` or
    /// `f64::EPSILON` by `<` or `>`.
    pub fn unguarded_difference<'a>(&self, expr: &'a Expression) -> (found: Option<&'a Expression>)
        ensures
            match found {
                Some(difference) => unguarded_difference(expr@) == Some(difference@),
                None => unguarded_difference(expr@) is None,
            },
    {
        match expr.comparison_operands() {
            Some((difference, epsilon)) => {
                if difference.is_subtraction() && epsilon.is_epsilon() {
                    Some(difference)
                } else {
                    None
                }
            },
            None => None,
        }
    }

    /// Runs synthesizer and emitter: the finding that flags `span`, given
    /// what the host returned as the source text of the difference.
    pub fn report(&self, span: Span, snippet: Option<String>) -> (finding: Finding)
        ensures
            finding@ == missing_abs(span, abs_applied(text_or_placeholder(chars_of(snippet)))),
    {
        let text = snippet_or_placeholder(snippet);
        let suggestion = synthesize(text.as_str());
        Finding::missing_abs(span, suggestion)
    }

    /// The finding for `expr`, given what the host returned as the source
    /// text of its difference operand.
    pub fn finding_with(
        &self,
        expr: &Expression,
        snippet: Option<String>,
    ) -> (finding: Option<Finding>)
        ensures
            view_of(finding) == finding_for(expr@, chars_of(snippet)),
    {
        match self.unguarded_difference(expr) {
            Some(_) => Some(self.report(expr.span, snippet)),
            None => None,
        }
    }

    /// Checks one expression. `snippet_of` is the host's lookup from a span
    /// to the source text it covers; it is asked only when `expr` matches,
    /// and then once, for the span of the difference.
    pub fn check_expr<F: Fn(Span) -> Option<String>>(
        &self,
        snippet_of: F,
        expr: &Expression,
    ) -> (finding: Option<Finding>)
        requires
            unguarded_difference(expr@) matches Some(difference) ==> call_requires(
                snippet_of,
                (difference.span,),
            ),
        ensures
            match unguarded_difference(expr@) {
                Some(difference) => exists|snippet: Option<String>|
                    {
                        &&& #[trigger] call_ensures(snippet_of, (difference.span,), snippet)
                        &&& view_of(finding) == finding_for(expr@, chars_of(snippet))
                    },
                None => finding is None,
            },
    {
        match self.unguarded_difference(expr) {
            Some(difference) => {
                let snippet = snippet_of(difference.span);
                Some(self.report(expr.span, snippet))
            },
            None => None,
        }
    }
}

} // verus!
