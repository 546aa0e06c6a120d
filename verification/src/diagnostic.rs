//! What the lint reports: one [`Finding`] for each flagged expression.

use vstd::prelude::*;
use crate::syntax::Span;

verus! {

/// How safe it is to apply a suggested fix without a human looking at it.
#[derive(Clone, Copy, Debug, PartialEq, Eq, Structural)]
pub enum Applicability {
    /// The fix is what the user intended and can be applied mechanically.
    MachineApplicable,
    /// The fix may be what the user intended, but that is uncertain.
    MaybeIncorrect,
    /// The fix contains placeholders and cannot be applied as it is.
    HasPlaceholders,
    /// Nothing is known about the fix.
    Unspecified,
}

/// The message of every finding of this lint.
pub const MESSAGE: &'static str = "float equality check without `.abs()`";

/// The label under which the fix is offered.
pub const FIX_LABEL: &'static str = "add `.abs()`";

/// A diagnostic with a suggested replacement for the flagged region.
#[derive(Clone, Debug, PartialEq, Eq)]
pub struct Finding {
    /// The region of the flagged expression, which the fix applies to.
    pub span: Span,
    /// What is wrong.
    pub message: &'static str,
    /// What the fix does.
    pub label: &'static str,
    /// The replacement text.
    pub suggestion: String,
    /// How far the fix can be trusted.
    pub applicability: Applicability,
}

/// The mathematical value of a [`Finding`].
pub ghost struct FindingView {
    pub span: Span,
    pub message: Seq<char>,
    pub label: Seq<char>,
    pub suggestion: Seq<char>,
    pub applicability: Applicability,
}

impl View for Finding {
    type V = FindingView;

    open spec fn view(&self) -> FindingView {
        FindingView {
            span: self.span,
            message: self.message@,
            label: self.label@,
            suggestion: self.suggestion@,
            applicability: self.applicability,
        }
    }
}

/// The finding that flags `span` and offers `suggestion` in its place.
///
/// The fix is usually right, but where the caller knows how the operands
/// are ordered it is not needed, so it is never marked as safe to apply
/// mechanically.
pub open spec fn missing_abs(span: Span, suggestion: Seq<char>) -> FindingView {
    FindingView {
        span,
        message: MESSAGE@,
        label: FIX_LABEL@,
        suggestion,
        applicability: Applicability::MaybeIncorrect,
    }
}

impl Finding {
    /// Packages a flagged region and its replacement text.
    pub fn missing_abs(span: Span, suggestion: String) -> (finding: Finding)
        ensures
            finding@ == missing_abs(span, suggestion@),
    {
        Finding {
            span,
            message: MESSAGE,
            label: FIX_LABEL,
            suggestion,
            applicability: Applicability::MaybeIncorrect,
        }
    }
}

} // verus!
