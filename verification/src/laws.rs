//! What holds of the pass on every input.

use vstd::prelude::*;
use crate::diagnostic::{missing_abs, Applicability, FIX_LABEL, MESSAGE};
use crate::matcher::{is_subtraction, operand_roles};
use crate::pass::{finding_for, unguarded_difference};
use crate::resolver::denotes_epsilon;
use crate::suggestion::{abs_applied, text_or_placeholder};
use crate::syntax::{BinaryOperator, Node, Shape, Span};

verus! {

/// An expression is flagged if and only if every stage succeeds on it: it
/// is a `<` or `>` comparison, its difference operand is a subtraction, and
/// its epsilon operand names a recognised constant.
pub proof fn lemma_flagged_iff_every_stage_succeeds(node: Node, snippet: Option<Seq<char>>)
    ensures
        finding_for(node, snippet) is Some <==> unguarded_difference(node) is Some,
        unguarded_difference(node) is Some <==> (operand_roles(node) matches
            Some((difference, epsilon)) && is_subtraction(difference) && denotes_epsilon(epsilon)),
        unguarded_difference(node) matches Some(difference) ==> operand_roles(node) matches
            Some((first, _)) && first == difference,
{
}

/// An expression that is not a `<` or `>` comparison is never flagged.
pub proof fn lemma_only_ordering_comparisons_flagged(node: Node, snippet: Option<Seq<char>>)
    requires
        !(node.shape matches Shape::Binary(op, _, _) && (op == BinaryOperator::LessThan || op
            == BinaryOperator::GreaterThan)),
    ensures
        unguarded_difference(node) is None,
        finding_for(node, snippet) is None,
{
}

/// A `<` or `>` comparison whose difference operand is not a subtraction
/// at its top level is never flagged.
pub proof fn lemma_difference_must_be_subtraction(node: Node, snippet: Option<Seq<char>>)
    requires
        operand_roles(node) matches Some((difference, _)) && !(difference.shape matches
            Shape::Binary(op, _, _) && op == BinaryOperator::Subtract),
    ensures
        unguarded_difference(node) is None,
        finding_for(node, snippet) is None,
{
}

/// A `<` or `>` comparison whose epsilon operand is not exactly the path
/// `f32::EPSILON` or `f64::EPSILON` is never flagged.
pub proof fn lemma_epsilon_must_be_exact(node: Node, snippet: Option<Seq<char>>)
    requires
        operand_roles(node) matches Some((_, epsilon)) && !(epsilon.shape matches Shape::Path(path)
            && (path == seq!["f32"@, "EPSILON"@] || path == seq!["f64"@, "EPSILON"@])),
    ensures
        unguarded_difference(node) is None,
        finding_for(node, snippet) is None,
{
}

/// `difference < epsilon` and `epsilon > difference` are treated alike:
/// the same operand is taken for the difference, and the findings are
/// equal.
pub proof fn lemma_operator_symmetry(
    span: Span,
    difference: Node,
    epsilon: Node,
    snippet: Option<Seq<char>>,
)
    ensures
        unguarded_difference(Node::binary(span, BinaryOperator::LessThan, difference, epsilon))
            == unguarded_difference(
                Node::binary(span, BinaryOperator::GreaterThan, epsilon, difference),
            ),
        finding_for(Node::binary(span, BinaryOperator::LessThan, difference, epsilon), snippet)
            == finding_for(
                Node::binary(span, BinaryOperator::GreaterThan, epsilon, difference),
                snippet,
            ),
{
}

/// A subtraction compared with `f32::EPSILON` or with `f64::EPSILON` is
/// flagged, in either phrasing, and the finding covers the whole
/// comparison.
pub proof fn lemma_both_constants_detected(
    span: Span,
    difference: Node,
    epsilon: Node,
    snippet: Option<Seq<char>>,
)
    requires
        is_subtraction(difference),
        epsilon.shape == Shape::Path(seq!["f32"@, "EPSILON"@])
            || epsilon.shape == Shape::Path(seq!["f64"@, "EPSILON"@]),
    ensures
        finding_for(Node::binary(span, BinaryOperator::LessThan, difference, epsilon), snippet)
            == Some(missing_abs(span, abs_applied(text_or_placeholder(snippet)))),
        finding_for(Node::binary(span, BinaryOperator::GreaterThan, epsilon, difference), snippet)
            == Some(missing_abs(span, abs_applied(text_or_placeholder(snippet)))),
{
}

/// An expression that already has the fix is not flagged: there the
/// difference operand is the call of `.abs()`, not the subtraction.
pub proof fn lemma_fixed_expression_passes(node: Node, snippet: Option<Seq<char>>)
    requires
        operand_roles(node) matches Some((difference, _)) && difference.shape is Other,
    ensures
        unguarded_difference(node) is None,
        finding_for(node, snippet) is None,
{
}

/// Every finding covers the checked expression, carries the fixed message
/// and label, and is marked as possibly incorrect.
pub proof fn lemma_finding_is_cautious(node: Node, snippet: Option<Seq<char>>)
    ensures
        finding_for(node, snippet) matches Some(finding) ==> {
            &&& finding.span == node.span
            &&& finding.message == MESSAGE@
            &&& finding.label == FIX_LABEL@
            &&& finding.applicability == Applicability::MaybeIncorrect
        },
{
}

/// The replacement text begins with an opening parenthesis and ends with
/// the call, whatever the source text was.
pub proof fn lemma_fix_is_parenthesised(text: Seq<char>)
    ensures
        abs_applied(text).len() >= text.len() + 6,
        abs_applied(text)[0] == '(',
        abs_applied(text).subrange(abs_applied(text).len() - 6, abs_applied(text).len() as int)
            == ".abs()"@,
{
    reveal_strlit("(");
    reveal_strlit(".abs()");
    reveal_strlit(").abs()");
    let fix = abs_applied(text);
    assert(fix.subrange(fix.len() - 6, fix.len() as int) =~= ".abs()"@);
}

/// The source text stands in the replacement text as it was written: at
/// its start where it begins with a parenthesis, behind the added one
/// otherwise.
pub proof fn lemma_fix_preserves_text(text: Seq<char>)
    ensures
        text.len() > 0 && text[0] == '(' ==> abs_applied(text).subrange(0, text.len() as int)
            == text,
        !(text.len() > 0 && text[0] == '(') ==> abs_applied(text).subrange(1, text.len() as int + 1)
            == text,
{
    reveal_strlit("(");
    let fix = abs_applied(text);
    if text.len() > 0 && text[0] == '(' {
        assert(fix.subrange(0, text.len() as int) =~= text);
    } else {
        assert(fix.subrange(1, text.len() as int + 1) =~= text);
    }
}

/// Parentheses are not doubled: text that is wrapped in parentheses
/// beforehand gets the same fix as the bare text.
pub proof fn lemma_parentheses_not_doubled(text: Seq<char>)
    requires
        !(text.len() > 0 && text[0] == '('),
    ensures
        abs_applied("("@ + text + ")"@) == abs_applied(text),
{
    reveal_strlit("(");
    reveal_strlit(")");
    reveal_strlit(".abs()");
    reveal_strlit(").abs()");
    assert(("("@ + text + ")"@) + ".abs()"@ =~= "("@ + text + ").abs()"@);
}

} // verus!
