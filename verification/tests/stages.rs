//! Matcher, resolver, synthesizer and emitter one by one.

use float_equality_without_abs::diagnostic::{Applicability, Finding};
use float_equality_without_abs::pass::FloatEqualityWithoutAbs;
use float_equality_without_abs::suggestion::{snippet_or_placeholder, synthesize, PLACEHOLDER};
use float_equality_without_abs::syntax::{
    BinaryOperator, Expression, ExpressionKind, Span, SymbolicPath,
};
use float_equality_without_abs::text::{begins_with, same_text};

const ALL_OPERATORS: [BinaryOperator; 18] = [
    BinaryOperator::Add,
    BinaryOperator::Subtract,
    BinaryOperator::Multiply,
    BinaryOperator::Divide,
    BinaryOperator::Remainder,
    BinaryOperator::And,
    BinaryOperator::Or,
    BinaryOperator::BitXor,
    BinaryOperator::BitAnd,
    BinaryOperator::BitOr,
    BinaryOperator::ShiftLeft,
    BinaryOperator::ShiftRight,
    BinaryOperator::Equal,
    BinaryOperator::LessThan,
    BinaryOperator::LessEqual,
    BinaryOperator::NotEqual,
    BinaryOperator::GreaterEqual,
    BinaryOperator::GreaterThan,
];

fn leaf(lo: u32) -> Expression {
    Expression::other(Span::new(lo, lo + 1))
}

fn subtraction() -> Expression {
    Expression::binary(Span::new(0, 5), BinaryOperator::Subtract, leaf(0), leaf(4))
}

fn epsilon() -> Expression {
    Expression::path(Span::new(8, 20), &["f32", "EPSILON"])
}

fn flagged(expr: &Expression) -> bool {
    let pass = FloatEqualityWithoutAbs;
    let by_matcher = pass.unguarded_difference(expr).is_some();
    let by_pass = pass.finding_with(expr, Some(String::from("x - y"))).is_some();
    assert_eq!(by_matcher, by_pass);
    by_pass
}

#[test]
fn builders_fill_the_fields() {
    let span = Span::new(3, 9);
    assert_eq!(span, Span { lo: 3, hi: 9 });
    assert_eq!(Expression::other(span), Expression { span, kind: ExpressionKind::Other });
    assert_eq!(
        Expression::path(span, &["f64", "EPSILON"]),
        Expression {
            span,
            kind: ExpressionKind::Path(SymbolicPath {
                segments: vec![String::from("f64"), String::from("EPSILON")],
            }),
        }
    );
    assert_eq!(
        Expression::binary(span, BinaryOperator::Subtract, leaf(3), leaf(8)),
        Expression {
            span,
            kind: ExpressionKind::Binary(
                BinaryOperator::Subtract,
                Box::new(leaf(3)),
                Box::new(leaf(8)),
            ),
        }
    );
    assert_eq!(SymbolicPath::from_segments(&[]), SymbolicPath { segments: vec![] });
}

#[test]
fn less_than_takes_the_difference_from_the_left() {
    let expr = Expression::binary(Span::new(0, 9), BinaryOperator::LessThan, leaf(0), leaf(8));
    let (difference, epsilon) = expr.comparison_operands().expect("a comparison");
    assert_eq!(difference.span, Span::new(0, 1));
    assert_eq!(epsilon.span, Span::new(8, 9));
}

#[test]
fn greater_than_takes_the_difference_from_the_right() {
    let expr = Expression::binary(Span::new(0, 9), BinaryOperator::GreaterThan, leaf(0), leaf(8));
    let (difference, epsilon) = expr.comparison_operands().expect("a comparison");
    assert_eq!(difference.span, Span::new(8, 9));
    assert_eq!(epsilon.span, Span::new(0, 1));
}

#[test]
fn only_less_and_greater_are_comparisons() {
    for op in ALL_OPERATORS {
        let ordering = op == BinaryOperator::LessThan || op == BinaryOperator::GreaterThan;
        let expr = Expression::binary(Span::new(0, 20), op, subtraction(), epsilon());
        assert_eq!(expr.comparison_operands().is_some(), ordering, "{:?}", op);
        assert_eq!(flagged(&expr), op == BinaryOperator::LessThan, "{:?}", op);

        let mirrored = Expression::binary(Span::new(0, 20), op, epsilon(), subtraction());
        assert_eq!(flagged(&mirrored), op == BinaryOperator::GreaterThan, "{:?}", op);
    }
}

#[test]
fn expressions_that_are_not_binary_are_not_flagged() {
    assert!(leaf(0).comparison_operands().is_none());
    assert!(epsilon().comparison_operands().is_none());
    assert!(!flagged(&leaf(0)));
    assert!(!flagged(&epsilon()));
    assert!(!flagged(&subtraction()));
}

#[test]
fn only_a_subtraction_is_a_difference() {
    for op in ALL_OPERATORS {
        let inner = Expression::binary(Span::new(0, 5), op, leaf(0), leaf(4));
        assert_eq!(inner.is_subtraction(), op == BinaryOperator::Subtract);
        let expr = Expression::binary(Span::new(0, 20), BinaryOperator::LessThan, inner, epsilon());
        assert_eq!(flagged(&expr), op == BinaryOperator::Subtract, "{:?}", op);
    }
    assert!(!leaf(0).is_subtraction());
    assert!(!epsilon().is_subtraction());

    let path_on_the_left =
        Expression::binary(Span::new(0, 20), BinaryOperator::LessThan, epsilon(), epsilon());
    assert!(!flagged(&path_on_the_left));
}

#[test]
fn comparison_nested_in_the_difference_is_looked_at_by_its_top() {
    // (a - b) - c < EPSILON: the top of the left operand is a subtraction.
    let nested =
        Expression::binary(Span::new(0, 9), BinaryOperator::Subtract, subtraction(), leaf(8));
    let expr = Expression::binary(Span::new(0, 24), BinaryOperator::LessThan, nested, epsilon());
    assert!(flagged(&expr));

    // (a - b) * c < EPSILON: it is a product.
    let product =
        Expression::binary(Span::new(0, 9), BinaryOperator::Multiply, subtraction(), leaf(8));
    let expr = Expression::binary(Span::new(0, 24), BinaryOperator::LessThan, product, epsilon());
    assert!(!flagged(&expr));
}

#[test]
fn epsilon_paths_are_matched_exactly() {
    let recognised: [&[&str]; 2] = [&["f32", "EPSILON"], &["f64", "EPSILON"]];
    for segments in recognised {
        let path = Expression::path(Span::new(8, 20), segments);
        assert!(path.is_epsilon(), "{:?}", segments);
        let expr = Expression::binary(Span::new(0, 20), BinaryOperator::LessThan, subtraction(), path);
        assert!(flagged(&expr), "{:?}", segments);
    }

    let others: [&[&str]; 12] = [
        &[],
        &["EPSILON"],
        &["f32"],
        &["std", "f32", "EPSILON"],
        &["core", "f64", "EPSILON"],
        &["f32", "EPSILON", "EPSILON"],
        &["EPSILON", "f32"],
        &["f32", "MAX"],
        &["f16", "EPSILON"],
        &["F32", "EPSILON"],
        &["f32", "epsilon"],
        &["f32", "EPSILON "],
    ];
    for segments in others {
        let path = Expression::path(Span::new(8, 20), segments);
        assert!(!path.is_epsilon(), "{:?}", segments);
        let expr = Expression::binary(Span::new(0, 20), BinaryOperator::LessThan, subtraction(), path);
        assert!(!flagged(&expr), "{:?}", segments);
    }

    assert!(!leaf(0).is_epsilon());
    assert!(!subtraction().is_epsilon());
    let literal = Expression::binary(Span::new(0, 20), BinaryOperator::LessThan, subtraction(), leaf(8));
    assert!(!flagged(&literal));
}

#[test]
fn path_matches_segment_for_segment() {
    let path = SymbolicPath::from_segments(&["f32", "EPSILON"]);
    assert!(path.matches(&["f32", "EPSILON"]));
    assert!(!path.matches(&["f64", "EPSILON"]));
    assert!(!path.matches(&["f32"]));
    assert!(!path.matches(&["EPSILON"]));
    assert!(!path.matches(&["f32", "EPSILON", "x"]));
    assert!(!path.matches(&[]));
    assert!(SymbolicPath::from_segments(&[]).matches(&[]));
}

#[test]
fn unparenthesised_text_is_wrapped() {
    assert_eq!(synthesize("a - b"), "(a - b).abs()");
    assert_eq!(synthesize("x"), "(x).abs()");
    assert_eq!(synthesize(""), "().abs()");
    assert_eq!(synthesize(" (a - b)"), "( (a - b)).abs()");
    assert_eq!(synthesize("α - β"), "(α - β).abs()");
}

#[test]
fn text_that_begins_with_a_parenthesis_is_not_wrapped() {
    assert_eq!(synthesize("(a - b)"), "(a - b).abs()");
    assert_eq!(synthesize("(a as f64 - b as f64)"), "(a as f64 - b as f64).abs()");
    assert_eq!(synthesize("("), "(.abs()");
    // Only the first character is looked at.
    assert_eq!(synthesize("(a) - (b)"), "(a) - (b).abs()");
}

#[test]
fn wrapping_beforehand_gives_the_same_fix() {
    for text in ["a - b", "x", "", "a - (b)", "α - β"] {
        let wrapped = format!("({})", text);
        assert_eq!(synthesize(&wrapped), synthesize(text));
    }
}

#[test]
fn fix_begins_with_a_parenthesis_and_ends_with_the_call() {
    for text in ["a - b", "(a - b)", "", "(", ")", "(a) - (b)", "é"] {
        let fix = synthesize(text);
        assert!(fix.starts_with('('), "{:?}", text);
        assert!(fix.ends_with(".abs()"), "{:?}", text);
        assert!(fix.contains(text), "{:?}", text);
    }
}

#[test]
fn placeholder_stands_for_missing_text() {
    assert_eq!(PLACEHOLDER, "(...)");
    assert_eq!(snippet_or_placeholder(None), "(...)");
    assert_eq!(snippet_or_placeholder(Some(String::from("a - b"))), "a - b");
    assert_eq!(snippet_or_placeholder(Some(String::new())), "");
    assert_eq!(synthesize(&snippet_or_placeholder(None)), "(...).abs()");
}

#[test]
fn report_packages_span_and_fix() {
    let pass = FloatEqualityWithoutAbs;
    let finding = pass.report(Span::new(7, 31), Some(String::from("lhs - rhs")));
    assert_eq!(finding.span, Span::new(7, 31));
    assert_eq!(finding.message, "float equality check without `.abs()`");
    assert_eq!(finding.label, "add `.abs()`");
    assert_eq!(finding.suggestion, "(lhs - rhs).abs()");
    assert_eq!(finding.applicability, Applicability::MaybeIncorrect);

    assert_eq!(pass.report(Span::new(7, 31), None).suggestion, "(...).abs()");
}

#[test]
fn finding_carries_the_given_text_unchanged() {
    let finding = Finding::missing_abs(Span::new(1, 2), String::from("anything at all"));
    assert_eq!(finding.suggestion, "anything at all");
    assert_eq!(finding.span, Span::new(1, 2));
    assert_eq!(finding.applicability, Applicability::MaybeIncorrect);
    assert_ne!(finding.applicability, Applicability::MachineApplicable);
    assert_ne!(finding.applicability, Applicability::HasPlaceholders);
    assert_ne!(finding.applicability, Applicability::Unspecified);
}

#[test]
fn same_text_compares_all_characters() {
    assert!(same_text("", ""));
    assert!(same_text("EPSILON", "EPSILON"));
    assert!(!same_text("EPSILON", "EPSILOM"));
    assert!(!same_text("EPSILON", "EPSILO"));
    assert!(!same_text("f32", "f64"));
    assert!(!same_text("", "f"));
    assert!(same_text("größe", "größe"));
    assert!(!same_text("größe", "grösse"));
}

#[test]
fn begins_with_looks_at_the_first_character() {
    assert!(begins_with("(a - b)", '('));
    assert!(begins_with("(", '('));
    assert!(!begins_with("", '('));
    assert!(!begins_with("a - (b)", '('));
    assert!(!begins_with(" (a)", '('));
    assert!(begins_with("é", 'é'));
    assert!(!begins_with("é", 'e'));
}
