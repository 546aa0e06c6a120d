//! The syntax tree as far as the lint looks into it.
//!
//! The host owns the real tree. It lends the lint one [`Expression`] at a
//! time, in which every node kind that the lint does not inspect has become
//! [`ExpressionKind::Other`].

use vstd::prelude::*;
use vstd::string::StringExecFns;

verus! {

/// A contiguous region of source text, by byte offsets.
#[derive(Clone, Copy, Debug, PartialEq, Eq, Structural)]
pub struct Span {
    pub lo: u32,
    pub hi: u32,
}

impl Span {
    /// The region from `lo` up to `hi`.
    pub fn new(lo: u32, hi: u32) -> (span: Span)
        ensures
            span == (Span { lo, hi }),
    {
        Span { lo, hi }
    }
}

/// The operator of a binary expression.
#[derive(Clone, Copy, Debug, PartialEq, Eq, Structural)]
pub enum BinaryOperator {
    Add,
    Subtract,
    Multiply,
    Divide,
    Remainder,
    And,
    Or,
    BitXor,
    BitAnd,
    BitOr,
    ShiftLeft,
    ShiftRight,
    Equal,
    LessThan,
    LessEqual,
    NotEqual,
    GreaterEqual,
    GreaterThan,
}

/// A path such as `f32::EPSILON`, as the ordered sequence of its name
/// segments.
#[derive(Clone, Debug, PartialEq, Eq)]
pub struct SymbolicPath {
    pub segments: Vec<String>,
}

impl View for SymbolicPath {
    type V = Seq<Seq<char>>;

    open spec fn view(&self) -> Seq<Seq<char>> {
        Seq::new(self.segments@.len(), |i: int| self.segments@[i]@)
    }
}

/// The characters of each of `segments`, in order.
pub open spec fn names(segments: Seq<&str>) -> Seq<Seq<char>> {
    Seq::new(segments.len(), |i: int| segments[i]@)
}

impl SymbolicPath {
    /// The path with the given segments.
    pub fn from_segments(segments: &[&str]) -> (path: SymbolicPath)
        ensures
            path@ == names(segments@),
    {
        let mut owned: Vec<String> = Vec::new();
        let mut i: usize = 0;
        while i < segments.len()
            invariant
                i <= segments.len(),
                owned.len() == i,
                forall|j: int| 0 <= j < i ==> owned@[j]@ == segments@[j]@,
            decreases segments.len() - i,
        {
            owned.push(String::from_str(segments[i]));
            i += 1;
        }
        let path = SymbolicPath { segments: owned };
        assert(path@ =~= names(segments@));
        path
    }
}

/// What an expression node is.
#[derive(Debug, PartialEq, Eq)]
pub enum ExpressionKind {
    /// `left op right`.
    Binary(BinaryOperator, Box<Expression>, Box<Expression>),
    /// A path to a named item.
    Path(SymbolicPath),
    /// Any other node: a call, a literal, a cast, a block, ...
    Other,
}

/// One node of the syntax tree with the region of source it was parsed from.
#[derive(Debug, PartialEq, Eq)]
pub struct Expression {
    pub span: Span,
    pub kind: ExpressionKind,
}

/// The mathematical value of an [`ExpressionKind`].
pub ghost enum Shape {
    Binary(BinaryOperator, Box<Node>, Box<Node>),
    Path(Seq<Seq<char>>),
    Other,
}

/// The mathematical value of an [`Expression`].
pub ghost struct Node {
    pub span: Span,
    pub shape: Shape,
}

impl Node {
    /// The binary node `left op right` at `span`.
    pub open spec fn binary(span: Span, op: BinaryOperator, left: Node, right: Node) -> Node {
        Node { span, shape: Shape::Binary(op, Box::new(left), Box::new(right)) }
    }

    /// The path node with the given segments at `span`.
    pub open spec fn path(span: Span, segments: Seq<Seq<char>>) -> Node {
        Node { span, shape: Shape::Path(segments) }
    }
}

impl Expression {
    /// The expression `left op right`, parsed from `span`.
    pub fn binary(
        span: Span,
        op: BinaryOperator,
        left: Expression,
        right: Expression,
    ) -> (expr: Expression)
        ensures
            expr@ == Node::binary(span, op, left@, right@),
    {
        Expression { span, kind: ExpressionKind::Binary(op, Box::new(left), Box::new(right)) }
    }

    /// The path expression with the given segments, parsed from `span`.
    pub fn path(span: Span, segments: &[&str]) -> (expr: Expression)
        ensures
            expr@ == Node::path(span, names(segments@)),
    {
        Expression { span, kind: ExpressionKind::Path(SymbolicPath::from_segments(segments)) }
    }

    /// An expression of a kind that the lint does not look into, parsed
    /// from `span`.
    pub fn other(span: Span) -> (expr: Expression)
        ensures
            expr@ == (Node { span, shape: Shape::Other }),
    {
        Expression { span, kind: ExpressionKind::Other }
    }

    /// The tree below this node as a mathematical value.
    pub open spec fn model(self) -> Node
        decreases self,
    {
        Node {
            span: self.span,
            shape: match self.kind {
                ExpressionKind::Binary(op, left, right) => Shape::Binary(
                    op,
                    Box::new(left.model()),
                    Box::new(right.model()),
                ),
                ExpressionKind::Path(path) => Shape::Path(path@),
                ExpressionKind::Other => Shape::Other,
            },
        }
    }
}

impl View for Expression {
    type V = Node;

    open spec fn view(&self) -> Node {
        self.model()
    }
}

} // verus!
