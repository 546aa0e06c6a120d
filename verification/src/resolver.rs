//! Deciding whether an expression names the machine epsilon of a
//! floating-point type.
//!
//! The decision is purely syntactic: the written path must be `f32::EPSILON`
//! or `f64::EPSILON`, segment for segment. A re-exported or aliased constant
//! is not recognised.

use vstd::prelude::*;
use crate::syntax::{names, Expression, ExpressionKind, Node, Shape, SymbolicPath};
use crate::text::same_text;

verus! {

/// Whether `path` is one of the two recognised paths.
pub open spec fn is_epsilon_path(path: Seq<Seq<char>>) -> bool {
    ||| path == seq!["f32"@, "EPSILON"@]
    ||| path == seq!["f64"@, "EPSILON"@]
}

/// Whether `node` is a path expression that names a recognised constant.
pub open spec fn denotes_epsilon(node: Node) -> bool {
    node.shape matches Shape::Path(path) && is_epsilon_path(path)
}

impl SymbolicPath {
    /// Whether this path consists of exactly the given segments.
    pub fn matches(&self, segments: &[&str]) -> (matched: bool)
        ensures
            matched == (self@ == names(segments@)),
    {
        if self.segments.len() != segments.len() {
            assert(self@.len() != names(segments@).len());
            return false;
        }
        let mut i: usize = 0;
        while i < segments.len()
            invariant
                i <= segments.len(),
                self.segments.len() == segments.len(),
                forall|j: int| 0 <= j < i ==> self.segments@[j]@ == segments@[j]@,
            decreases segments.len() - i,
        {
            if !same_text(self.segments[i].as_str(), segments[i]) {
                assert(self@[i as int] != names(segments@)[i as int]);
                return false;
            }
            i += 1;
        }
        assert(self@ =~= names(segments@));
        true
    }
}

impl Expression {
    /// Whether this expression is the path `f32::EPSILON` or `f64::EPSILON`.
    pub fn is_epsilon(&self) -> (epsilon: bool)
        ensures
            epsilon == denotes_epsilon(self@),
    {
        match &self.kind {
            ExpressionKind::Path(path) => {
                let single = ["f32", "EPSILON"];
                let double = ["f64", "EPSILON"];
                assert(names(single@) =~= seq!["f32"@, "EPSILON"@]);
                assert(names(double@) =~= seq!["f64"@, "EPSILON"@]);
                path.matches(&single) || path.matches(&double)
            },
            _ => false,
        }
    }
}

} // verus!
