//! A single-rule lint core. It recognises a subtraction that is compared
//! with a machine-epsilon constant without taking its absolute value, as in
//! `(a - b) < f32::EPSILON`, and describes the fix, `(a - b).abs()`.
//!
//! The core works on syntax alone. It does not parse, resolve names or
//! types, or report anything itself: a host lends it one expression node
//! at a time together with a lookup from spans to source text, and gets
//! back at most one finding.
//!
//! One call runs four stages in sequence, and a stage that fails ends it
//! with no finding:
//!
//! - [`matcher`]: is the node a `<` or `>` comparison, and is the operand
//!   on the smaller side a subtraction?
//! - [`resolver`]: is the other operand the path `f32::EPSILON` or
//!   `f64::EPSILON`?
//! - [`suggestion`]: the source text of the difference with `.abs()`
//!   applied to it.
//! - [`diagnostic`]: the finding that carries span, message and fix.
//!
//! [`pass`] puts the stages together, and [`laws`] states what holds of
//! the result on every input.

pub mod syntax;
pub mod text;
pub mod matcher;
pub mod resolver;
pub mod suggestion;
pub mod diagnostic;
pub mod pass;
pub mod laws;
