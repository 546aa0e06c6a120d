//! Building the replacement text: the source text of the difference with a
//! call of `.abs()` applied to all of it.

use vstd::prelude::*;
use vstd::string::StringExecFns;
use crate::text::begins_with;

verus! {

/// The text that stands for a snippet that the host could not supply.
pub const PLACEHOLDER: &'static str = "(...)";

/// The snippet if there is one, the placeholder otherwise.
pub open spec fn text_or_placeholder(snippet: Option<Seq<char>>) -> Seq<char> {
    match snippet {
        Some(text) => text,
        None => PLACEHOLDER@,
    }
}

/// `text` with `.abs()` applied to it: appended directly where `text`
/// already begins with an opening parenthesis, and to `text` wrapped in
/// parentheses otherwise.
pub open spec fn abs_applied(text: Seq<char>) -> Seq<char> {
    if text.len() > 0 && text[0] == '(' {
        text + ".abs()"@
    } else {
        "("@ + text + ").abs()"@
    }
}

/// The characters of an optional string.
pub open spec fn chars_of(text: Option<String>) -> Option<Seq<char>> {
    match text {
        Some(text) => Some(text@),
        None => None,
    }
}

/// Falls back to the placeholder where the host has no text for a span.
pub fn snippet_or_placeholder(snippet: Option<String>) -> (text: String)
    ensures
        text@ == text_or_placeholder(chars_of(snippet)),
{
    match snippet {
        Some(text) => text,
        None => String::from_str(PLACEHOLDER),
    }
}

/// Applies `.abs()` to the source text of a difference.
///
/// Text that is not yet parenthesised is wrapped first, so that the call
/// binds to the whole difference and not to its last operand.
pub fn synthesize(text: &str) -> (fix: String)
    ensures
        fix@ == abs_applied(text@),
{
    if begins_with(text, '(') {
        let mut fix = String::from_str(text);
        fix.append(".abs()");
        fix
    } else {
        let mut fix = String::from_str("(");
        fix.append(text);
        fix.append(").abs()");
        fix
    }
}

} // verus!
