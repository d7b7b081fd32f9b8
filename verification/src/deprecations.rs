//! Syntax deprecated in PHP 8.5 and its replacements: the cast aliases
//! `(boolean)`, `(double)`, `(integer)`, `(binary)`, and `;` as a `switch`
//! case separator.
use vstd::prelude::*;

use crate::edit::{edit, edit_view, Span, TextEdit};

verus! {

/// A prefix operator, as far as the cast rule reads it.
#[derive(Clone, Copy, PartialEq, Eq, Debug)]
pub enum PrefixOperator {
    /// `(boolean)`.
    BooleanCast,
    /// `(double)` or `(real)`.
    DoubleCast,
    /// `(integer)`.
    IntegerCast,
    /// `(binary)`.
    BinaryCast,
    Other,
}

/// The cast that replaces a deprecated cast alias.
pub open spec fn spec_cast_replacement(op: PrefixOperator) -> Option<Seq<char>> {
    match op {
        PrefixOperator::BooleanCast => Some("(bool)"@),
        PrefixOperator::DoubleCast => Some("(float)"@),
        PrefixOperator::IntegerCast => Some("(int)"@),
        PrefixOperator::BinaryCast => Some("(string)"@),
        PrefixOperator::Other => None,
    }
}

/// Checks a prefix operator spanning `span`: the fix that replaces a
/// deprecated cast alias with its canonical cast.
pub fn check_deprecated_cast(op: PrefixOperator, span: Span) -> (r: Option<TextEdit>)
    ensures
        match spec_cast_replacement(op) {
            Some(c) => r matches Some(e) && edit_view(e) == edit(span.start, span.end, c),
            None => r is None,
        },
{
    let replacement = match op {
        PrefixOperator::BooleanCast => "(bool)",
        PrefixOperator::DoubleCast => "(float)",
        PrefixOperator::IntegerCast => "(int)",
        PrefixOperator::BinaryCast => "(string)",
        PrefixOperator::Other => return None,
    };
    Some(TextEdit { start: span.start, end: span.end, text: replacement })
}

/// The fix for a `;` used as a `switch` case separator: it becomes `:`.
pub fn switch_separator_fix(semicolon: Span) -> (e: TextEdit)
    ensures
        edit_view(e) == edit(semicolon.start, semicolon.end, ":"@),
{
    TextEdit { start: semicolon.start, end: semicolon.end, text: ":" }
}

} // verus!
