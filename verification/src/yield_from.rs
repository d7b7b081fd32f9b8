//! `yield from [$x];` with a single-element array is `yield $x;`.
use vstd::prelude::*;

use crate::edit::{edit, edits_view, Span, TextEdit};

verus! {

/// The kinds of array elements.
#[derive(Clone, Copy, PartialEq, Eq, Debug)]
pub enum ElementKind {
    KeyValue,
    Value,
    /// `...$values`.
    Variadic,
    /// A skipped element.
    Missing,
}

/// An array element: its kind and span.
#[derive(Clone, Copy, PartialEq, Eq, Debug)]
pub struct ArrayElementShape {
    pub kind: ElementKind,
    pub span: Span,
}

/// What follows `yield from`.
#[derive(PartialEq, Eq, Debug)]
pub enum YieldIterator {
    /// An array literal (`[...]` or `array(...)`): its elements and where
    /// its closing bracket or parenthesis ends.
    Array { elements: Vec<ArrayElementShape>, close_end: u32 },
    Other,
}

/// What the rule proposes for `yield from <iterator>` whose `yield` keyword
/// is `yield_keyword`: when the iterator is an array with a single element
/// that is neither spread nor skipped, the text between `yield` and the
/// element becomes a space, and the text after the element up to the end of
/// the array goes.
pub open spec fn spec_redundant_yield_from(yield_keyword: Span, iterator: YieldIterator) -> Option<
    Seq<(u32, u32, Seq<char>)>,
> {
    match iterator {
        YieldIterator::Array { elements, close_end } => if elements.len() == 1 && (elements@[0].kind is KeyValue
            || elements@[0].kind is Value) {
            let e = elements@[0].span;
            Some(seq![edit(yield_keyword.end, e.start, " "@), edit(e.end, close_end, ""@)])
        } else {
            None
        },
        YieldIterator::Other => None,
    }
}

/// Checks a `yield from` expression.
pub fn check_redundant_yield_from(yield_keyword: Span, iterator: &YieldIterator) -> (r: Option<Vec<TextEdit>>)
    ensures
        match r {
            Some(es) => spec_redundant_yield_from(yield_keyword, *iterator) == Some(edits_view(es@)),
            None => spec_redundant_yield_from(yield_keyword, *iterator) is None,
        },
{
    match iterator {
        YieldIterator::Array { elements, close_end } => {
            if elements.len() != 1 {
                return None;
            }
            let e = elements[0];
            if matches!(e.kind, ElementKind::Variadic) || matches!(e.kind, ElementKind::Missing) {
                return None;
            }
            let mut edits: Vec<TextEdit> = Vec::new();
            edits.push(TextEdit { start: yield_keyword.end, end: e.span.start, text: " " });
            edits.push(TextEdit { start: e.span.end, end: *close_end, text: "" });
            assert(edits_view(edits@) =~= spec_redundant_yield_from(yield_keyword, *iterator).unwrap());
            Some(edits)
        },
        YieldIterator::Other => None,
    }
}

} // verus!
