//! Text edits that fixes propose: replace the bytes `start..end` of the
//! source file with a text.
use vstd::prelude::*;

verus! {

/// Replaces the source bytes `start..end` with `text` (an empty text deletes
/// them, an empty range inserts it).
#[derive(Clone, Copy, PartialEq, Eq, Debug)]
pub struct TextEdit {
    pub start: u32,
    pub end: u32,
    pub text: &'static str,
}

/// The edit that replaces `start..end` with `text`.
pub open spec fn edit(start: u32, end: u32, text: Seq<char>) -> (u32, u32, Seq<char>) {
    (start, end, text)
}

/// The plain values of an edit.
pub open spec fn edit_view(e: TextEdit) -> (u32, u32, Seq<char>) {
    (e.start, e.end, e.text@)
}

/// The plain values of a sequence of edits.
pub open spec fn edits_view(es: Seq<TextEdit>) -> Seq<(u32, u32, Seq<char>)> {
    es.map_values(|e: TextEdit| edit_view(e))
}

/// Appending an edit appends its plain values.
pub broadcast proof fn lemma_edits_view_push(es: Seq<TextEdit>, e: TextEdit)
    ensures
        #[trigger] edits_view(es.push(e)) == edits_view(es).push(edit_view(e)),
{
    assert(edits_view(es.push(e)) =~= edits_view(es).push(edit_view(e)));
}

/// A range `start..end` of the source file.
#[derive(Clone, Copy, PartialEq, Eq, Debug)]
pub struct Span {
    pub start: u32,
    pub end: u32,
}

/// The edit that deletes the bytes `start..end`.
pub open spec fn deletion(start: u32, end: u32) -> (u32, u32, Seq<char>) {
    edit(start, end, ""@)
}

/// The edit that deletes a span.
pub open spec fn span_deletion(s: Span) -> (u32, u32, Seq<char>) {
    deletion(s.start, s.end)
}

/// Deletes the bytes `start..end`.
pub fn delete(start: u32, end: u32) -> (e: TextEdit)
    ensures
        edit_view(e) == deletion(start, end),
{
    TextEdit { start, end, text: "" }
}

/// Deletes a span.
pub fn delete_span(s: Span) -> (e: TextEdit)
    ensures
        edit_view(e) == span_deletion(s),
{
    TextEdit { start: s.start, end: s.end, text: "" }
}

} // verus!
