//! The string style rule: with the interpolation style, a concatenation of
//! string literals and interpolable expressions becomes one double-quoted
//! string; with the concatenation style, an interpolated string becomes a
//! concatenation.
use vstd::prelude::*;

use crate::edit::{edit, edits_view, lemma_edits_view_push, Span, TextEdit};
use crate::text::chars_of;

verus! {

broadcast use lemma_edits_view_push;

// ---------------------------------------------------------------------------
// Interpolation style
// ---------------------------------------------------------------------------

/// An operand of a string concatenation, as far as the rule reads it.
#[derive(PartialEq, Eq, Debug)]
pub enum ConcatOperand {
    /// `lhs . rhs`.
    Concat { lhs: Box<ConcatOperand>, rhs: Box<ConcatOperand> },
    /// A string literal: its span (quotes included), whether it is
    /// double-quoted, and its raw source text.
    StringLiteral { span: Span, double_quoted: bool, raw: String },
    /// A variable.
    Variable { span: Span },
    /// A property access, null-safe property access, array access, method
    /// call or null-safe method call on `object`.
    Member { span: Span, object: Box<ConcatOperand> },
    Other,
}

/// A part of a flattened concatenation.
#[derive(Clone, Copy, PartialEq, Eq, Debug)]
pub enum ConcatPart {
    /// A string literal, and whether its text can be put between double
    /// quotes unchanged.
    Literal { span: Span, safe_to_double_quote: bool },
    /// An expression that can be interpolated in a double-quoted string.
    Interpolable { span: Span },
    Other,
}

/// Whether an expression can be interpolated: a variable, or a member
/// access or method call on an interpolable object.
pub open spec fn is_interpolable(e: ConcatOperand) -> bool
    decreases e,
{
    match e {
        ConcatOperand::Variable { .. } => true,
        ConcatOperand::Member { object, .. } => is_interpolable(*object),
        _ => false,
    }
}

/// Whether a raw literal text holds a backslash, a `$` or a `"`.
pub open spec fn has_quote_sensitive_char(raw: Seq<char>) -> bool {
    raw.contains('\\') || raw.contains('$') || raw.contains('"')
}

/// The parts of a concatenation, left to right, nested concatenations
/// flattened.
pub open spec fn concat_parts(e: ConcatOperand) -> Seq<ConcatPart>
    decreases e,
{
    match e {
        ConcatOperand::Concat { lhs, rhs } => concat_parts(*lhs) + concat_parts(*rhs),
        ConcatOperand::StringLiteral { span, double_quoted, raw } => seq![
            ConcatPart::Literal { span, safe_to_double_quote: double_quoted || !has_quote_sensitive_char(raw@) },
        ],
        ConcatOperand::Variable { span } => seq![ConcatPart::Interpolable { span }],
        ConcatOperand::Member { span, object } => if is_interpolable(*object) {
            seq![ConcatPart::Interpolable { span }]
        } else {
            seq![ConcatPart::Other]
        },
        ConcatOperand::Other => seq![ConcatPart::Other],
    }
}

/// Whether a part can be rewritten: a literal safe to double-quote, or an
/// interpolable expression.
pub open spec fn is_fixable(p: ConcatPart) -> bool {
    match p {
        ConcatPart::Literal { safe_to_double_quote, .. } => safe_to_double_quote,
        ConcatPart::Interpolable { .. } => true,
        ConcatPart::Other => false,
    }
}

/// The edit that opens the double-quoted string at the first part.
pub open spec fn opening_edit(p: ConcatPart) -> (u32, u32, Seq<char>) {
    match p {
        ConcatPart::Interpolable { span } => edit(span.start, span.start, "\"{"@),
        ConcatPart::Literal { span, .. } => edit(span.start, (span.start + 1) as u32, "\""@),
        ConcatPart::Other => edit(0, 0, Seq::empty()),
    }
}

/// The edit that closes the double-quoted string at the last part.
pub open spec fn closing_edit(p: ConcatPart) -> (u32, u32, Seq<char>) {
    match p {
        ConcatPart::Interpolable { span } => edit(span.end, span.end, "}\""@),
        ConcatPart::Literal { span, .. } => edit((span.end - 1) as u32, span.end, "\""@),
        ConcatPart::Other => edit(0, 0, Seq::empty()),
    }
}

/// The edit that replaces the gap between two consecutive parts (closing
/// quote, ` . ` and opening quote) with the interpolation glue.
pub open spec fn interpolation_glue(a: ConcatPart, b: ConcatPart) -> (u32, u32, Seq<char>) {
    match a {
        ConcatPart::Literal { span: l, .. } => match b {
            ConcatPart::Literal { span: r, .. } => edit((l.end - 1) as u32, (r.start + 1) as u32, ""@),
            ConcatPart::Interpolable { span: r } => edit((l.end - 1) as u32, r.start, "{"@),
            ConcatPart::Other => edit(0, 0, Seq::empty()),
        },
        ConcatPart::Interpolable { span: l } => match b {
            ConcatPart::Literal { span: r, .. } => edit(l.end, (r.start + 1) as u32, "}"@),
            ConcatPart::Interpolable { span: r } => edit(l.end, r.start, "}{"@),
            ConcatPart::Other => edit(0, 0, Seq::empty()),
        },
        ConcatPart::Other => edit(0, 0, Seq::empty()),
    }
}

/// The fix that turns the concatenation of `parts` into one double-quoted
/// string.
pub open spec fn interpolation_fix(parts: Seq<ConcatPart>) -> Seq<(u32, u32, Seq<char>)> {
    seq![opening_edit(parts[0]), closing_edit(parts.last())] + interpolation_glues(parts)
}

/// The glue edits between consecutive parts, left to right.
pub open spec fn interpolation_glues(parts: Seq<ConcatPart>) -> Seq<(u32, u32, Seq<char>)> {
    Seq::new((parts.len() - 1) as nat, |k: int| interpolation_glue(parts[k], parts[k + 1]))
}

/// Whether every string literal in the operand spans at least its two
/// quotes and leaves room for the offsets next to them.
pub open spec fn literal_spans_valid(e: ConcatOperand) -> bool
    decreases e,
{
    match e {
        ConcatOperand::Concat { lhs, rhs } => literal_spans_valid(*lhs) && literal_spans_valid(*rhs),
        ConcatOperand::StringLiteral { span, .. } => span.start + 2 <= span.end,
        _ => true,
    }
}

/// What the rule reports of a concatenation.
#[derive(PartialEq, Eq, Debug)]
pub enum StringStyleOutcome {
    NotReported,
    /// Reported, with a fix when every part can be rewritten.
    Reported { fix: Option<Vec<TextEdit>> },
}

/// The outcome in plain values.
pub open spec fn outcome_view(o: StringStyleOutcome) -> Option<Option<Seq<(u32, u32, Seq<char>)>>> {
    match o {
        StringStyleOutcome::NotReported => None,
        StringStyleOutcome::Reported { fix } => match fix {
            Some(es) => Some(Some(edits_view(es@))),
            None => Some(None),
        },
    }
}

/// What the interpolation style reports of an expression: a concatenation
/// that is not itself an operand of a concatenation, whose parts hold both a
/// string literal and an interpolable expression, and none of whose parts is
/// a function call, static access or other expression that cannot be
/// interpolated, is reported; it is fixed when every literal can be put
/// between double quotes unchanged.
pub open spec fn spec_prefer_interpolation(e: ConcatOperand, parent_is_concatenation: bool) -> Option<
    Option<Seq<(u32, u32, Seq<char>)>>,
> {
    if !(e is Concat) || parent_is_concatenation {
        None
    } else {
        let parts = concat_parts(e);
        if !(exists|k: int| 0 <= k < parts.len() && #[trigger] parts[k] is Literal) || !(exists|k: int|
            0 <= k < parts.len() && #[trigger] parts[k] is Interpolable) || (exists|k: int|
            0 <= k < parts.len() && #[trigger] parts[k] is Other) {
            None
        } else if forall|k: int| 0 <= k < parts.len() ==> is_fixable(#[trigger] parts[k]) {
            Some(Some(interpolation_fix(parts)))
        } else {
            Some(None)
        }
    }
}

/// Whether a raw literal text holds a backslash, a `$` or a `"`.
fn raw_has_quote_sensitive_char(raw: &String) -> (r: bool)
    ensures
        r == has_quote_sensitive_char(raw@),
{
    let cs = chars_of(raw.as_str());
    let mut k: usize = 0;
    while k < cs.len()
        invariant
            k <= cs.len(),
            cs@ == raw@,
            forall|m: int| 0 <= m < k ==> cs@[m] != '\\' && cs@[m] != '$' && cs@[m] != '"',
        decreases cs.len() - k,
    {
        let c = cs[k];
        if c == '\\' || c == '$' || c == '"' {
            assert(raw@[k as int] == c);
            return true;
        }
        k += 1;
    }
    false
}

/// Whether an expression can be interpolated.
fn expr_is_interpolable(e: &ConcatOperand) -> (r: bool)
    ensures
        r == is_interpolable(*e),
    decreases e,
{
    match e {
        ConcatOperand::Variable { .. } => true,
        ConcatOperand::Member { object, .. } => expr_is_interpolable(object),
        _ => false,
    }
}

/// Appends the parts of an operand.
fn collect_concat_side(e: &ConcatOperand, parts: &mut Vec<ConcatPart>)
    ensures
        final(parts)@ == old(parts)@ + concat_parts(*e),
    decreases e,
{
    match e {
        ConcatOperand::Concat { lhs, rhs } => {
            collect_concat_side(lhs, parts);
            collect_concat_side(rhs, parts);
            assert(parts@ =~= old(parts)@ + concat_parts(*e));
        },
        ConcatOperand::StringLiteral { span, double_quoted, raw } => {
            let safe = *double_quoted || !raw_has_quote_sensitive_char(raw);
            parts.push(ConcatPart::Literal { span: *span, safe_to_double_quote: safe });
        },
        ConcatOperand::Variable { span } => {
            parts.push(ConcatPart::Interpolable { span: *span });
        },
        ConcatOperand::Member { span, object } => {
            if expr_is_interpolable(object) {
                parts.push(ConcatPart::Interpolable { span: *span });
            } else {
                parts.push(ConcatPart::Other);
            }
        },
        ConcatOperand::Other => {
            parts.push(ConcatPart::Other);
        },
    }
}

proof fn lemma_parts_nonempty(e: ConcatOperand)
    ensures
        concat_parts(e).len() >= 1,
    decreases e,
{
    if let ConcatOperand::Concat { lhs, rhs } = e {
        lemma_parts_nonempty(*lhs);
        lemma_parts_nonempty(*rhs);
    }
}

proof fn lemma_literal_parts_valid(e: ConcatOperand)
    requires
        literal_spans_valid(e),
    ensures
        forall|k: int|
            0 <= k < concat_parts(e).len() && #[trigger] concat_parts(e)[k] is Literal ==> concat_parts(e)[k]->Literal_span.start
                + 2 <= concat_parts(e)[k]->Literal_span.end,
    decreases e,
{
    if let ConcatOperand::Concat { lhs, rhs } = e {
        lemma_literal_parts_valid(*lhs);
        lemma_literal_parts_valid(*rhs);
        let l = concat_parts(*lhs);
        let r = concat_parts(*rhs);
        assert forall|k: int|
            0 <= k < concat_parts(e).len() && #[trigger] concat_parts(e)[k] is Literal implies concat_parts(
            e,
        )[k]->Literal_span.start + 2 <= concat_parts(e)[k]->Literal_span.end by {
            if k < l.len() {
                assert(concat_parts(e)[k] == l[k]);
            } else {
                assert(concat_parts(e)[k] == r[k - l.len()]);
            }
        }
    }
}

/// The glue edit between two fixable parts.
fn glue_edit(a: ConcatPart, b: ConcatPart) -> (r: TextEdit)
    requires
        is_fixable(a),
        is_fixable(b),
        a is Literal ==> a->Literal_span.start + 2 <= a->Literal_span.end,
        b is Literal ==> b->Literal_span.start + 2 <= b->Literal_span.end,
    ensures
        crate::edit::edit_view(r) == interpolation_glue(a, b),
{
    let a_end = match a {
        ConcatPart::Literal { span, .. } => span.end,
        ConcatPart::Interpolable { span } => span.end,
        ConcatPart::Other => 0,
    };
    let b_start = match b {
        ConcatPart::Literal { span, .. } => span.start,
        ConcatPart::Interpolable { span } => span.start,
        ConcatPart::Other => 0,
    };
    let a_literal = matches!(a, ConcatPart::Literal { .. });
    let b_literal = matches!(b, ConcatPart::Literal { .. });
    if a_literal {
        if b_literal {
            TextEdit { start: a_end - 1, end: b_start + 1, text: "" }
        } else {
            TextEdit { start: a_end - 1, end: b_start, text: "{" }
        }
    } else {
        if b_literal {
            TextEdit { start: a_end, end: b_start + 1, text: "}" }
        } else {
            TextEdit { start: a_end, end: b_start, text: "}{" }
        }
    }
}

/// Checks a binary expression under the interpolation style.
pub fn check_prefer_interpolation(e: &ConcatOperand, parent_is_concatenation: bool) -> (o: StringStyleOutcome)
    requires
        literal_spans_valid(*e),
    ensures
        outcome_view(o) == spec_prefer_interpolation(*e, parent_is_concatenation),
{
    let (lhs, rhs) = match e {
        ConcatOperand::Concat { lhs, rhs } => (lhs, rhs),
        _ => return StringStyleOutcome::NotReported,
    };
    if parent_is_concatenation {
        return StringStyleOutcome::NotReported;
    }
    let mut parts: Vec<ConcatPart> = Vec::new();
    collect_concat_side(lhs, &mut parts);
    collect_concat_side(rhs, &mut parts);
    assert(parts@ =~= concat_parts(*e));
    proof {
        lemma_parts_nonempty(*e);
        lemma_literal_parts_valid(*e);
    }
    let mut has_literal = false;
    let mut has_interpolable = false;
    let mut has_other = false;
    let mut all_fixable = true;
    let mut k: usize = 0;
    while k < parts.len()
        invariant
            k <= parts.len(),
            has_literal == (exists|m: int| 0 <= m < k && #[trigger] parts@[m] is Literal),
            has_interpolable == (exists|m: int| 0 <= m < k && #[trigger] parts@[m] is Interpolable),
            has_other == (exists|m: int| 0 <= m < k && #[trigger] parts@[m] is Other),
            all_fixable == (forall|m: int| 0 <= m < k ==> is_fixable(#[trigger] parts@[m])),
        decreases parts.len() - k,
    {
        let p = parts[k];
        if matches!(p, ConcatPart::Literal { .. }) {
            has_literal = true;
        }
        if matches!(p, ConcatPart::Interpolable { .. }) {
            has_interpolable = true;
        }
        if matches!(p, ConcatPart::Other) {
            has_other = true;
        }
        let fixable = match p {
            ConcatPart::Literal { safe_to_double_quote, .. } => safe_to_double_quote,
            ConcatPart::Interpolable { .. } => true,
            ConcatPart::Other => false,
        };
        if !fixable {
            all_fixable = false;
        }
        k += 1;
    }
    if !has_literal || !has_interpolable || has_other {
        return StringStyleOutcome::NotReported;
    }
    if !all_fixable {
        return StringStyleOutcome::Reported { fix: None };
    }
    let n = parts.len();
    let mut edits: Vec<TextEdit> = Vec::new();
    let first = parts[0];
    match first {
        ConcatPart::Interpolable { span } => edits.push(TextEdit { start: span.start, end: span.start, text: "\"{" }),
        ConcatPart::Literal { span, .. } => edits.push(TextEdit { start: span.start, end: span.start + 1, text: "\"" }),
        ConcatPart::Other => {},
    }
    let last = parts[n - 1];
    match last {
        ConcatPart::Interpolable { span } => edits.push(TextEdit { start: span.end, end: span.end, text: "}\"" }),
        ConcatPart::Literal { span, .. } => edits.push(TextEdit { start: span.end - 1, end: span.end, text: "\"" }),
        ConcatPart::Other => {},
    }
    let ghost head = seq![opening_edit(parts@[0]), closing_edit(parts@.last())];
    assert(edits_view(edits@) =~= head);
    let mut k: usize = 0;
    while k + 1 < n
        invariant
            n == parts.len(),
            n >= 1,
            k + 1 <= n,
            forall|m: int| 0 <= m < n ==> is_fixable(#[trigger] parts@[m]),
            forall|m: int|
                0 <= m < n && #[trigger] parts@[m] is Literal ==> parts@[m]->Literal_span.start + 2
                    <= parts@[m]->Literal_span.end,
            edits_view(edits@) == head + Seq::new(k as nat, |j: int| interpolation_glue(parts@[j], parts@[j + 1])),
        decreases n - k,
    {
        let g = glue_edit(parts[k], parts[k + 1]);
        edits.push(g);
        assert(Seq::new((k + 1) as nat, |j: int| interpolation_glue(parts@[j], parts@[j + 1])) =~= Seq::new(
            k as nat,
            |j: int| interpolation_glue(parts@[j], parts@[j + 1]),
        ).push(interpolation_glue(parts@[k as int], parts@[k + 1])));
        k += 1;
    }
    assert(edits_view(edits@) =~= interpolation_fix(parts@));
    StringStyleOutcome::Reported { fix: Some(edits) }
}

// ---------------------------------------------------------------------------
// Concatenation style
// ---------------------------------------------------------------------------

/// A part of an interpolated string.
#[derive(PartialEq, Eq, Debug)]
pub enum StringPart {
    /// Literal text, with its value.
    Literal { span: Span, value: String },
    /// An expression written without braces, as in `"$a"`.
    Expression { span: Span },
    /// An expression in braces, as in `"{$a}"`: the spans of its braces.
    Braced { left_brace: Span, right_brace: Span },
}

/// The kept parts of an interpolated string, by position: all but the
/// empty literals.
pub open spec fn kept_parts(parts: Seq<StringPart>) -> Seq<StringPart>
    decreases parts.len(),
{
    if parts.len() == 0 {
        Seq::empty()
    } else {
        let rest = kept_parts(parts.drop_last());
        let p = parts.last();
        if p is Literal && p->Literal_value@.len() == 0 {
            rest
        } else {
            rest.push(p)
        }
    }
}

/// Where the gap after a part starts.
pub open spec fn gap_start(p: StringPart) -> u32 {
    match p {
        StringPart::Literal { span, .. } => span.end,
        StringPart::Expression { span } => span.end,
        StringPart::Braced { right_brace, .. } => right_brace.start,
    }
}

/// Where the gap before a part ends.
pub open spec fn gap_end(p: StringPart) -> u32 {
    match p {
        StringPart::Literal { span, .. } => span.start,
        StringPart::Expression { span } => span.start,
        StringPart::Braced { left_brace, .. } => left_brace.end,
    }
}

/// The edit that replaces the gap between two consecutive parts (braces
/// included) with the concatenation glue: a literal is closed or opened with
/// a quote, and ` . ` joins the two.
pub open spec fn concatenation_glue(a: StringPart, b: StringPart) -> (u32, u32, Seq<char>) {
    let glue = if a is Literal && b is Literal {
        "\" . \""@
    } else if a is Literal {
        "\" . "@
    } else if b is Literal {
        " . \""@
    } else {
        " . "@
    };
    edit(gap_start(a), gap_end(b), glue)
}

/// The fix that turns an interpolated string with the kept parts `parts`
/// into a concatenation: where it does not start (end) with a literal, its
/// opening (closing) quote goes, with the brace of a braced expression
/// next to it; then each gap gets its glue.
pub open spec fn concatenation_fix(parts: Seq<StringPart>, left_quote: Span, right_quote: Span) -> Seq<
    (u32, u32, Seq<char>),
> {
    concatenation_opening(parts, left_quote) + concatenation_closing(parts, right_quote) + concatenation_glues(
        parts,
    )
}

/// The edit, if any, that removes the opening quote (and the brace of a
/// braced expression next to it) when the string does not start with a literal.
pub open spec fn concatenation_opening(parts: Seq<StringPart>, left_quote: Span) -> Seq<(u32, u32, Seq<char>)> {
    if parts[0] is Literal {
        Seq::empty()
    } else {
        let drop_end = match parts[0] {
            StringPart::Braced { left_brace, .. } => left_brace.end,
            _ => left_quote.end,
        };
        seq![edit(left_quote.start, drop_end, ""@)]
    }
}

/// The edit, if any, that removes the closing quote (and the brace of a
/// braced expression next to it) when the string does not end with a literal.
pub open spec fn concatenation_closing(parts: Seq<StringPart>, right_quote: Span) -> Seq<(u32, u32, Seq<char>)> {
    if parts.last() is Literal {
        Seq::empty()
    } else {
        let drop_start = match parts.last() {
            StringPart::Braced { right_brace, .. } => right_brace.start,
            _ => right_quote.start,
        };
        seq![edit(drop_start, right_quote.end, ""@)]
    }
}

/// The glue edits between consecutive parts, left to right.
pub open spec fn concatenation_glues(parts: Seq<StringPart>) -> Seq<(u32, u32, Seq<char>)> {
    Seq::new((parts.len() - 1) as nat, |k: int| concatenation_glue(parts[k], parts[k + 1]))
}

/// What the concatenation style reports of an interpolated string: it is
/// always reported, and fixed unless it holds only empty literals.
pub open spec fn spec_prefer_concatenation(parts: Seq<StringPart>, left_quote: Span, right_quote: Span) -> Option<
    Option<Seq<(u32, u32, Seq<char>)>>,
> {
    let kept = kept_parts(parts);
    if kept.len() == 0 {
        Some(None)
    } else {
        Some(Some(concatenation_fix(kept, left_quote, right_quote)))
    }
}

fn gap_start_of(p: &StringPart) -> (r: u32)
    ensures
        r == gap_start(*p),
{
    match p {
        StringPart::Literal { span, .. } => span.end,
        StringPart::Expression { span } => span.end,
        StringPart::Braced { right_brace, .. } => right_brace.start,
    }
}

fn gap_end_of(p: &StringPart) -> (r: u32)
    ensures
        r == gap_end(*p),
{
    match p {
        StringPart::Literal { span, .. } => span.start,
        StringPart::Expression { span } => span.start,
        StringPart::Braced { left_brace, .. } => left_brace.end,
    }
}

/// The edit that replaces the gap between two consecutive parts.
pub fn boundary_edit_for_to_concat(curr: &StringPart, next: &StringPart) -> (e: TextEdit)
    ensures
        crate::edit::edit_view(e) == concatenation_glue(*curr, *next),
{
    let start = gap_start_of(curr);
    let end = gap_end_of(next);
    let curr_literal = matches!(curr, StringPart::Literal { .. });
    let next_literal = matches!(next, StringPart::Literal { .. });
    let glue = if curr_literal && next_literal {
        "\" . \""
    } else if curr_literal {
        "\" . "
    } else if next_literal {
        " . \""
    } else {
        " . "
    };
    TextEdit { start, end, text: glue }
}

/// Checks an interpolated string under the concatenation style: its parts
/// and the spans of its two double quotes.
pub fn check_prefer_concatenation(parts: &Vec<StringPart>, left_quote: Span, right_quote: Span) -> (o:
    StringStyleOutcome)
    ensures
        outcome_view(o) == spec_prefer_concatenation(parts@, left_quote, right_quote),
{
    let mut kept: Vec<&StringPart> = Vec::new();
    let mut i: usize = 0;
    while i < parts.len()
        invariant
            i <= parts.len(),
            kept@.map_values(|p: &StringPart| *p) == kept_parts(parts@.take(i as int)),
        decreases parts.len() - i,
    {
        let p = &parts[i];
        let empty_literal = match p {
            StringPart::Literal { value, .. } => value.as_str().is_empty(),
            _ => false,
        };
        let ghost before = kept@;
        if !empty_literal {
            kept.push(p);
            assert(kept@.map_values(|p: &StringPart| *p) =~= before.map_values(|p: &StringPart| *p).push(*p));
        }
        assert(parts@.take(i + 1).drop_last() =~= parts@.take(i as int));
        i += 1;
    }
    assert(parts@.take(i as int) =~= parts@);
    let ghost kv = kept@.map_values(|p: &StringPart| *p);
    let n = kept.len();
    if n == 0 {
        return StringStyleOutcome::Reported { fix: None };
    }
    let mut edits: Vec<TextEdit> = Vec::new();
    let first = kept[0];
    if !matches!(first, StringPart::Literal { .. }) {
        let drop_end = match first {
            StringPart::Braced { left_brace, .. } => left_brace.end,
            _ => left_quote.end,
        };
        edits.push(TextEdit { start: left_quote.start, end: drop_end, text: "" });
    }
    let last = kept[n - 1];
    if !matches!(last, StringPart::Literal { .. }) {
        let drop_start = match last {
            StringPart::Braced { right_brace, .. } => right_brace.start,
            _ => right_quote.start,
        };
        edits.push(TextEdit { start: drop_start, end: right_quote.end, text: "" });
    }
    assert(kv[0] == *first);
    assert(kv.last() == *last);
    let ghost head = edits_view(edits@);
    let mut k: usize = 0;
    while k + 1 < n
        invariant
            n == kept.len(),
            n >= 1,
            k + 1 <= n,
            kv == kept@.map_values(|p: &StringPart| *p),
            edits_view(edits@) == head + Seq::new(k as nat, |j: int| concatenation_glue(kv[j], kv[j + 1])),
        decreases n - k,
    {
        let e = boundary_edit_for_to_concat(kept[k], kept[k + 1]);
        edits.push(e);
        assert(Seq::new((k + 1) as nat, |j: int| concatenation_glue(kv[j], kv[j + 1])) =~= Seq::new(
            k as nat,
            |j: int| concatenation_glue(kv[j], kv[j + 1]),
        ).push(concatenation_glue(kv[k as int], kv[k + 1])));
        k += 1;
    }
    assert(edits_view(edits@) =~= concatenation_fix(kv, left_quote, right_quote));
    StringStyleOutcome::Reported { fix: Some(edits) }
}

// ---------------------------------------------------------------------------
// Braced interpolation
// ---------------------------------------------------------------------------

/// An expression interpolated without braces, and the span of its index
/// when it is an array access with a bareword key, as in `"$a[key]"`.
#[derive(Clone, Copy, PartialEq, Eq, Debug)]
pub struct UnbracedExpression {
    pub span: Span,
    pub bareword_key: Option<Span>,
}

/// The unbraced expressions among the parts of a composite string, in order.
pub open spec fn unbraced_expressions(parts: Seq<StringPart>, keys: Seq<Option<Span>>) -> Seq<UnbracedExpression>
    decreases parts.len(),
{
    if parts.len() == 0 || keys.len() != parts.len() {
        Seq::empty()
    } else {
        let rest = unbraced_expressions(parts.drop_last(), keys.drop_last());
        match parts.last() {
            StringPart::Expression { span } => rest.push(UnbracedExpression { span, bareword_key: keys.last() }),
            _ => rest,
        }
    }
}

/// The insertions that brace one expression: `{` before it, quotes around
/// a bareword key, `}` after it.
pub open spec fn brace_edits(u: UnbracedExpression) -> Seq<(u32, u32, Seq<char>)> {
    let open = seq![edit(u.span.start, u.span.start, "{"@)];
    let quotes = match u.bareword_key {
        Some(k) => seq![edit(k.start, k.start, "'"@), edit(k.end, k.end, "'"@)],
        None => Seq::empty(),
    };
    open + quotes + seq![edit(u.span.end, u.span.end, "}"@)]
}

/// The insertions that brace each of the given expressions, in order.
pub open spec fn braces_fix(us: Seq<UnbracedExpression>) -> Seq<(u32, u32, Seq<char>)>
    decreases us.len(),
{
    if us.len() == 0 {
        Seq::empty()
    } else {
        braces_fix(us.drop_last()) + brace_edits(us.last())
    }
}

/// The unbraced expressions of a composite string and the fix that braces
/// them; `None` when there is none. `keys[k]` is the bareword key of the
/// part at position `k`, if it is an array access with one.
pub open spec fn spec_braced_interpolation(parts: Seq<StringPart>, keys: Seq<Option<Span>>) -> Option<
    (Seq<UnbracedExpression>, Seq<(u32, u32, Seq<char>)>),
> {
    let us = unbraced_expressions(parts, keys);
    if us.len() == 0 {
        None
    } else {
        Some((us, braces_fix(us)))
    }
}

/// Checks a composite string (interpolated string, shell command or
/// heredoc) for expressions interpolated without braces.
pub fn check_braced_interpolation(parts: &Vec<StringPart>, keys: &Vec<Option<Span>>) -> (r: Option<
    (Vec<UnbracedExpression>, Vec<TextEdit>),
>)
    requires
        keys.len() == parts.len(),
    ensures
        match r {
            Some((us, fix)) => spec_braced_interpolation(parts@, keys@) == Some((us@, edits_view(fix@))),
            None => spec_braced_interpolation(parts@, keys@) is None,
        },
{
    let mut us: Vec<UnbracedExpression> = Vec::new();
    let mut i: usize = 0;
    while i < parts.len()
        invariant
            i <= parts.len(),
            keys.len() == parts.len(),
            us@ == unbraced_expressions(parts@.take(i as int), keys@.take(i as int)),
        decreases parts.len() - i,
    {
        if let StringPart::Expression { span } = &parts[i] {
            us.push(UnbracedExpression { span: *span, bareword_key: keys[i] });
        }
        assert(parts@.take(i + 1).drop_last() =~= parts@.take(i as int));
        assert(keys@.take(i + 1).drop_last() =~= keys@.take(i as int));
        i += 1;
    }
    assert(parts@.take(i as int) =~= parts@);
    assert(keys@.take(i as int) =~= keys@);
    if us.len() == 0 {
        return None;
    }
    let mut edits: Vec<TextEdit> = Vec::new();
    let mut k: usize = 0;
    while k < us.len()
        invariant
            k <= us.len(),
            edits_view(edits@) == braces_fix(us@.take(k as int)),
        decreases us.len() - k,
    {
        let u = us[k];
        let ghost before = edits_view(edits@);
        edits.push(TextEdit { start: u.span.start, end: u.span.start, text: "{" });
        if let Some(key) = u.bareword_key {
            edits.push(TextEdit { start: key.start, end: key.start, text: "'" });
            edits.push(TextEdit { start: key.end, end: key.end, text: "'" });
        }
        edits.push(TextEdit { start: u.span.end, end: u.span.end, text: "}" });
        assert(us@.take(k + 1).drop_last() =~= us@.take(k as int));
        assert(edits_view(edits@) =~= before + brace_edits(u));
        k += 1;
    }
    assert(us@.take(k as int) =~= us@);
    Some((us, edits))
}

// ---------------------------------------------------------------------------
// Binary string prefix
// ---------------------------------------------------------------------------

/// A string node, as far as the binary-prefix rule reads it.
#[derive(PartialEq, Eq, Debug)]
pub enum PrefixedString {
    /// A string literal: its span and raw source text.
    Literal { span: Span, raw: String },
    /// An interpolated string or a heredoc/nowdoc, with the span of its `b`
    /// prefix if it has one.
    Composite { prefix: Option<Span> },
}

/// The `b` (or `B`) prefix of a string, which PHP ignores: for a literal,
/// the first byte of its span when its raw text starts with `b` or `B`.
pub open spec fn spec_binary_prefix(s: PrefixedString) -> Option<Span> {
    match s {
        PrefixedString::Literal { span, raw } => if raw@.len() > 0 && (raw@[0] == 'b' || raw@[0] == 'B') {
            Some(Span { start: span.start, end: (span.start + 1) as u32 })
        } else {
            None
        },
        PrefixedString::Composite { prefix } => prefix,
    }
}

/// Checks a string for a redundant `b` prefix; the fix deletes the prefix.
pub fn check_binary_prefix(s: &PrefixedString) -> (r: Option<Span>)
    requires
        s is Literal ==> s->Literal_span.start < s->Literal_span.end,
    ensures
        r == spec_binary_prefix(*s),
{
    match s {
        PrefixedString::Literal { span, raw } => {
            let cs = chars_of(raw.as_str());
            if cs.len() > 0 && (cs[0] == 'b' || cs[0] == 'B') {
                Some(Span { start: span.start, end: span.start + 1 })
            } else {
                None
            }
        },
        PrefixedString::Composite { prefix } => *prefix,
    }
}

} // verus!
