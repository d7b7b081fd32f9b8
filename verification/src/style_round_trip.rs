//! The two string-style fixes undo each other.
//!
//! A string built from literal text and simple variables can be written as a
//! concatenation, `"Hello, " . $name . "!"`, or as one interpolated string,
//! `"Hello, {$name}!"`. The interpolation fix turns the first into the second,
//! and the concatenation fix turns the second back into the first. Both
//! texts are modelled here from the list of their segments, and the fixes'
//! edits are applied to them in the order of their positions.
use vstd::prelude::*;

use crate::edit::Span;
use crate::string_style::{
    closing_edit, concat_parts, concatenation_closing, concatenation_fix, concatenation_glue, concatenation_glues,
    concatenation_opening, has_quote_sensitive_char, interpolation_fix, interpolation_glue, interpolation_glues,
    is_fixable, kept_parts, opening_edit, spec_prefer_concatenation, spec_prefer_interpolation, ConcatOperand,
    ConcatPart, StringPart,
};

verus! {

// ---------------------------------------------------------------------------
// Applying edits
// ---------------------------------------------------------------------------

/// The text `text[..end]` after the edits, ordered by position and not
/// overlapping, are applied: each replaces its range with its text.
pub open spec fn apply_edits_upto(text: Seq<char>, edits: Seq<(u32, u32, Seq<char>)>, end: int) -> Seq<char>
    decreases edits.len(),
{
    if edits.len() == 0 {
        text.take(end)
    } else {
        let e = edits.last();
        apply_edits_upto(text, edits.drop_last(), e.0 as int) + e.2 + text.subrange(e.1 as int, end)
    }
}

/// The whole text after the edits, ordered by position, are applied.
pub open spec fn apply_edits(text: Seq<char>, edits: Seq<(u32, u32, Seq<char>)>) -> Seq<char> {
    apply_edits_upto(text, edits, text.len() as int)
}

/// The edits of the interpolation fix in the order of their positions: the
/// opening edit, the glue edits, the closing edit.
pub open spec fn interpolation_fix_in_order(parts: Seq<ConcatPart>) -> Seq<(u32, u32, Seq<char>)> {
    seq![opening_edit(parts[0])] + interpolation_glues(parts) + seq![closing_edit(parts.last())]
}

/// The edits of the concatenation fix in the order of their positions.
pub open spec fn concatenation_fix_in_order(parts: Seq<StringPart>, left_quote: Span, right_quote: Span) -> Seq<
    (u32, u32, Seq<char>),
> {
    concatenation_opening(parts, left_quote) + concatenation_glues(parts) + concatenation_closing(
        parts,
        right_quote,
    )
}

// ---------------------------------------------------------------------------
// Strings made of literal text and variables
// ---------------------------------------------------------------------------

/// A segment is `(true, name)` for a variable (`name` holds its `$`) and
/// `(false, text)` for literal text. This is how it is written in the
/// concatenation: a variable as it is, text between double quotes.
pub open spec fn concatenated_segment(s: (bool, Seq<char>)) -> Seq<char> {
    if s.0 {
        s.1
    } else {
        seq!['"'] + s.1 + seq!['"']
    }
}

/// How a segment is written inside the interpolated string: a variable in
/// braces, text as it is.
pub open spec fn interpolated_segment(s: (bool, Seq<char>)) -> Seq<char> {
    if s.0 {
        seq!['{'] + s.1 + seq!['}']
    } else {
        s.1
    }
}

/// The concatenation of the segments, joined by ` . `.
pub open spec fn concatenation_text(segs: Seq<(bool, Seq<char>)>) -> Seq<char>
    decreases segs.len(),
{
    if segs.len() == 0 {
        Seq::empty()
    } else if segs.len() == 1 {
        concatenated_segment(segs[0])
    } else {
        concatenation_text(segs.drop_last()) + seq![' ', '.', ' '] + concatenated_segment(segs.last())
    }
}

/// The inside of the interpolated string.
pub open spec fn interpolated_body(segs: Seq<(bool, Seq<char>)>) -> Seq<char>
    decreases segs.len(),
{
    if segs.len() == 0 {
        Seq::empty()
    } else {
        interpolated_body(segs.drop_last()) + interpolated_segment(segs.last())
    }
}

/// The interpolated string, quotes included.
pub open spec fn interpolated_text(segs: Seq<(bool, Seq<char>)>) -> Seq<char> {
    seq!['"'] + interpolated_body(segs) + seq!['"']
}

/// Where segment `k` starts in the concatenation.
pub open spec fn segment_start(segs: Seq<(bool, Seq<char>)>, k: int) -> int {
    if k == 0 {
        0
    } else {
        concatenation_text(segs.take(k)).len() as int + 3
    }
}

/// Where segment `k` ends in the concatenation.
pub open spec fn segment_end(segs: Seq<(bool, Seq<char>)>, k: int) -> int {
    segment_start(segs, k) + concatenated_segment(segs[k]).len()
}

/// Where segment `k` starts in the interpolated string.
pub open spec fn body_start(segs: Seq<(bool, Seq<char>)>, k: int) -> int {
    1 + interpolated_body(segs.take(k)).len() as int
}

/// Where segment `k` ends in the interpolated string.
pub open spec fn body_end(segs: Seq<(bool, Seq<char>)>, k: int) -> int {
    body_start(segs, k) + interpolated_segment(segs[k]).len()
}

/// The parts that the interpolation rule sees in the concatenation: each
/// literal is double-quoted, each variable interpolable.
pub open spec fn concatenated_parts(segs: Seq<(bool, Seq<char>)>) -> Seq<ConcatPart> {
    Seq::new(
        segs.len(),
        |k: int|
            {
                let span = Span { start: segment_start(segs, k) as u32, end: segment_end(segs, k) as u32 };
                if segs[k].0 {
                    ConcatPart::Interpolable { span }
                } else {
                    ConcatPart::Literal { span, safe_to_double_quote: true }
                }
            },
    )
}

/// Whether `parts` are the parts of the interpolated string: its literal
/// texts with their values, and its variables in braces.
pub open spec fn are_interpolated_parts(segs: Seq<(bool, Seq<char>)>, parts: Seq<StringPart>) -> bool {
    &&& parts.len() == segs.len()
    &&& forall|k: int|
        #![trigger parts[k]]
        0 <= k < segs.len() ==> if segs[k].0 {
            parts[k] == StringPart::Braced {
                left_brace: Span { start: body_start(segs, k) as u32, end: (body_start(segs, k) + 1) as u32 },
                right_brace: Span { start: (body_end(segs, k) - 1) as u32, end: body_end(segs, k) as u32 },
            }
        } else {
            &&& parts[k] is Literal
            &&& parts[k]->Literal_span == Span {
                start: body_start(segs, k) as u32,
                end: body_end(segs, k) as u32,
            }
            &&& parts[k]->Literal_value@ == segs[k].1
        }
}

/// The span of the opening quote of the interpolated string.
pub open spec fn opening_quote() -> Span {
    Span { start: 0, end: 1 }
}

/// The span of the closing quote of the interpolated string.
pub open spec fn closing_quote(segs: Seq<(bool, Seq<char>)>) -> Span {
    Span { start: (interpolated_text(segs).len() - 1) as u32, end: interpolated_text(segs).len() as u32 }
}

/// Whether the segments make a string that both styles can write: it has
/// literal text and a variable, no two pieces of text follow each other,
/// every text is non-empty ASCII without `\`, `$` or `"`, every variable
/// starts with `$`, and both texts fit in the offsets of a file.
pub open spec fn segments_valid(segs: Seq<(bool, Seq<char>)>) -> bool {
    &&& exists|k: int| 0 <= k < segs.len() && !(#[trigger] segs[k]).0
    &&& exists|k: int| 0 <= k < segs.len() && (#[trigger] segs[k]).0
    &&& forall|k: int|
        0 <= k < segs.len() ==> (#[trigger] segs[k]).1.len() >= 1 && forall|c: int|
            0 <= c < segs[k].1.len() ==> ((#[trigger] segs[k].1[c]) as u32) < 128
    &&& forall|k: int| 0 <= k < segs.len() && !(#[trigger] segs[k]).0 ==> !has_quote_sensitive_char(segs[k].1)
    &&& forall|k: int| 0 <= k < segs.len() && (#[trigger] segs[k]).0 ==> segs[k].1[0] == '$'
    &&& forall|k: int| 0 <= k < segs.len() - 1 ==> (#[trigger] segs[k]).0 || segs[k + 1].0
    &&& concatenation_text(segs).len() < u32::MAX
    &&& interpolated_text(segs).len() < u32::MAX
}

// ---------------------------------------------------------------------------
// Where the segments are
// ---------------------------------------------------------------------------

proof fn lemma_take_split(s: Seq<char>, x: int, y: int)
    requires
        0 <= x <= y <= s.len(),
    ensures
        s.take(y) == s.take(x) + s.subrange(x, y),
{
    assert(s.take(y) =~= s.take(x) + s.subrange(x, y));
}

proof fn lemma_concatenation_prefix(segs: Seq<(bool, Seq<char>)>, j: int)
    requires
        0 <= j <= segs.len(),
    ensures
        concatenation_text(segs.take(j)).len() <= concatenation_text(segs).len(),
        concatenation_text(segs).take(concatenation_text(segs.take(j)).len() as int) == concatenation_text(
            segs.take(j),
        ),
    decreases segs.len(),
{
    if j == segs.len() {
        assert(segs.take(j) =~= segs);
        assert(concatenation_text(segs).take(concatenation_text(segs).len() as int) =~= concatenation_text(segs));
    } else if j == 0 {
        assert(segs.take(0) =~= Seq::<(bool, Seq<char>)>::empty());
        assert(concatenation_text(segs).take(0) =~= Seq::<char>::empty());
    } else {
        let d = segs.drop_last();
        assert(d.take(j) =~= segs.take(j));
        lemma_concatenation_prefix(d, j);
        let l = concatenation_text(segs.take(j)).len() as int;
        assert(concatenation_text(segs).take(l) =~= concatenation_text(d).take(l));
    }
}

proof fn lemma_concatenation_step(segs: Seq<(bool, Seq<char>)>, k: int)
    requires
        0 <= k < segs.len(),
    ensures
        k == 0 ==> concatenation_text(segs.take(k + 1)) == concatenated_segment(segs[k]),
        k > 0 ==> concatenation_text(segs.take(k + 1)) == concatenation_text(segs.take(k)) + seq![' ', '.', ' ']
            + concatenated_segment(segs[k]),
{
    let t = segs.take(k + 1);
    assert(t.drop_last() =~= segs.take(k));
    assert(t.last() == segs[k]);
}

/// The concatenation holds each segment where its offsets say, with ` . `
/// between consecutive ones.
proof fn lemma_concatenation_layout(segs: Seq<(bool, Seq<char>)>, k: int)
    requires
        0 <= k < segs.len(),
    ensures
        segment_end(segs, k) == concatenation_text(segs.take(k + 1)).len(),
        0 <= segment_start(segs, k) <= segment_end(segs, k) <= concatenation_text(segs).len(),
        concatenation_text(segs).subrange(segment_start(segs, k), segment_end(segs, k)) == concatenated_segment(
            segs[k],
        ),
        k > 0 ==> concatenation_text(segs).subrange(segment_end(segs, k - 1), segment_start(segs, k)) == seq![
            ' ',
            '.',
            ' ',
        ],
        k > 0 ==> segment_start(segs, k) == segment_end(segs, k - 1) + 3,
        k == segs.len() - 1 ==> segment_end(segs, k) == concatenation_text(segs).len(),
{
    let s = concatenation_text(segs);
    let x = concatenation_text(segs.take(k + 1));
    lemma_concatenation_prefix(segs, k + 1);
    lemma_concatenation_step(segs, k);
    if k > 0 {
        lemma_concatenation_prefix(segs, k);
        lemma_concatenation_step(segs, k - 1);
        let y = concatenation_text(segs.take(k));
        assert(s.subrange(segment_start(segs, k), segment_end(segs, k)) =~= x.subrange(
            y.len() as int + 3,
            x.len() as int,
        ));
        assert(s.subrange(y.len() as int, y.len() as int + 3) =~= x.subrange(y.len() as int, y.len() as int + 3));
        if k - 1 == 0 {
        }
    } else {
        assert(s.subrange(0, segment_end(segs, 0)) =~= x);
    }
    if k == segs.len() - 1 {
        assert(segs.take(k + 1) =~= segs);
    }
}

proof fn lemma_body_prefix(segs: Seq<(bool, Seq<char>)>, j: int)
    requires
        0 <= j <= segs.len(),
    ensures
        interpolated_body(segs.take(j)).len() <= interpolated_body(segs).len(),
        interpolated_body(segs).take(interpolated_body(segs.take(j)).len() as int) == interpolated_body(
            segs.take(j),
        ),
    decreases segs.len(),
{
    if j == segs.len() {
        assert(segs.take(j) =~= segs);
        assert(interpolated_body(segs).take(interpolated_body(segs).len() as int) =~= interpolated_body(segs));
    } else {
        let d = segs.drop_last();
        assert(d.take(j) =~= segs.take(j));
        lemma_body_prefix(d, j);
        let l = interpolated_body(segs.take(j)).len() as int;
        assert(interpolated_body(segs).take(l) =~= interpolated_body(d).take(l));
    }
}

proof fn lemma_body_step(segs: Seq<(bool, Seq<char>)>, k: int)
    requires
        0 <= k < segs.len(),
    ensures
        interpolated_body(segs.take(k + 1)) == interpolated_body(segs.take(k)) + interpolated_segment(segs[k]),
{
    let t = segs.take(k + 1);
    assert(t.drop_last() =~= segs.take(k));
    assert(t.last() == segs[k]);
}

/// The interpolated string holds each segment where its offsets say, with
/// nothing between consecutive ones.
proof fn lemma_body_layout(segs: Seq<(bool, Seq<char>)>, k: int)
    requires
        0 <= k < segs.len(),
    ensures
        body_end(segs, k) == 1 + interpolated_body(segs.take(k + 1)).len(),
        1 <= body_start(segs, k) <= body_end(segs, k) <= interpolated_text(segs).len() - 1,
        interpolated_text(segs).subrange(body_start(segs, k), body_end(segs, k)) == interpolated_segment(segs[k]),
        k > 0 ==> body_start(segs, k) == body_end(segs, k - 1),
        k == segs.len() - 1 ==> body_end(segs, k) == interpolated_text(segs).len() - 1,
        interpolated_text(segs)[0] == '"',
        interpolated_text(segs)[interpolated_text(segs).len() - 1] == '"',
{
    let t = interpolated_text(segs);
    let b = interpolated_body(segs);
    lemma_body_prefix(segs, k + 1);
    lemma_body_step(segs, k);
    let y = interpolated_body(segs.take(k));
    let x = interpolated_body(segs.take(k + 1));
    assert(t.subrange(body_start(segs, k), body_end(segs, k)) =~= x.subrange(y.len() as int, x.len() as int));
    if k > 0 {
        lemma_body_step(segs, k - 1);
    }
    if k == segs.len() - 1 {
        assert(segs.take(k + 1) =~= segs);
    }
}

// ---------------------------------------------------------------------------
// From the concatenation to the interpolated string
// ---------------------------------------------------------------------------

/// Where, in the concatenation, the text of segment `k` begins: after the
/// opening quote of a literal.
pub open spec fn concatenation_cut(segs: Seq<(bool, Seq<char>)>, k: int) -> int {
    if segs[k].0 {
        segment_start(segs, k)
    } else {
        segment_start(segs, k) + 1
    }
}

/// Where, in the interpolated string, the text of segment `k` begins: after
/// the opening brace of a variable.
pub open spec fn interpolation_cut(segs: Seq<(bool, Seq<char>)>, k: int) -> int {
    if segs[k].0 {
        body_start(segs, k) + 1
    } else {
        body_start(segs, k)
    }
}

/// The interpolated string up to the text of segment `k - 1`.
pub open spec fn interpolated_up_to(segs: Seq<(bool, Seq<char>)>, k: int) -> Seq<char> {
    seq!['"'] + interpolated_body(segs.take(k - 1)) + if segs[k - 1].0 {
        seq!['{']
    } else {
        Seq::empty()
    }
}

proof fn lemma_offsets_fit(segs: Seq<(bool, Seq<char>)>, k: int)
    requires
        segments_valid(segs),
        0 <= k < segs.len(),
    ensures
        0 <= segment_start(segs, k) < segment_end(segs, k) <= concatenation_text(segs).len() < u32::MAX,
        segment_start(segs, k) + 2 < segment_end(segs, k) || segs[k].0,
        0 < body_start(segs, k) < body_end(segs, k) < interpolated_text(segs).len() < u32::MAX,
        body_start(segs, k) + 2 < body_end(segs, k) || !segs[k].0,
{
    lemma_concatenation_layout(segs, k);
    lemma_body_layout(segs, k);
    assert(segs[k].1.len() >= 1);
}

#[verifier::rlimit(80)]
proof fn lemma_interpolation_prefix(segs: Seq<(bool, Seq<char>)>, k: int, m: int)
    requires
        segments_valid(segs),
        1 <= k <= segs.len(),
        concatenation_cut(segs, k - 1) <= m <= concatenation_text(segs).len(),
    ensures
        apply_edits_upto(
            concatenation_text(segs),
            seq![opening_edit(concatenated_parts(segs)[0])] + interpolation_glues(concatenated_parts(segs)).take(
                k - 1,
            ),
            m,
        ) == interpolated_up_to(segs, k) + concatenation_text(segs).subrange(concatenation_cut(segs, k - 1), m),
    decreases k,
{
    let s = concatenation_text(segs);
    let parts = concatenated_parts(segs);
    let glues = interpolation_glues(parts);
    let p = seq![opening_edit(parts[0])] + glues.take(k - 1);
    lemma_offsets_fit(segs, k - 1);
    lemma_concatenation_layout(segs, k - 1);
    reveal_strlit("\"{");
    reveal_strlit("\"");
    reveal_strlit("{");
    reveal_strlit("}");
    reveal_strlit("}{");
    if k == 1 {
        assert(p =~= seq![opening_edit(parts[0])]);
        assert(p.drop_last() =~= Seq::<(u32, u32, Seq<char>)>::empty());
        assert(segs.take(0) =~= Seq::<(bool, Seq<char>)>::empty());
        assert(interpolated_body(segs.take(0)) =~= Seq::<char>::empty());
        assert(s.take(0) =~= Seq::<char>::empty());
        assert(apply_edits_upto(s, p.drop_last(), p.last().0 as int) == s.take(p.last().0 as int));
        if segs[0].0 {
            assert(parts[0] == ConcatPart::Interpolable {
                span: Span { start: 0, end: segment_end(segs, 0) as u32 },
            });
            assert(interpolated_up_to(segs, 1) =~= seq!['"', '{']);
            assert(apply_edits_upto(s, p, m) =~= interpolated_up_to(segs, k) + s.subrange(
                concatenation_cut(segs, k - 1),
                m,
            ));
        } else {
            assert(parts[0] == ConcatPart::Literal {
                span: Span { start: 0, end: segment_end(segs, 0) as u32 },
                safe_to_double_quote: true,
            });
            assert(interpolated_up_to(segs, 1) =~= seq!['"']);
            assert(apply_edits_upto(s, p, m) =~= interpolated_up_to(segs, k) + s.subrange(
                concatenation_cut(segs, k - 1),
                m,
            ));
        }
    } else {
        let prev = seq![opening_edit(parts[0])] + glues.take(k - 2);
        assert(p.drop_last() =~= prev);
        assert(p.last() == interpolation_glue(parts[k - 2], parts[k - 1]));
        let g = interpolation_glue(parts[k - 2], parts[k - 1]);
        lemma_offsets_fit(segs, k - 2);
        lemma_concatenation_layout(segs, k - 2);
        lemma_body_step(segs, k - 2);
        let a = segs[k - 2];
        let b = segs[k - 1];
        assert(a.0 || b.0);
        let ss = segment_start(segs, k - 2);
        let se = segment_end(segs, k - 2);
        assert(s.subrange(ss, se) == concatenated_segment(a));
        if !a.0 {
            assert(s.subrange(ss + 1, se - 1) =~= s.subrange(ss, se).subrange(1, se - ss - 1));
            assert(s.subrange(ss + 1, se - 1) =~= a.1);
        }
        assert(concatenation_cut(segs, k - 2) <= g.0 <= s.len());
        lemma_interpolation_prefix(segs, k - 1, g.0 as int);
        assert(g.1 as int == concatenation_cut(segs, k - 1));
        assert(interpolated_up_to(segs, k) =~= interpolated_up_to(segs, k - 1) + s.subrange(
            concatenation_cut(segs, k - 2),
            g.0 as int,
        ) + g.2);
        assert(apply_edits_upto(s, p, m) =~= interpolated_up_to(segs, k) + s.subrange(
            concatenation_cut(segs, k - 1),
            m,
        ));
    }
}

/// The interpolation fix, applied to the concatenation, gives the
/// interpolated string; the rule reports the concatenation with that fix.
pub proof fn law_interpolation_fix_interpolates(segs: Seq<(bool, Seq<char>)>, e: ConcatOperand)
    requires
        segments_valid(segs),
        e is Concat,
        concat_parts(e) == concatenated_parts(segs),
    ensures
        spec_prefer_interpolation(e, false) == Some(Some(interpolation_fix(concatenated_parts(segs)))),
        apply_edits(concatenation_text(segs), interpolation_fix_in_order(concatenated_parts(segs)))
            == interpolated_text(segs),
{
    let s = concatenation_text(segs);
    let parts = concatenated_parts(segs);
    let n = segs.len() as int;
    let kl = choose|k: int| 0 <= k < segs.len() && !(#[trigger] segs[k]).0;
    let kv = choose|k: int| 0 <= k < segs.len() && (#[trigger] segs[k]).0;
    assert(parts[kl] is Literal);
    assert(parts[kv] is Interpolable);
    assert forall|k: int| 0 <= k < parts.len() implies !(#[trigger] parts[k] is Other) && is_fixable(parts[k]) by {
    }
    let glues = interpolation_glues(parts);
    let body = seq![opening_edit(parts[0])] + glues.take(n - 1);
    assert(glues.take(n - 1) =~= glues);
    let close = closing_edit(parts.last());
    assert(interpolation_fix_in_order(parts) =~= body.push(close));
    assert(interpolation_fix_in_order(parts).drop_last() =~= body);
    lemma_offsets_fit(segs, n - 1);
    lemma_concatenation_layout(segs, n - 1);
    lemma_body_step(segs, n - 1);
    assert(segs.take(n) =~= segs);
    reveal_strlit("}\"");
    reveal_strlit("\"");
    let ss = segment_start(segs, n - 1);
    let se = segment_end(segs, n - 1);
    if !segs[n - 1].0 {
        assert(s.subrange(ss + 1, se - 1) =~= s.subrange(ss, se).subrange(1, se - ss - 1));
    }
    lemma_interpolation_prefix(segs, n, close.0 as int);
    assert(apply_edits(s, interpolation_fix_in_order(parts)) =~= interpolated_text(segs));
}

// ---------------------------------------------------------------------------
// From the interpolated string back to the concatenation
// ---------------------------------------------------------------------------

proof fn lemma_kept_parts_all(parts: Seq<StringPart>)
    requires
        forall|k: int| 0 <= k < parts.len() && (#[trigger] parts[k]) is Literal ==> parts[k]->Literal_value@.len() > 0,
    ensures
        kept_parts(parts) == parts,
    decreases parts.len(),
{
    if parts.len() > 0 {
        lemma_kept_parts_all(parts.drop_last());
        assert(parts.drop_last().push(parts.last()) =~= parts);
    }
}

#[verifier::rlimit(80)]
proof fn lemma_concatenation_prefix_back(segs: Seq<(bool, Seq<char>)>, parts: Seq<StringPart>, k: int, m: int)
    requires
        segments_valid(segs),
        are_interpolated_parts(segs, parts),
        1 <= k <= segs.len(),
        interpolation_cut(segs, k - 1) <= m <= interpolated_text(segs).len(),
    ensures
        apply_edits_upto(
            interpolated_text(segs),
            concatenation_opening(parts, opening_quote()) + concatenation_glues(parts).take(k - 1),
            m,
        ) == concatenation_text(segs).take(concatenation_cut(segs, k - 1)) + interpolated_text(segs).subrange(
            interpolation_cut(segs, k - 1),
            m,
        ),
    decreases k,
{
    let s = concatenation_text(segs);
    let t = interpolated_text(segs);
    let glues = concatenation_glues(parts);
    let opening = concatenation_opening(parts, opening_quote());
    let p = opening + glues.take(k - 1);
    lemma_offsets_fit(segs, k - 1);
    lemma_concatenation_layout(segs, k - 1);
    lemma_body_layout(segs, k - 1);
    reveal_strlit("");
    reveal_strlit("\" . ");
    reveal_strlit(" . \"");
    reveal_strlit(" . ");
    if k == 1 {
        assert(glues.take(0) =~= Seq::<(u32, u32, Seq<char>)>::empty());
        assert(p =~= opening);
        assert(segs.take(0) =~= Seq::<(bool, Seq<char>)>::empty());
        assert(t.take(0) =~= Seq::<char>::empty());
        assert(parts[0] == parts[0]);
        if segs[0].0 {
            assert(p.drop_last() =~= Seq::<(u32, u32, Seq<char>)>::empty());
            assert(apply_edits_upto(t, p.drop_last(), p.last().0 as int) == t.take(p.last().0 as int));
            assert(s.take(0) =~= Seq::<char>::empty());
            assert(apply_edits_upto(t, p, m) =~= s.take(concatenation_cut(segs, 0)) + t.subrange(
                interpolation_cut(segs, 0),
                m,
            ));
        } else {
            assert(parts[0] is Literal);
            assert(p.len() == 0);
            assert(apply_edits_upto(t, p, m) == t.take(m));
            assert(s.take(1) =~= seq!['"']);
            lemma_take_split(t, 1, m);
            assert(t.take(1) =~= seq!['"']);
            assert(apply_edits_upto(t, p, m) =~= s.take(concatenation_cut(segs, 0)) + t.subrange(
                interpolation_cut(segs, 0),
                m,
            ));
        }
    } else {
        let prev = opening + glues.take(k - 2);
        assert(p.drop_last() =~= prev);
        assert(p.last() == concatenation_glue(parts[k - 2], parts[k - 1]));
        let g = concatenation_glue(parts[k - 2], parts[k - 1]);
        lemma_offsets_fit(segs, k - 2);
        lemma_concatenation_layout(segs, k - 2);
        lemma_body_layout(segs, k - 2);
        let a = segs[k - 2];
        let b = segs[k - 1];
        assert(a.0 || b.0);
        let bs = body_start(segs, k - 2);
        let be = body_end(segs, k - 2);
        if a.0 {
            assert(t.subrange(bs + 1, be - 1) =~= t.subrange(bs, be).subrange(1, be - bs - 1));
            assert(t.subrange(bs + 1, be - 1) =~= a.1);
        }
        assert(interpolation_cut(segs, k - 2) <= g.0 <= t.len());
        lemma_concatenation_prefix_back(segs, parts, k - 1, g.0 as int);
        assert(g.1 as int == interpolation_cut(segs, k - 1));
        let ss = segment_start(segs, k - 2);
        let se = segment_end(segs, k - 2);
        let ns = segment_start(segs, k - 1);
        lemma_take_split(s, concatenation_cut(segs, k - 2), se);
        lemma_take_split(s, se, ns);
        lemma_take_split(s, ns, concatenation_cut(segs, k - 1));
        lemma_take_split(s, ss, concatenation_cut(segs, k - 2));
        assert(s.subrange(ss, se) == concatenated_segment(a));
        if !a.0 {
            assert(s.subrange(ss + 1, se) =~= s.subrange(ss, se).subrange(1, se - ss));
        }
        if !b.0 {
            assert(s.subrange(ns, ns + 1) =~= s.subrange(ns, segment_end(segs, k - 1)).subrange(0, 1));
        }
        assert(s.take(concatenation_cut(segs, k - 1)) =~= s.take(concatenation_cut(segs, k - 2)) + t.subrange(
            interpolation_cut(segs, k - 2),
            g.0 as int,
        ) + g.2);
        assert(apply_edits_upto(t, p, m) =~= s.take(concatenation_cut(segs, k - 1)) + t.subrange(
            interpolation_cut(segs, k - 1),
            m,
        ));
    }
}

/// The concatenation fix, applied to the interpolated string, gives the
/// concatenation back; the rule reports the interpolated string with that
/// fix.
#[verifier::rlimit(80)]
pub proof fn law_concatenation_fix_concatenates(segs: Seq<(bool, Seq<char>)>, parts: Seq<StringPart>)
    requires
        segments_valid(segs),
        are_interpolated_parts(segs, parts),
    ensures
        spec_prefer_concatenation(parts, opening_quote(), closing_quote(segs)) == Some(
            Some(concatenation_fix(parts, opening_quote(), closing_quote(segs))),
        ),
        apply_edits(
            interpolated_text(segs),
            concatenation_fix_in_order(parts, opening_quote(), closing_quote(segs)),
        ) == concatenation_text(segs),
{
    let s = concatenation_text(segs);
    let t = interpolated_text(segs);
    let n = segs.len() as int;
    assert forall|k: int| 0 <= k < parts.len() && (#[trigger] parts[k]) is Literal implies parts[k]->Literal_value@.len()
        > 0 by {
        assert(segs[k].1.len() >= 1);
    }
    lemma_kept_parts_all(parts);
    let glues = concatenation_glues(parts);
    let opening = concatenation_opening(parts, opening_quote());
    let closing = concatenation_closing(parts, closing_quote(segs));
    let body = opening + glues.take(n - 1);
    assert(glues.take(n - 1) =~= glues);
    lemma_offsets_fit(segs, n - 1);
    lemma_concatenation_layout(segs, n - 1);
    lemma_body_layout(segs, n - 1);
    reveal_strlit("");
    let ss = segment_start(segs, n - 1);
    let bs = body_start(segs, n - 1);
    let be = body_end(segs, n - 1);
    lemma_take_split(s, ss, s.len() as int);
    assert(s.take(s.len() as int) =~= s);
    if segs[n - 1].0 {
        assert(concatenation_fix_in_order(parts, opening_quote(), closing_quote(segs)) =~= body.push(closing[0]));
        assert(concatenation_fix_in_order(parts, opening_quote(), closing_quote(segs)).drop_last() =~= body);
        assert(t.subrange(bs + 1, be - 1) =~= t.subrange(bs, be).subrange(1, be - bs - 1));
        lemma_concatenation_prefix_back(segs, parts, n, be - 1);
    } else {
        assert(concatenation_fix_in_order(parts, opening_quote(), closing_quote(segs)) =~= body);
        lemma_take_split(s, ss, ss + 1);
        assert(s.subrange(ss, s.len() as int) =~= seq!['"'] + segs[n - 1].1 + seq!['"']);
        assert(t.subrange(bs, t.len() as int) =~= t.subrange(bs, be) + seq!['"']);
        lemma_concatenation_prefix_back(segs, parts, n, t.len() as int);
    }
    assert(apply_edits(t, concatenation_fix_in_order(parts, opening_quote(), closing_quote(segs))) =~= s);
}

/// The two fixes undo each other: a concatenation of literal text and
/// variables that the interpolation style rewrites comes back unchanged
/// when the concatenation style rewrites the result, and the rewritten
/// string comes back when the interpolation style rewrites the
/// concatenation again.
pub proof fn law_style_fixes_round_trip(segs: Seq<(bool, Seq<char>)>, e: ConcatOperand, parts: Seq<StringPart>)
    requires
        segments_valid(segs),
        e is Concat,
        concat_parts(e) == concatenated_parts(segs),
        are_interpolated_parts(segs, parts),
    ensures
        apply_edits(
            apply_edits(concatenation_text(segs), interpolation_fix_in_order(concatenated_parts(segs))),
            concatenation_fix_in_order(parts, opening_quote(), closing_quote(segs)),
        ) == concatenation_text(segs),
        apply_edits(
            apply_edits(
                interpolated_text(segs),
                concatenation_fix_in_order(parts, opening_quote(), closing_quote(segs)),
            ),
            interpolation_fix_in_order(concatenated_parts(segs)),
        ) == interpolated_text(segs),
{
    law_interpolation_fix_interpolates(segs, e);
    law_concatenation_fix_concatenates(segs, parts);
}

} // verus!
