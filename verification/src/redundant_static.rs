//! `static` inside a final class: late static binding has no effect there,
//! so `static` can be `self`.
use vstd::prelude::*;

use crate::edit::{edit, edits_view, lemma_edits_view_push, Span, TextEdit};

verus! {

broadcast use lemma_edits_view_push;

/// A node enclosing the checked one, innermost first, as far as the rule
/// reads it.
#[derive(Clone, Copy, PartialEq, Eq, Debug)]
pub enum Ancestor {
    /// A class, and whether it is declared `final`.
    Class { is_final: bool },
    /// An interface, trait, enum or anonymous class.
    OtherClassLike,
    Other,
}

/// Whether the innermost enclosing class-like, from position `k` outwards,
/// is a final class.
pub open spec fn inside_final_class_from(ancestors: Seq<Ancestor>, k: int) -> bool
    decreases ancestors.len() - k,
{
    if k < 0 || k >= ancestors.len() {
        false
    } else {
        match ancestors[k] {
            Ancestor::Class { is_final } => is_final,
            Ancestor::OtherClassLike => false,
            Ancestor::Other => inside_final_class_from(ancestors, k + 1),
        }
    }
}

/// Whether the innermost enclosing class-like is a final class.
pub fn is_inside_final_class(ancestors: &Vec<Ancestor>) -> (r: bool)
    ensures
        r == inside_final_class_from(ancestors@, 0),
{
    let mut k: usize = 0;
    while k < ancestors.len()
        invariant
            k <= ancestors.len(),
            inside_final_class_from(ancestors@, k as int) == inside_final_class_from(ancestors@, 0),
        decreases ancestors.len() - k,
    {
        match ancestors[k] {
            Ancestor::Class { is_final } => return is_final,
            Ancestor::OtherClassLike => return false,
            Ancestor::Other => {},
        }
        k += 1;
    }
    false
}

/// A type hint, as far as the rule reads it.
#[derive(PartialEq, Eq, Debug)]
pub enum HintNode {
    Static { span: Span },
    Parenthesized { inner: Box<HintNode> },
    Nullable { inner: Box<HintNode> },
    Union { left: Box<HintNode>, right: Box<HintNode> },
    Intersection { left: Box<HintNode>, right: Box<HintNode> },
    Other,
}

/// The `static` keywords in a return type hint, left to right, looking
/// through parentheses, `?`, unions and intersections.
pub open spec fn static_in_hint(h: HintNode) -> Seq<Span>
    decreases h,
{
    match h {
        HintNode::Static { span } => seq![span],
        HintNode::Parenthesized { inner } => static_in_hint(*inner),
        HintNode::Nullable { inner } => static_in_hint(*inner),
        HintNode::Union { left, right } => static_in_hint(*left) + static_in_hint(*right),
        HintNode::Intersection { left, right } => static_in_hint(*left) + static_in_hint(*right),
        HintNode::Other => Seq::empty(),
    }
}

fn collect_static_in_hint(h: &HintNode, out: &mut Vec<Span>)
    ensures
        final(out)@ == old(out)@ + static_in_hint(*h),
    decreases h,
{
    match h {
        HintNode::Static { span } => out.push(*span),
        HintNode::Parenthesized { inner } => collect_static_in_hint(inner, out),
        HintNode::Nullable { inner } => collect_static_in_hint(inner, out),
        HintNode::Union { left, right } => {
            collect_static_in_hint(left, out);
            collect_static_in_hint(right, out);
            assert(out@ =~= old(out)@ + static_in_hint(*h));
        },
        HintNode::Intersection { left, right } => {
            collect_static_in_hint(left, out);
            collect_static_in_hint(right, out);
            assert(out@ =~= old(out)@ + static_in_hint(*h));
        },
        HintNode::Other => {
            assert(out@ =~= old(out)@ + static_in_hint(*h));
        },
    }
}

/// A node the rule checks.
#[derive(PartialEq, Eq, Debug)]
pub enum StaticUse {
    /// A method, with its return type hint if it has one.
    Method { return_hint: Option<HintNode> },
    /// `new C`, `C::m()`, `C::m(...)`, `C::$p` or `C::K`: the span of the
    /// class part when it is the keyword `static`.
    ClassReference { static_keyword: Option<Span> },
}

/// The `static` keywords that the rule reports for a node: none outside a
/// final class.
pub open spec fn spec_redundant_static(ancestors: Seq<Ancestor>, node: StaticUse) -> Seq<Span> {
    if !inside_final_class_from(ancestors, 0) {
        Seq::empty()
    } else {
        match node {
            StaticUse::Method { return_hint: Some(h) } => static_in_hint(h),
            StaticUse::Method { return_hint: None } => Seq::empty(),
            StaticUse::ClassReference { static_keyword: Some(s) } => seq![s],
            StaticUse::ClassReference { static_keyword: None } => Seq::empty(),
        }
    }
}

/// The fix for the reported keywords: each becomes `self`.
pub open spec fn self_replacements(spans: Seq<Span>) -> Seq<(u32, u32, Seq<char>)> {
    spans.map_values(|s: Span| edit(s.start, s.end, "self"@))
}

/// Checks a node: the reported `static` keywords, and their replacements.
pub fn check_redundant_static(ancestors: &Vec<Ancestor>, node: &StaticUse) -> (r: (Vec<Span>, Vec<TextEdit>))
    ensures
        r.0@ == spec_redundant_static(ancestors@, *node),
        edits_view(r.1@) == self_replacements(r.0@),
{
    let mut spans: Vec<Span> = Vec::new();
    if is_inside_final_class(ancestors) {
        match node {
            StaticUse::Method { return_hint: Some(h) } => collect_static_in_hint(h, &mut spans),
            StaticUse::Method { return_hint: None } => {},
            StaticUse::ClassReference { static_keyword: Some(s) } => spans.push(*s),
            StaticUse::ClassReference { static_keyword: None } => {},
        }
    }
    assert(spans@ =~= spec_redundant_static(ancestors@, *node));
    let mut edits: Vec<TextEdit> = Vec::new();
    let mut k: usize = 0;
    while k < spans.len()
        invariant
            k <= spans.len(),
            edits_view(edits@) == self_replacements(spans@.take(k as int)),
        decreases spans.len() - k,
    {
        edits.push(TextEdit { start: spans[k].start, end: spans[k].end, text: "self" });
        assert(self_replacements(spans@.take(k + 1)) =~= self_replacements(spans@.take(k as int)).push(
            edit(spans@[k as int].start, spans@[k as int].end, "self"@),
        ));
        k += 1;
    }
    assert(spans@.take(k as int) =~= spans@);
    (spans, edits)
}

} // verus!
