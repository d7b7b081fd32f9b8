//! `is_null($x)` is better written `null === $x` (and `!is_null($x)` as
//! `null !== $x`).
use vstd::prelude::*;

use crate::edit::Span;
use crate::text::bytes_subrange;

verus! {

/// A node above the `is_null(...)` call, innermost first, as far as the
/// rule reads it.
#[derive(Clone, Copy, PartialEq, Eq, Debug)]
pub enum ParentNode {
    /// An expression or call wrapper node, which the rule looks through.
    Transparent,
    /// Parentheses around the call.
    Parenthesized { span: Span },
    /// A `!` applied to the call.
    Not { span: Span },
    /// Anything else, which ends the walk.
    Other,
}

/// The expression that the report and the fix cover, and whether it is
/// negated, starting from the call's span and walking the parents from
/// position `k` outwards: parentheses and `!` widen it, each `!` flips the
/// negation, and the first other node stops the walk.
pub open spec fn context_from(parents: Seq<ParentNode>, k: int, span: Span, negated: bool) -> (Span, bool)
    decreases parents.len() - k,
{
    if k < 0 || k >= parents.len() {
        (span, negated)
    } else {
        match parents[k] {
            ParentNode::Transparent => context_from(parents, k + 1, span, negated),
            ParentNode::Parenthesized { span: s } => context_from(parents, k + 1, s, negated),
            ParentNode::Not { span: s } => context_from(parents, k + 1, s, !negated),
            ParentNode::Other => (span, negated),
        }
    }
}

/// The bytes of `null === ` or, negated, `null !== `.
pub open spec fn null_comparison_prefix(negated: bool) -> Seq<u8> {
    seq![0x6eu8, 0x75u8, 0x6cu8, 0x6cu8, 0x20u8] + seq![if negated { 0x21u8 } else { 0x3du8 }, 0x3du8, 0x3du8, 0x20u8]
}

/// The argument of the call, when the fix applies.
#[derive(Clone, Copy, PartialEq, Eq, Debug)]
pub struct IsNullArgument {
    /// Whether it is spread, as in `is_null(...$v)`.
    pub spread: bool,
    pub span: Span,
}

/// What the rule reports of an `is_null(...)` call: the expression
/// reported, whether it is negated, and the fix, which replaces that
/// expression with `replacement`, when the call has a single argument that
/// is not spread.
#[derive(PartialEq, Eq, Debug)]
pub struct IsNullReport {
    pub span: Span,
    pub negated: bool,
    pub replacement: Option<Vec<u8>>,
}

/// What the rule reports of a call of `is_null` (the name as resolved in
/// its namespace): `call` is the span of the call, `parents` its parent
/// nodes innermost first, `arguments` its arguments.
pub open spec fn spec_is_null(
    call: Span,
    parents: Seq<ParentNode>,
    arguments: Seq<IsNullArgument>,
    source: Seq<u8>,
) -> (Span, bool, Option<Seq<u8>>) {
    let (span, negated) = context_from(parents, 0, call, false);
    if arguments.len() != 1 || arguments[0].spread {
        (span, negated, None)
    } else {
        let a = arguments[0].span;
        (span, negated, Some(null_comparison_prefix(negated) + source.subrange(a.start as int, a.end as int)))
    }
}

/// The plain values of a report.
pub open spec fn is_null_view(r: IsNullReport) -> (Span, bool, Option<Seq<u8>>) {
    (
        r.span,
        r.negated,
        match r.replacement {
            Some(v) => Some(v@),
            None => None,
        },
    )
}

/// The expression around the call that the report covers, and whether it
/// is negated.
pub fn surrounding_context(call: Span, parents: &Vec<ParentNode>) -> (r: (Span, bool))
    ensures
        r == context_from(parents@, 0, call, false),
{
    let mut span = call;
    let mut negated = false;
    let mut k: usize = 0;
    while k < parents.len()
        invariant
            k <= parents.len(),
            context_from(parents@, k as int, span, negated) == context_from(parents@, 0, call, false),
        decreases parents.len() - k,
    {
        match parents[k] {
            ParentNode::Transparent => {},
            ParentNode::Parenthesized { span: s } => {
                span = s;
            },
            ParentNode::Not { span: s } => {
                span = s;
                negated = !negated;
            },
            ParentNode::Other => {
                return (span, negated);
            },
        }
        k += 1;
    }
    (span, negated)
}

/// Checks a call of `is_null`.
pub fn check_is_null(call: Span, parents: &Vec<ParentNode>, arguments: &Vec<IsNullArgument>, source: &[u8]) -> (r:
    IsNullReport)
    requires
        arguments.len() == 1 ==> arguments@[0].span.start <= arguments@[0].span.end <= source@.len(),
    ensures
        is_null_view(r) == spec_is_null(call, parents@, arguments@, source@),
{
    let (span, negated) = surrounding_context(call, parents);
    if arguments.len() != 1 || arguments[0].spread {
        return IsNullReport { span, negated, replacement: None };
    }
    let a = arguments[0].span;
    let mut text: Vec<u8> = Vec::new();
    text.push(0x6eu8);
    text.push(0x75u8);
    text.push(0x6cu8);
    text.push(0x6cu8);
    text.push(0x20u8);
    text.push(if negated { 0x21u8 } else { 0x3du8 });
    text.push(0x3du8);
    text.push(0x3du8);
    text.push(0x20u8);
    let mut arg = bytes_subrange(source, a.start as usize, a.end as usize);
    let ghost prefix = text@;
    text.append(&mut arg);
    assert(prefix =~= null_comparison_prefix(negated));
    IsNullReport { span, negated, replacement: Some(text) }
}

proof fn lemma_context_shift(q: Seq<ParentNode>, p: Seq<ParentNode>, k: int, span: Span, negated: bool)
    requires
        0 <= k <= p.len(),
    ensures
        context_from(q + p, q.len() + k, span, negated) == context_from(p, k, span, negated),
    decreases p.len() - k,
{
    if k < p.len() {
        assert((q + p)[q.len() + k] == p[k]);
        match p[k] {
            ParentNode::Transparent => lemma_context_shift(q, p, k + 1, span, negated),
            ParentNode::Parenthesized { span: s } => lemma_context_shift(q, p, k + 1, s, negated),
            ParentNode::Not { span: s } => lemma_context_shift(q, p, k + 1, s, !negated),
            ParentNode::Other => {},
        }
    }
}

/// Two `!` around a call cancel out: whatever encloses them, the report
/// covers what the outer `!` covers and is negated exactly as it would be
/// without the pair.
pub proof fn law_double_negation_cancels(call: Span, inner: Span, outer: Span, rest: Seq<ParentNode>)
    ensures
        context_from(seq![ParentNode::Not { span: inner }, ParentNode::Not { span: outer }] + rest, 0, call, false)
            == context_from(rest, 0, outer, false),
{
    let q = seq![ParentNode::Not { span: inner }, ParentNode::Not { span: outer }];
    lemma_context_shift(q, rest, 0, outer, false);
    assert((q + rest)[0] == q[0]);
    assert((q + rest)[1] == q[1]);
    assert(context_from(q + rest, 1, inner, true) == context_from(q + rest, 2, outer, false));
}

} // verus!
