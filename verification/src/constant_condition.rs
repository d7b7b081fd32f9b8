//! `if` statements whose condition is a constant: an always-true condition
//! makes the `if` wrapper redundant, an always-false one makes its body dead.
use vstd::prelude::*;

use crate::edit::{deletion, edits_view, span_deletion, delete, delete_span, lemma_edits_view_push, Span, TextEdit};

verus! {

broadcast use lemma_edits_view_push;

/// What is known of an `if` condition without running it.
#[derive(Clone, Copy, PartialEq, Eq, Debug)]
pub enum ConditionValue {
    /// It always evaluates to `true`.
    AlwaysTrue,
    /// It always evaluates to `false`.
    AlwaysFalse,
    /// Neither is known.
    Unknown,
}

/// An `elseif` clause: its whole span and the span of its keyword.
#[derive(Clone, Copy, PartialEq, Eq, Debug)]
pub struct ElseIfClause {
    pub span: Span,
    pub keyword: Span,
}

/// The `else` clause of an `if` with a statement body: its whole span and the
/// span of its keyword.
#[derive(Clone, Copy, PartialEq, Eq, Debug)]
pub struct StatementElse {
    pub span: Span,
    pub keyword: Span,
}

/// The `else:` clause of a colon-delimited `if`: its whole span and the span
/// of its colon.
#[derive(Clone, Copy, PartialEq, Eq, Debug)]
pub struct ColonElse {
    pub span: Span,
    pub colon: Span,
}

/// The body of an `if` statement.
#[derive(PartialEq, Eq, Debug)]
pub enum IfBodyShape {
    /// `if (c) statement elseif (c) statement ... else statement`.
    Statement {
        else_ifs: Vec<ElseIfClause>,
        else_clause: Option<StatementElse>,
        /// Whether the body of the `if` branch holds only definitions
        /// (functions, classes, constants), as IDE stubs do.
        only_definitions: bool,
    },
    /// `if (c): ... elseif (c): ... else: ... endif;`.
    ColonDelimited {
        colon: Span,
        else_ifs: Vec<ElseIfClause>,
        else_part: Option<ColonElse>,
        endif: Span,
        terminator: Span,
        /// Whether the statements of the `if` branch hold only definitions.
        only_definitions: bool,
    },
}

/// The parts of an `if` statement that the rule reads.
#[derive(PartialEq, Eq, Debug)]
pub struct IfShape {
    /// The whole statement.
    pub span: Span,
    /// The `if` keyword.
    pub keyword: Span,
    /// The `)` that closes the condition.
    pub right_parenthesis: Span,
    /// What is known of the condition.
    pub condition: ConditionValue,
    pub body: IfBodyShape,
}

/// The deletions of the given `elseif` clauses, in order.
pub open spec fn clause_deletions(cs: Seq<ElseIfClause>) -> Seq<(u32, u32, Seq<char>)> {
    cs.map_values(|c: ElseIfClause| span_deletion(c.span))
}

/// The fix for an always-true condition: the `if (...)` head goes, and so do
/// the `elseif` and `else` clauses (and for the colon form its `:`, `endif`
/// and terminator), so that the body stays unwrapped.
pub open spec fn always_true_fix(shape: IfShape) -> Seq<(u32, u32, Seq<char>)> {
    let head = seq![deletion(shape.keyword.start, shape.right_parenthesis.end)];
    match shape.body {
        IfBodyShape::Statement { else_ifs, else_clause, .. } => {
            head + clause_deletions(else_ifs@) + match else_clause {
                Some(e) => seq![span_deletion(e.span)],
                None => Seq::empty(),
            }
        },
        IfBodyShape::ColonDelimited { colon, else_ifs, else_part, endif, terminator, .. } => {
            head + seq![span_deletion(colon)] + clause_deletions(else_ifs@) + match else_part {
                Some(e) => seq![span_deletion(e.span)],
                None => Seq::empty(),
            } + seq![span_deletion(endif), span_deletion(terminator)]
        },
    }
}

/// The fix for an always-false condition: with an `elseif`, everything from
/// the `if` keyword up to the `if` that ends the first `elseif` keyword goes,
/// which turns that clause into the `if`; otherwise with an `else`, the dead
/// branch goes up to the `else` keyword (or `else:` colon, with `endif;`);
/// otherwise the whole statement goes.
pub open spec fn always_false_fix(shape: IfShape) -> Seq<(u32, u32, Seq<char>)> {
    let start = shape.keyword.start;
    match shape.body {
        IfBodyShape::Statement { else_ifs, else_clause, .. } => {
            if else_ifs.len() > 0 {
                seq![deletion(start, (else_ifs@[0].keyword.end - 2) as u32)]
            } else {
                match else_clause {
                    Some(e) => seq![deletion(start, e.keyword.end)],
                    None => seq![span_deletion(shape.span)],
                }
            }
        },
        IfBodyShape::ColonDelimited { else_ifs, else_part, endif, terminator, .. } => {
            if else_ifs.len() > 0 {
                seq![deletion(start, (else_ifs@[0].keyword.end - 2) as u32)]
            } else {
                match else_part {
                    Some(e) => seq![deletion(start, e.colon.end), span_deletion(endif), span_deletion(terminator)],
                    None => seq![span_deletion(shape.span)],
                }
            }
        },
    }
}

/// Whether an `if (false)` with no other branch holds only definitions: such
/// blocks declare stubs for IDEs and are left alone.
pub open spec fn is_definition_stub(body: IfBodyShape) -> bool {
    match body {
        IfBodyShape::Statement { else_ifs, else_clause, only_definitions } =>
            else_ifs.len() == 0 && else_clause is None && only_definitions,
        IfBodyShape::ColonDelimited { else_ifs, else_part, only_definitions, .. } =>
            else_ifs.len() == 0 && else_part is None && only_definitions,
    }
}

/// The keywords of the `elseif` clauses are at least two bytes from the start
/// of the file (each ends with `if`).
pub open spec fn elseif_keywords_fit(body: IfBodyShape) -> bool {
    match body {
        IfBodyShape::Statement { else_ifs, .. } => forall|k: int| 0 <= k < else_ifs.len() ==> else_ifs@[k].keyword.end >= 2,
        IfBodyShape::ColonDelimited { else_ifs, .. } => forall|k: int| 0 <= k < else_ifs.len() ==> else_ifs@[k].keyword.end >= 2,
    }
}

/// What the rule reports of an `if`.
#[derive(PartialEq, Eq, Debug)]
pub enum ConstantConditionOutcome {
    NotReported,
    /// The condition is always true; the fix unwraps the body.
    AlwaysTrue { fix: Vec<TextEdit> },
    /// The condition is always false; the fix removes the dead branch.
    AlwaysFalse { fix: Vec<TextEdit> },
}

/// The outcome in plain values: `None` when nothing is reported, else whether
/// the condition is always true, and the fix.
pub open spec fn outcome_view(o: ConstantConditionOutcome) -> Option<(bool, Seq<(u32, u32, Seq<char>)>)> {
    match o {
        ConstantConditionOutcome::NotReported => None,
        ConstantConditionOutcome::AlwaysTrue { fix } => Some((true, edits_view(fix@))),
        ConstantConditionOutcome::AlwaysFalse { fix } => Some((false, edits_view(fix@))),
    }
}

/// What the rule reports of an `if`.
pub open spec fn spec_constant_condition(shape: IfShape) -> Option<(bool, Seq<(u32, u32, Seq<char>)>)> {
    match shape.condition {
        ConditionValue::AlwaysTrue => Some((true, always_true_fix(shape))),
        ConditionValue::AlwaysFalse => if is_definition_stub(shape.body) {
            None
        } else {
            Some((false, always_false_fix(shape)))
        },
        ConditionValue::Unknown => None,
    }
}

/// Appends the deletions of the given `elseif` clauses.
fn push_clause_deletions(edits: &mut Vec<TextEdit>, clauses: &Vec<ElseIfClause>)
    ensures
        edits_view(final(edits)@) == edits_view(old(edits)@) + clause_deletions(clauses@),
{
    let ghost start = edits_view(edits@);
    let mut k: usize = 0;
    while k < clauses.len()
        invariant
            k <= clauses.len(),
            edits_view(edits@) == start + clause_deletions(clauses@.take(k as int)),
        decreases clauses.len() - k,
    {
        let ghost before = edits@;
        edits.push(delete_span(clauses[k].span));
        proof {
            assert(clauses@.take(k + 1) =~= clauses@.take(k as int).push(clauses@[k as int]));
            assert(clause_deletions(clauses@.take(k + 1)) =~= clause_deletions(clauses@.take(k as int)).push(
                span_deletion(clauses@[k as int].span),
            ));
            assert(edits_view(edits@) =~= edits_view(before).push(span_deletion(clauses@[k as int].span)));
        }
        k += 1;
    }
    assert(clauses@.take(k as int) == clauses@);
}

/// Checks an `if` statement.
pub fn check_constant_condition(shape: &IfShape) -> (o: ConstantConditionOutcome)
    requires
        elseif_keywords_fit(shape.body),
    ensures
        outcome_view(o) == spec_constant_condition(*shape),
{
    match shape.condition {
        ConditionValue::Unknown => ConstantConditionOutcome::NotReported,
        ConditionValue::AlwaysTrue => {
            let mut edits: Vec<TextEdit> = Vec::new();
            edits.push(delete(shape.keyword.start, shape.right_parenthesis.end));
            match &shape.body {
                IfBodyShape::Statement { else_ifs, else_clause, .. } => {
                    push_clause_deletions(&mut edits, else_ifs);
                    if let Some(e) = else_clause {
                        edits.push(delete_span(e.span));
                    }
                },
                IfBodyShape::ColonDelimited { colon, else_ifs, else_part, endif, terminator, .. } => {
                    edits.push(delete_span(*colon));
                    push_clause_deletions(&mut edits, else_ifs);
                    if let Some(e) = else_part {
                        edits.push(delete_span(e.span));
                    }
                    edits.push(delete_span(*endif));
                    edits.push(delete_span(*terminator));
                },
            }
            assert(edits_view(edits@) =~= always_true_fix(*shape));
            ConstantConditionOutcome::AlwaysTrue { fix: edits }
        },
        ConditionValue::AlwaysFalse => {
            let start = shape.keyword.start;
            let mut edits: Vec<TextEdit> = Vec::new();
            match &shape.body {
                IfBodyShape::Statement { else_ifs, else_clause, only_definitions } => {
                    if else_ifs.len() == 0 && else_clause.is_none() && *only_definitions {
                        return ConstantConditionOutcome::NotReported;
                    }
                    if else_ifs.len() > 0 {
                        edits.push(delete(start, else_ifs[0].keyword.end - 2));
                    } else if let Some(e) = else_clause {
                        edits.push(delete(start, e.keyword.end));
                    } else {
                        edits.push(delete_span(shape.span));
                    }
                },
                IfBodyShape::ColonDelimited { else_ifs, else_part, endif, terminator, only_definitions, .. } => {
                    if else_ifs.len() == 0 && else_part.is_none() && *only_definitions {
                        return ConstantConditionOutcome::NotReported;
                    }
                    if else_ifs.len() > 0 {
                        edits.push(delete(start, else_ifs[0].keyword.end - 2));
                    } else if let Some(e) = else_part {
                        edits.push(delete(start, e.colon.end));
                        edits.push(delete_span(*endif));
                        edits.push(delete_span(*terminator));
                    } else {
                        edits.push(delete_span(shape.span));
                    }
                },
            }
            assert(edits_view(edits@) =~= always_false_fix(*shape));
            ConstantConditionOutcome::AlwaysFalse { fix: edits }
        },
    }
}

} // verus!
