//! Whether a statement always leaves the enclosing code (by `return`,
//! `continue`, `break`, `throw`, `exit` or `die`), so that the branches that
//! follow an `if` whose body always terminates can be extracted.
use vstd::prelude::*;

use crate::edit::{edit, edits_view, Span, TextEdit};

verus! {

/// An expression, as far as the termination analysis reads it.
#[derive(PartialEq, Eq, Debug)]
pub enum TermExpression {
    Throw,
    Exit,
    Die,
    Parenthesized(Box<TermExpression>),
    /// A prefix or postfix unary operation on the operand.
    Unary(Box<TermExpression>),
    /// An assignment, with its right-hand side.
    Assignment(Box<TermExpression>),
    /// A call, with its argument values.
    Call(Vec<TermExpression>),
    /// `a ? b : c` (with `then` absent for `a ?: c`).
    Conditional { then: Option<Box<TermExpression>>, otherwise: Box<TermExpression> },
    /// `match (subject) { ... }`, with the expression of each arm.
    Match { subject: Box<TermExpression>, arms: Vec<TermExpression> },
    /// Any other expression.
    Other,
}

/// A statement, as far as the termination analysis reads it.
#[derive(PartialEq, Eq, Debug)]
pub enum TermStatement {
    Return,
    Continue,
    Break,
    /// An empty statement `;`.
    Noop,
    Expression(TermExpression),
    Block(Vec<TermStatement>),
    /// Any other statement.
    Other,
}

/// Whether evaluating `e` always terminates the enclosing code: it is a
/// `throw`, `exit` or `die`, or it necessarily evaluates one (the operand of
/// a unary operation, the right-hand side of an assignment, some argument of
/// a call, both branches of a conditional, the subject or every arm of a
/// `match`).
pub open spec fn expression_terminates(e: TermExpression) -> bool
    decreases e,
{
    match e {
        TermExpression::Throw | TermExpression::Exit | TermExpression::Die => true,
        TermExpression::Parenthesized(inner) => expression_terminates(*inner),
        TermExpression::Unary(operand) => expression_terminates(*operand),
        TermExpression::Assignment(rhs) => expression_terminates(*rhs),
        TermExpression::Call(arguments) => some_terminates(arguments@),
        TermExpression::Conditional { then, otherwise } => match then {
            Some(t) => expression_terminates(*t) && expression_terminates(*otherwise),
            None => false,
        },
        TermExpression::Match { subject, arms } => expression_terminates(*subject) || all_terminate(arms@),
        TermExpression::Other => false,
    }
}

/// Whether some expression of `es` always terminates.
pub open spec fn some_terminates(es: Seq<TermExpression>) -> bool
    decreases es,
{
    if es.len() == 0 {
        false
    } else {
        some_terminates(es.drop_last()) || expression_terminates(es.last())
    }
}

/// Whether every expression of `es` always terminates.
pub open spec fn all_terminate(es: Seq<TermExpression>) -> bool
    decreases es,
{
    if es.len() == 0 {
        true
    } else {
        all_terminate(es.drop_last()) && expression_terminates(es.last())
    }
}

/// Whether a statement always terminates the enclosing code.
pub open spec fn statement_terminates(s: TermStatement) -> bool
    decreases s,
{
    match s {
        TermStatement::Return | TermStatement::Continue | TermStatement::Break => true,
        TermStatement::Expression(e) => expression_terminates(e),
        TermStatement::Block(statements) => sequence_terminates(statements@),
        _ => false,
    }
}

/// Whether a statement sequence always terminates: its last statement other
/// than `;` does.
pub open spec fn sequence_terminates(ss: Seq<TermStatement>) -> bool
    decreases ss,
{
    if ss.len() == 0 {
        false
    } else if ss.last() is Noop {
        sequence_terminates(ss.drop_last())
    } else {
        statement_terminates(ss.last())
    }
}

/// Whether `expr` always terminates the enclosing code.
pub fn expression_always_terminates(expr: &TermExpression) -> (r: bool)
    ensures
        r == expression_terminates(*expr),
    decreases expr,
{
    match expr {
        TermExpression::Throw | TermExpression::Exit | TermExpression::Die => true,
        TermExpression::Parenthesized(inner) => expression_always_terminates(inner),
        TermExpression::Unary(operand) => expression_always_terminates(operand),
        TermExpression::Assignment(rhs) => expression_always_terminates(rhs),
        TermExpression::Call(arguments) => any_always_terminates(arguments),
        TermExpression::Conditional { then, otherwise } => match then {
            Some(t) => expression_always_terminates(t) && expression_always_terminates(otherwise),
            None => false,
        },
        TermExpression::Match { subject, arms } => expression_always_terminates(subject)
            || every_always_terminates(arms),
        TermExpression::Other => false,
    }
}

fn any_always_terminates(es: &Vec<TermExpression>) -> (r: bool)
    ensures
        r == some_terminates(es@),
    decreases es,
{
    let mut k: usize = 0;
    let mut found = false;
    assert(es@.take(0) =~= Seq::<TermExpression>::empty());
    while k < es.len()
        invariant
            k <= es@.len(),
            found == some_terminates(es@.take(k as int)),
        decreases es@.len() - k,
    {
        assert(es@.take(k as int + 1).drop_last() =~= es@.take(k as int));
        let t = expression_always_terminates(&es[k]);
        found = found || t;
        k += 1;
    }
    assert(es@.take(k as int) =~= es@);
    found
}

fn every_always_terminates(es: &Vec<TermExpression>) -> (r: bool)
    ensures
        r == all_terminate(es@),
    decreases es,
{
    let mut k: usize = 0;
    let mut all = true;
    assert(es@.take(0) =~= Seq::<TermExpression>::empty());
    while k < es.len()
        invariant
            k <= es@.len(),
            all == all_terminate(es@.take(k as int)),
        decreases es@.len() - k,
    {
        assert(es@.take(k as int + 1).drop_last() =~= es@.take(k as int));
        let t = expression_always_terminates(&es[k]);
        all = all && t;
        k += 1;
    }
    assert(es@.take(k as int) =~= es@);
    all
}

/// Whether `stmt` always terminates the enclosing code.
pub fn statement_always_terminates(stmt: &TermStatement) -> (r: bool)
    ensures
        r == statement_terminates(*stmt),
    decreases stmt,
{
    match stmt {
        TermStatement::Return | TermStatement::Continue | TermStatement::Break => true,
        TermStatement::Expression(e) => expression_always_terminates(e),
        TermStatement::Block(statements) => statements_always_terminate(statements),
        _ => false,
    }
}

/// Whether the statement sequence `stmts` always terminates.
pub fn statements_always_terminate(stmts: &Vec<TermStatement>) -> (r: bool)
    ensures
        r == sequence_terminates(stmts@),
    decreases stmts,
{
    let mut n: usize = stmts.len();
    assert(stmts@.take(n as int) =~= stmts@);
    while n > 0 && matches!(stmts[n - 1], TermStatement::Noop)
        invariant
            n <= stmts@.len(),
            sequence_terminates(stmts@) == sequence_terminates(stmts@.take(n as int)),
        decreases n,
    {
        assert(stmts@.take(n as int).drop_last() =~= stmts@.take(n as int - 1));
        n -= 1;
    }
    if n == 0 {
        return false;
    }
    statement_always_terminates(&stmts[n - 1])
}

/// A statement sequence still terminates, or still does not, when `;` is
/// appended to it.
pub proof fn law_trailing_noop_changes_nothing(ss: Seq<TermStatement>)
    ensures
        sequence_terminates(ss.push(TermStatement::Noop)) == sequence_terminates(ss),
{
    assert(ss.push(TermStatement::Noop).drop_last() =~= ss);
}

/// A statement sequence that ends with a statement that always terminates
/// always terminates, whatever comes before it.
pub proof fn law_terminating_last_statement(ss: Seq<TermStatement>, s: TermStatement)
    requires
        statement_terminates(s),
    ensures
        sequence_terminates(ss.push(s)),
{
    assert(ss.push(s).last() == s);
}

// ---------------------------------------------------------------------------
// Redundant `else`
// ---------------------------------------------------------------------------

/// What follows the `else` keyword of an `if` whose body is a statement.
#[derive(Clone, Copy, PartialEq, Eq, Debug)]
pub enum ElseBody {
    /// An empty block `{}` whose `}` ends at `right_brace_end`.
    EmptyBlock { right_brace_end: u32 },
    /// A block whose `{` ends at `left_brace_end`, whose last statement ends at
    /// `last_statement_end` and whose `}` ends at `right_brace_end`.
    Block { left_brace_end: u32, last_statement_end: u32, right_brace_end: u32 },
    /// A single statement that starts at `start`.
    Statement { start: u32 },
}

/// The parts of an `if` statement (with a statement body) that the rule reads.
#[derive(PartialEq, Eq, Debug)]
pub struct IfStatementShape {
    /// The body of the `if` branch.
    pub body: TermStatement,
    /// Where that body ends.
    pub body_end: u32,
    /// Where the keyword of the first `elseif` clause ends, if there is one.
    pub first_elseif_end: Option<u32>,
    /// The body of the `else` clause, if there is one.
    pub else_body: Option<ElseBody>,
}

/// The outcome of the rule for an `if` statement.
#[derive(PartialEq, Eq, Debug)]
pub enum RedundantElse {
    /// Nothing to report.
    NotRedundant,
    /// The trailing branches can be extracted; the fix is given when the `if`
    /// body is a block.
    Report { fix: Option<Vec<TextEdit>> },
}

/// The fix that extracts the trailing branches of an `if` whose body is a
/// block ending at `body_end`: the first `elseif` becomes a new `if`; an
/// empty `else {}` is removed; the braces of a non-empty `else` block are
/// removed around its statements; a single `else` statement is moved after
/// the `if`.
pub open spec fn spec_redundant_else_fix(
    body_end: u32,
    first_elseif_end: Option<u32>,
    else_body: Option<ElseBody>,
) -> Seq<(u32, u32, Seq<char>)> {
    match first_elseif_end {
        Some(e) => seq![edit(body_end, e, "\n\nif"@)],
        None => match else_body {
            Some(ElseBody::EmptyBlock { right_brace_end }) => seq![edit(body_end, right_brace_end, ""@)],
            Some(ElseBody::Block { left_brace_end, last_statement_end, right_brace_end }) => seq![
                edit(body_end, left_brace_end, "\n"@),
                edit(last_statement_end, right_brace_end, ""@),
            ],
            Some(ElseBody::Statement { start }) => seq![edit(body_end, start, "\n\n"@)],
            None => Seq::empty(),
        },
    }
}

/// The outcome of the rule: an `if` with an `elseif` or `else` branch whose
/// body always terminates is reported, with a fix when its body is a block.
pub open spec fn spec_redundant_else(shape: IfStatementShape) -> Option<Option<Seq<(u32, u32, Seq<char>)>>> {
    if (shape.first_elseif_end is Some || shape.else_body is Some) && statement_terminates(shape.body) {
        if shape.body is Block {
            Some(Some(spec_redundant_else_fix(shape.body_end, shape.first_elseif_end, shape.else_body)))
        } else {
            Some(None)
        }
    } else {
        None
    }
}

/// The plain values of the rule's outcome.
pub open spec fn redundant_else_view(r: RedundantElse) -> Option<Option<Seq<(u32, u32, Seq<char>)>>> {
    match r {
        RedundantElse::NotRedundant => None,
        RedundantElse::Report { fix } => match fix {
            Some(es) => Some(Some(edits_view(es@))),
            None => Some(None),
        },
    }
}

/// Checks an `if` statement whose body is a statement.
pub fn check_redundant_else(shape: &IfStatementShape) -> (r: RedundantElse)
    ensures
        redundant_else_view(r) == spec_redundant_else(*shape),
{
    let has_branches = shape.first_elseif_end.is_some() || shape.else_body.is_some();
    if !has_branches {
        return RedundantElse::NotRedundant;
    }
    if !statement_always_terminates(&shape.body) {
        return RedundantElse::NotRedundant;
    }
    if !matches!(shape.body, TermStatement::Block(_)) {
        return RedundantElse::Report { fix: None };
    }
    let body_end = shape.body_end;
    let mut edits: Vec<TextEdit> = Vec::new();
    match shape.first_elseif_end {
        Some(e) => {
            edits.push(TextEdit { start: body_end, end: e, text: "\n\nif" });
        },
        None => match shape.else_body {
            Some(ElseBody::EmptyBlock { right_brace_end }) => {
                edits.push(TextEdit { start: body_end, end: right_brace_end, text: "" });
            },
            Some(ElseBody::Block { left_brace_end, last_statement_end, right_brace_end }) => {
                edits.push(TextEdit { start: body_end, end: left_brace_end, text: "\n" });
                edits.push(TextEdit { start: last_statement_end, end: right_brace_end, text: "" });
            },
            Some(ElseBody::Statement { start }) => {
                edits.push(TextEdit { start: body_end, end: start, text: "\n\n" });
            },
            None => {},
        },
    }
    assert(edits_view(edits@) =~= spec_redundant_else_fix(body_end, shape.first_elseif_end, shape.else_body));
    RedundantElse::Report { fix: Some(edits) }
}

/// What the rule reports of a colon-delimited `if (...): ... endif;` whose
/// `if` branch holds `statements`: when it has an `elseif` or `else` branch
/// and those statements always terminate, the keyword of the trailing
/// branch to point at (the `else`, or else the first `elseif`). There is no
/// fix for this form.
pub open spec fn spec_redundant_colon_else(
    statements: Seq<TermStatement>,
    first_elseif_keyword: Option<Span>,
    else_keyword: Option<Span>,
) -> Option<Span> {
    if (first_elseif_keyword is Some || else_keyword is Some) && sequence_terminates(statements) {
        match else_keyword {
            Some(k) => Some(k),
            None => first_elseif_keyword,
        }
    } else {
        None
    }
}

/// Checks a colon-delimited `if` statement.
pub fn check_redundant_colon_else(
    statements: &Vec<TermStatement>,
    first_elseif_keyword: Option<Span>,
    else_keyword: Option<Span>,
) -> (r: Option<Span>)
    ensures
        r == spec_redundant_colon_else(statements@, first_elseif_keyword, else_keyword),
{
    if first_elseif_keyword.is_none() && else_keyword.is_none() {
        return None;
    }
    if !statements_always_terminate(statements) {
        return None;
    }
    match else_keyword {
        Some(k) => Some(k),
        None => first_elseif_keyword,
    }
}

} // verus!
