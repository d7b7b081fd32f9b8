//! A variable assigned and returned right away: `$x = expr; return $x;`
//! can be `return expr;`.
use vstd::prelude::*;

use crate::edit::Span;
use crate::text::{bytes_subrange, find_next_non_whitespace, next_non_whitespace, str_equals};

verus! {

/// A statement of a sequence, as far as the rule reads it.
#[derive(PartialEq, Eq, Debug)]
pub enum FlowStatement {
    /// An expression statement whose expression is an assignment: whether
    /// it is a plain `=`, the name of the assigned variable when the target is
    /// a direct variable, and the span of the assigned expression.
    Assignment { span: Span, plain: bool, target: Option<String>, rhs: Span },
    /// `return $name;` with a direct variable.
    ReturnVariable { span: Span, variable: Span, name: String },
    Other,
}

/// An assignment that can be inlined into the `return` after it: the two
/// statements, and the fix, which deletes `delete_start..delete_end` (the
/// assignment and the whitespace after it) and replaces the returned
/// variable `variable` with `replacement`, the source text of the assigned
/// expression.
#[derive(PartialEq, Eq, Debug)]
pub struct InlineReturn {
    pub assignment: Span,
    pub return_statement: Span,
    pub delete_start: u32,
    pub delete_end: u32,
    pub variable: Span,
    pub replacement: Vec<u8>,
}

/// The plain values of a report.
pub open spec fn inline_view(r: InlineReturn) -> (Span, Span, u32, u32, Span, Seq<u8>) {
    (r.assignment, r.return_statement, r.delete_start, r.delete_end, r.variable, r.replacement@)
}

/// The report for the statements at positions `k` and `k + 1`: a plain
/// assignment to a direct variable followed by the return of that variable.
pub open spec fn spec_inline_at(ss: Seq<FlowStatement>, k: int, source: Seq<u8>) -> Option<
    (Span, Span, u32, u32, Span, Seq<u8>),
> {
    match ss[k] {
        FlowStatement::Assignment { span, plain, target: Some(t), rhs } => match ss[k + 1] {
            FlowStatement::ReturnVariable { span: rspan, variable, name } => if plain && t@ == name@ {
                Some(
                    (
                        span,
                        rspan,
                        span.start,
                        next_non_whitespace(source, span.end as int) as u32,
                        variable,
                        source.subrange(rhs.start as int, rhs.end as int),
                    ),
                )
            } else {
                None
            },
            _ => None,
        },
        _ => None,
    }
}

/// The reports for the first `n` pairs of consecutive statements, in order.
pub open spec fn spec_inline_reports(ss: Seq<FlowStatement>, n: int, source: Seq<u8>) -> Seq<
    (Span, Span, u32, u32, Span, Seq<u8>),
>
    decreases n,
{
    if n <= 0 {
        Seq::empty()
    } else {
        let rest = spec_inline_reports(ss, n - 1, source);
        match spec_inline_at(ss, n - 1, source) {
            Some(r) => rest.push(r),
            None => rest,
        }
    }
}

/// Every assigned expression lies within the source.
pub open spec fn assignments_within(ss: Seq<FlowStatement>, source: Seq<u8>) -> bool {
    forall|k: int|
        0 <= k < ss.len() && #[trigger] ss[k] is Assignment ==> ss[k]->Assignment_rhs.start <= ss[k]->Assignment_rhs.end
            <= source.len()
}

fn inline_at(ss: &Vec<FlowStatement>, k: usize, source: &[u8]) -> (r: Option<InlineReturn>)
    requires
        k + 1 < ss.len(),
        source@.len() <= u32::MAX,
        assignments_within(ss@, source@),
    ensures
        match r {
            Some(x) => spec_inline_at(ss@, k as int, source@) == Some(inline_view(x)),
            None => spec_inline_at(ss@, k as int, source@) is None,
        },
{
    match &ss[k] {
        FlowStatement::Assignment { span, plain, target: Some(t), rhs } => match &ss[k + 1] {
            FlowStatement::ReturnVariable { span: rspan, variable, name } => {
                if !*plain || !str_equals(t.as_str(), name.as_str()) {
                    return None;
                }
                assert(ss@[k as int] is Assignment);
                let end = find_next_non_whitespace(source, span.end);
                let text = bytes_subrange(source, rhs.start as usize, rhs.end as usize);
                Some(
                    InlineReturn {
                        assignment: *span,
                        return_statement: *rspan,
                        delete_start: span.start,
                        delete_end: end,
                        variable: *variable,
                        replacement: text,
                    },
                )
            },
            _ => None,
        },
        _ => None,
    }
}

/// Finds the assignments in a statement sequence that can be inlined into
/// the `return` right after them, in order. `source` is the whole source
/// file.
pub fn check_inline_returns(ss: &Vec<FlowStatement>, source: &[u8]) -> (reports: Vec<InlineReturn>)
    requires
        source@.len() <= u32::MAX,
        assignments_within(ss@, source@),
    ensures
        reports@.map_values(|r: InlineReturn| inline_view(r)) == spec_inline_reports(
            ss@,
            if ss.len() == 0 { 0 } else { ss.len() - 1 },
            source@,
        ),
{
    let mut reports: Vec<InlineReturn> = Vec::new();
    if ss.len() < 2 {
        assert(reports@.map_values(|r: InlineReturn| inline_view(r)) =~= Seq::empty());
        return reports;
    }
    let mut k: usize = 0;
    while k + 1 < ss.len()
        invariant
            k + 1 <= ss.len(),
            source@.len() <= u32::MAX,
            assignments_within(ss@, source@),
            reports@.map_values(|r: InlineReturn| inline_view(r)) == spec_inline_reports(ss@, k as int, source@),
        decreases ss.len() - k,
    {
        let ghost before = reports@;
        if let Some(r) = inline_at(ss, k, source) {
            reports.push(r);
            assert(reports@.map_values(|r: InlineReturn| inline_view(r)) =~= before.map_values(
                |r: InlineReturn| inline_view(r),
            ).push(inline_view(reports@.last())));
        }
        k += 1;
    }
    reports
}

} // verus!
