//! Assignments in places where they do nothing or mislead: a value assigned
//! to itself, and assignments inside call arguments.
use vstd::prelude::*;

use crate::edit::Span;
use crate::text::str_equals;

verus! {

/// An assignment target or value, as far as the self-assignment rule reads
/// it.
#[derive(PartialEq, Eq, Debug)]
pub enum SelfExpr {
    /// A variable; its name when it is a direct variable such as `$a`.
    Variable { name: Option<String> },
    /// A property access `object->property`; the property's name when it is
    /// a plain identifier.
    Property { object: Box<SelfExpr>, property: Option<String> },
    /// Another kind of access (null-safe or static property, class
    /// constant).
    OtherAccess,
    Other,
}

/// Whether two expressions denote the same storage: the same direct
/// variable, or the same named property of equivalent objects.
pub open spec fn same_place(a: SelfExpr, b: SelfExpr) -> bool
    decreases a,
{
    match a {
        SelfExpr::Variable { name: Some(x) } => match b {
            SelfExpr::Variable { name: Some(y) } => x@ == y@,
            _ => false,
        },
        SelfExpr::Property { object: oa, property: Some(pa) } => match b {
            SelfExpr::Property { object: ob, property: Some(pb) } => same_place(*oa, *ob) && pa@ == pb@,
            _ => false,
        },
        _ => false,
    }
}

/// Whether two expressions denote the same storage.
pub fn are_expressions_equivalent(a: &SelfExpr, b: &SelfExpr) -> (r: bool)
    ensures
        r == same_place(*a, *b),
    decreases a,
{
    match a {
        SelfExpr::Variable { name: Some(x) } => match b {
            SelfExpr::Variable { name: Some(y) } => str_equals(x.as_str(), y.as_str()),
            _ => false,
        },
        SelfExpr::Property { object: oa, property: Some(pa) } => match b {
            SelfExpr::Property { object: ob, property: Some(pb) } => are_expressions_equivalent(oa, ob) && str_equals(
                pa.as_str(),
                pb.as_str(),
            ),
            _ => false,
        },
        _ => false,
    }
}

/// `$a = $b` is a self-assignment exactly when `$b = $a` is.
pub proof fn law_same_place_symmetric(a: SelfExpr, b: SelfExpr)
    ensures
        same_place(a, b) == same_place(b, a),
    decreases a,
{
    match a {
        SelfExpr::Property { object: oa, property: Some(_) } => match b {
            SelfExpr::Property { object: ob, property: Some(_) } => law_same_place_symmetric(*oa, *ob),
            _ => {},
        },
        _ => {},
    }
}

/// A self-assignment to report: the statement to delete, and whether the
/// deletion may change behaviour (a property access can run `__get` and
/// `__set` or property hooks).
#[derive(Clone, Copy, PartialEq, Eq, Debug)]
pub struct SelfAssignment {
    pub statement: Span,
    pub potentially_unsafe: bool,
}

/// What the rule reports of an expression statement that is an assignment
/// `lhs op rhs`: a plain `=` between equivalent places.
pub open spec fn spec_self_assignment(statement: Span, plain: bool, lhs: SelfExpr, rhs: SelfExpr) -> Option<
    SelfAssignment,
> {
    if plain && same_place(lhs, rhs) {
        Some(SelfAssignment { statement, potentially_unsafe: lhs is Property || lhs is OtherAccess })
    } else {
        None
    }
}

/// Checks an expression statement holding an assignment.
pub fn check_self_assignment(statement: Span, plain: bool, lhs: &SelfExpr, rhs: &SelfExpr) -> (r: Option<
    SelfAssignment,
>)
    ensures
        r == spec_self_assignment(statement, plain, *lhs, *rhs),
{
    if !plain || !are_expressions_equivalent(lhs, rhs) {
        return None;
    }
    let potentially_unsafe = matches!(lhs, SelfExpr::Property { .. }) || matches!(lhs, SelfExpr::OtherAccess);
    Some(SelfAssignment { statement, potentially_unsafe })
}

/// An argument value, as far as the assignment-in-argument rule reads it.
#[derive(PartialEq, Eq, Debug)]
pub enum ArgumentExpr {
    Parenthesized { inner: Box<ArgumentExpr> },
    /// An assignment, and whether its operator is a plain `=`.
    Assignment { span: Span, plain: bool },
    Other,
}

/// The assignment an argument is, through any parentheses.
pub open spec fn assignment_in(e: ArgumentExpr) -> Option<(Span, bool)>
    decreases e,
{
    match e {
        ArgumentExpr::Parenthesized { inner } => assignment_in(*inner),
        ArgumentExpr::Assignment { span, plain } => Some((span, plain)),
        ArgumentExpr::Other => None,
    }
}

/// The assignment an argument is, through any parentheses.
pub fn get_assignment_from_expression(e: &ArgumentExpr) -> (r: Option<(Span, bool)>)
    ensures
        r == assignment_in(*e),
    decreases e,
{
    match e {
        ArgumentExpr::Parenthesized { inner } => get_assignment_from_expression(inner),
        ArgumentExpr::Assignment { span, plain } => Some((*span, *plain)),
        ArgumentExpr::Other => None,
    }
}

/// The assignments among the first `n` arguments, in order; each comes with
/// whether it is a plain `=`, which may be a mistaken `==`.
pub open spec fn argument_assignments(args: Seq<ArgumentExpr>, n: int) -> Seq<(Span, bool)>
    decreases n,
{
    if n <= 0 {
        Seq::empty()
    } else {
        let rest = argument_assignments(args, n - 1);
        match assignment_in(args[n - 1]) {
            Some(a) => rest.push(a),
            None => rest,
        }
    }
}

/// The assignments among the arguments of a call, in order.
pub fn check_assign_in_arguments(args: &Vec<ArgumentExpr>) -> (r: Vec<(Span, bool)>)
    ensures
        r@ == argument_assignments(args@, args.len() as int),
{
    let mut out: Vec<(Span, bool)> = Vec::new();
    let mut i: usize = 0;
    while i < args.len()
        invariant
            i <= args.len(),
            out@ == argument_assignments(args@, i as int),
        decreases args.len() - i,
    {
        if let Some(a) = get_assignment_from_expression(&args[i]) {
            out.push(a);
        }
        i += 1;
    }
    out
}

} // verus!
