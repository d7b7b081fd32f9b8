use mago_linter::assignments::{
    check_assign_in_arguments, check_self_assignment, ArgumentExpr, SelfAssignment, SelfExpr,
};
use mago_linter::block_statement::{check_block_statement, BodyKind, ConstructKind, ControlStructure, KeywordBody};
use mago_linter::constant_condition::{
    check_constant_condition, ConditionValue, ConstantConditionOutcome, ElseIfClause, IfBodyShape, IfShape,
    StatementElse,
};
use mago_linter::edit::{Span, TextEdit};
use mago_linter::inline_return::{check_inline_returns, FlowStatement};
use mago_linter::literal_guard::{
    check_literal_guards, BodyStatement, GuardCondition, GuardExpr, GuardIf, LiteralValue, SequenceStatement,
};
use mago_linter::termination::{
    check_redundant_colon_else, check_redundant_else, statements_always_terminate, ElseBody, IfStatementShape, RedundantElse, TermExpression,
    TermStatement,
};

fn sp(start: u32, end: u32) -> Span {
    Span { start, end }
}

fn del(start: u32, end: u32) -> TextEdit {
    TextEdit { start, end, text: "" }
}

#[test]
fn always_true_condition_unwraps_the_body() {
    // if (true) { a(); } else { b(); }
    let shape = IfShape {
        span: sp(0, 30),
        keyword: sp(0, 2),
        right_parenthesis: sp(8, 9),
        condition: ConditionValue::AlwaysTrue,
        body: IfBodyShape::Statement {
            else_ifs: vec![],
            else_clause: Some(StatementElse { span: sp(17, 30), keyword: sp(17, 21) }),
            only_definitions: false,
        },
    };
    assert_eq!(check_constant_condition(&shape), ConstantConditionOutcome::AlwaysTrue { fix: vec![del(0, 9), del(17, 30)] });
}

#[test]
fn always_false_condition_promotes_the_elseif() {
    let shape = IfShape {
        span: sp(0, 60),
        keyword: sp(0, 2),
        right_parenthesis: sp(9, 10),
        condition: ConditionValue::AlwaysFalse,
        body: IfBodyShape::Statement {
            else_ifs: vec![ElseIfClause { span: sp(20, 60), keyword: sp(20, 26) }],
            else_clause: None,
            only_definitions: false,
        },
    };
    assert_eq!(check_constant_condition(&shape), ConstantConditionOutcome::AlwaysFalse { fix: vec![del(0, 24)] });
}

#[test]
fn false_condition_around_definitions_is_a_stub() {
    let shape = IfShape {
        span: sp(0, 40),
        keyword: sp(0, 2),
        right_parenthesis: sp(9, 10),
        condition: ConditionValue::AlwaysFalse,
        body: IfBodyShape::Statement { else_ifs: vec![], else_clause: None, only_definitions: true },
    };
    assert_eq!(check_constant_condition(&shape), ConstantConditionOutcome::NotReported);
    let unknown = IfShape { condition: ConditionValue::Unknown, ..shape };
    assert_eq!(check_constant_condition(&unknown), ConstantConditionOutcome::NotReported);
}

fn var(name: &str) -> GuardExpr {
    GuardExpr::Variable { name: name.to_string() }
}

fn null() -> GuardExpr {
    GuardExpr::Literal { literal: LiteralValue::Null }
}

#[test]
fn literal_guard_before_return_is_deleted() {
    // if ($x === null) { return null; }\n    return $x;
    let source = b"if ($x === null) { return null; }\n    return $x;";
    let guard = GuardIf {
        span: sp(0, 33),
        condition: GuardCondition::Identical { lhs: var("$x"), rhs: null() },
        statements: vec![BodyStatement::Block { statements: vec![BodyStatement::Return { value: Some(null()) }] }],
        else_ifs: vec![],
        else_statements: None,
    };
    let ss = vec![SequenceStatement::If { guard }, SequenceStatement::Return { value: Some(var("$x")) }];
    let reports = check_literal_guards(&ss, source);
    assert_eq!(reports.len(), 1);
    assert_eq!(reports[0].variable, "$x");
    assert_eq!((reports[0].start, reports[0].end), (0, 38));
    assert_eq!(reports[0].replacement, "");
}

#[test]
fn literal_guard_with_else_becomes_a_return() {
    let guard = GuardIf {
        span: sp(0, 50),
        condition: GuardCondition::Identical { lhs: null(), rhs: var("$x") },
        statements: vec![BodyStatement::Return { value: Some(null()) }],
        else_ifs: vec![],
        else_statements: Some(vec![BodyStatement::Return { value: Some(var("$x")) }]),
    };
    let reports = check_literal_guards(&vec![SequenceStatement::If { guard }], b"");
    assert_eq!(reports.len(), 1);
    assert_eq!(reports[0].replacement, "return $x;");
    assert_eq!((reports[0].start, reports[0].end), (0, 50));
}

#[test]
fn literal_guard_returning_another_value_is_kept() {
    let guard = GuardIf {
        span: sp(0, 50),
        condition: GuardCondition::Identical { lhs: var("$x"), rhs: null() },
        statements: vec![BodyStatement::Return { value: Some(GuardExpr::Literal { literal: LiteralValue::False }) }],
        else_ifs: vec![],
        else_statements: None,
    };
    let ss = vec![SequenceStatement::If { guard }, SequenceStatement::Return { value: Some(var("$x")) }];
    assert!(check_literal_guards(&ss, b"").is_empty());
}

#[test]
fn assignment_returned_at_once_is_inlined() {
    let source = b"$a = foo();\nreturn $a;";
    let ss = vec![
        FlowStatement::Assignment { span: sp(0, 11), plain: true, target: Some("$a".to_string()), rhs: sp(5, 10) },
        FlowStatement::ReturnVariable { span: sp(12, 22), variable: sp(19, 21), name: "$a".to_string() },
    ];
    let reports = check_inline_returns(&ss, source);
    assert_eq!(reports.len(), 1);
    assert_eq!((reports[0].delete_start, reports[0].delete_end), (0, 12));
    assert_eq!(reports[0].variable, sp(19, 21));
    assert_eq!(reports[0].replacement, b"foo()".to_vec());
    let compound = vec![
        FlowStatement::Assignment { span: sp(0, 11), plain: false, target: Some("$a".to_string()), rhs: sp(5, 10) },
        FlowStatement::ReturnVariable { span: sp(12, 22), variable: sp(19, 21), name: "$a".to_string() },
    ];
    assert!(check_inline_returns(&compound, source).is_empty());
}

#[test]
fn single_statement_bodies_need_blocks() {
    let c = ControlStructure::If {
        branch: KeywordBody { keyword: sp(0, 2), body_kind: BodyKind::Other, body: sp(10, 20) },
        else_ifs: vec![KeywordBody { keyword: sp(21, 27), body_kind: BodyKind::Block, body: sp(35, 40) }],
        else_branch: Some(KeywordBody { keyword: sp(41, 45), body_kind: BodyKind::If, body: sp(46, 60) }),
    };
    let missing = check_block_statement(&c);
    assert_eq!(missing.len(), 1);
    assert_eq!(missing[0].construct, ConstructKind::If);
    let w = ControlStructure::While { body: KeywordBody { keyword: sp(0, 5), body_kind: BodyKind::Other, body: sp(9, 12) } };
    assert_eq!(check_block_statement(&w)[0].construct, ConstructKind::While);
}

#[test]
fn terminating_statements() {
    assert!(statements_always_terminate(&vec![TermStatement::Other, TermStatement::Return, TermStatement::Noop]));
    assert!(!statements_always_terminate(&vec![TermStatement::Return, TermStatement::Other]));
    let throw_in_call = TermStatement::Expression(TermExpression::Call(vec![TermExpression::Other, TermExpression::Throw]));
    assert!(statements_always_terminate(&vec![throw_in_call]));
    assert!(!statements_always_terminate(&vec![]));
}

#[test]
fn else_after_return_is_redundant() {
    let shape = IfStatementShape {
        body: TermStatement::Block(vec![TermStatement::Return]),
        body_end: 20,
        first_elseif_end: None,
        else_body: Some(ElseBody::Block { left_brace_end: 27, last_statement_end: 40, right_brace_end: 42 }),
    };
    assert_eq!(
        check_redundant_else(&shape),
        RedundantElse::Report {
            fix: Some(vec![TextEdit { start: 20, end: 27, text: "\n" }, TextEdit { start: 40, end: 42, text: "" }])
        }
    );
    let open = IfStatementShape { body: TermStatement::Block(vec![TermStatement::Other]), ..shape };
    assert_eq!(check_redundant_else(&open), RedundantElse::NotRedundant);
}

#[test]
fn self_assignments() {
    let a = SelfExpr::Variable { name: Some("$a".to_string()) };
    let a2 = SelfExpr::Variable { name: Some("$a".to_string()) };
    assert_eq!(check_self_assignment(sp(0, 8), true, &a, &a2), Some(SelfAssignment { statement: sp(0, 8), potentially_unsafe: false }));
    assert_eq!(check_self_assignment(sp(0, 8), false, &a, &a2), None);
    let p = SelfExpr::Property { object: Box::new(SelfExpr::Variable { name: Some("$this".to_string()) }), property: Some("x".to_string()) };
    let p2 = SelfExpr::Property { object: Box::new(SelfExpr::Variable { name: Some("$this".to_string()) }), property: Some("x".to_string()) };
    let q = SelfExpr::Property { object: Box::new(SelfExpr::Variable { name: Some("$this".to_string()) }), property: Some("y".to_string()) };
    assert_eq!(check_self_assignment(sp(0, 20), true, &p, &p2), Some(SelfAssignment { statement: sp(0, 20), potentially_unsafe: true }));
    assert_eq!(check_self_assignment(sp(0, 20), true, &p, &q), None);
}

#[test]
fn assignments_in_arguments() {
    let args = vec![
        ArgumentExpr::Other,
        ArgumentExpr::Parenthesized { inner: Box::new(ArgumentExpr::Assignment { span: sp(5, 11), plain: true }) },
        ArgumentExpr::Assignment { span: sp(13, 20), plain: false },
    ];
    assert_eq!(check_assign_in_arguments(&args), vec![(sp(5, 11), true), (sp(13, 20), false)]);
}

#[test]
fn colon_form_points_at_the_trailing_branch() {
    let body = vec![TermStatement::Expression(TermExpression::Exit)];
    assert_eq!(check_redundant_colon_else(&body, Some(sp(30, 36)), Some(sp(50, 54))), Some(sp(50, 54)));
    assert_eq!(check_redundant_colon_else(&body, Some(sp(30, 36)), None), Some(sp(30, 36)));
    assert_eq!(check_redundant_colon_else(&body, None, None), None);
    assert_eq!(check_redundant_colon_else(&vec![TermStatement::Other], None, Some(sp(50, 54))), None);
}

#[test]
fn self_assignment_is_symmetric() {
    let a = SelfExpr::Property { object: Box::new(SelfExpr::Variable { name: Some("$o".to_string()) }), property: Some("p".to_string()) };
    let b = SelfExpr::Property { object: Box::new(SelfExpr::Variable { name: Some("$q".to_string()) }), property: Some("p".to_string()) };
    assert_eq!(check_self_assignment(sp(0, 9), true, &a, &b), None);
    assert_eq!(check_self_assignment(sp(0, 9), true, &b, &a), None);
}
