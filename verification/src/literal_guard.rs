//! Redundant literal guards: `if ($x === LITERAL) { return LITERAL; }`
//! followed by `return $x;` (or with `else { return $x; }`), where returning
//! the variable would return that literal anyway.
use vstd::prelude::*;

use crate::edit::Span;
use crate::text::{find_next_non_whitespace, next_non_whitespace, str_equals};

verus! {

/// The value of a scalar literal, as far as two literals are compared.
#[derive(PartialEq, Eq, Debug)]
pub enum LiteralValue {
    Null,
    True,
    False,
    /// An integer literal; `None` when its value does not fit in 64 bits.
    Integer { value: Option<u64> },
    /// A float literal, by the bit pattern of its value. A float literal is
    /// never negative nor NaN, so two of them are equal exactly when their bit
    /// patterns are.
    Float { bits: u64 },
    /// A string literal; `None` when its value is not known statically.
    Str { contents: Option<String> },
}

/// An expression, as far as the rule reads it.
#[derive(PartialEq, Eq, Debug)]
pub enum GuardExpr {
    Literal { literal: LiteralValue },
    /// An array, in `[...]` or `array(...)` form.
    Array { elements: Vec<GuardArrayElement> },
    /// A direct variable such as `$x`, by its name with the `$`.
    Variable { name: String },
    Other,
}

/// An element of an array expression.
#[derive(PartialEq, Eq, Debug)]
pub enum GuardArrayElement {
    KeyValue { key: Box<GuardExpr>, value: Box<GuardExpr> },
    Value { value: Box<GuardExpr> },
    /// `...$values`.
    Variadic,
    /// A skipped element, as in `[, $b]`.
    Missing,
}

/// The optional value of a string literal, as characters.
pub open spec fn opt_chars(o: Option<String>) -> Option<Seq<char>> {
    match o {
        Some(s) => Some(s@),
        None => None,
    }
}

/// Whether two literals are the same literal value.
pub open spec fn literal_equiv(a: LiteralValue, b: LiteralValue) -> bool {
    match a {
        LiteralValue::Null => b is Null,
        LiteralValue::True => b is True,
        LiteralValue::False => b is False,
        LiteralValue::Integer { value: x } => match b {
            LiteralValue::Integer { value: y } => x == y,
            _ => false,
        },
        LiteralValue::Float { bits: x } => match b {
            LiteralValue::Float { bits: y } => x == y,
            _ => false,
        },
        LiteralValue::Str { contents: x } => match b {
            LiteralValue::Str { contents: y } => opt_chars(x) == opt_chars(y),
            _ => false,
        },
    }
}

/// Whether an expression is a literal: a scalar literal, or an array whose
/// elements are all literal.
pub open spec fn is_literal(e: GuardExpr) -> bool
    decreases e,
{
    match e {
        GuardExpr::Literal { .. } => true,
        GuardExpr::Array { elements } => elements_literal(elements@),
        _ => false,
    }
}

/// Whether every element of an array is literal.
pub open spec fn elements_literal(els: Seq<GuardArrayElement>) -> bool
    decreases els,
{
    if els.len() == 0 {
        true
    } else {
        elements_literal(els.drop_last()) && element_literal(els.last())
    }
}

/// Whether an array element is literal: its key and value are, and it is
/// not a spread; a skipped element counts as literal.
pub open spec fn element_literal(el: GuardArrayElement) -> bool
    decreases el,
{
    match el {
        GuardArrayElement::KeyValue { key, value } => is_literal(*key) && is_literal(*value),
        GuardArrayElement::Value { value } => is_literal(*value),
        GuardArrayElement::Variadic => false,
        GuardArrayElement::Missing => true,
    }
}

/// Whether two expressions are the same literal: equal scalar literals, or
/// arrays with pairwise equivalent elements.
pub open spec fn expr_equiv(a: GuardExpr, b: GuardExpr) -> bool
    decreases a,
{
    match a {
        GuardExpr::Literal { literal: la } => match b {
            GuardExpr::Literal { literal: lb } => literal_equiv(la, lb),
            _ => false,
        },
        GuardExpr::Array { elements: ea } => match b {
            GuardExpr::Array { elements: eb } => elements_equiv(ea@, eb@),
            _ => false,
        },
        _ => false,
    }
}

/// Whether two element sequences have the same length and pairwise
/// equivalent elements.
pub open spec fn elements_equiv(a: Seq<GuardArrayElement>, b: Seq<GuardArrayElement>) -> bool
    decreases a,
{
    if a.len() != b.len() {
        false
    } else if a.len() == 0 {
        true
    } else {
        elements_equiv(a.drop_last(), b.drop_last()) && element_equiv(a.last(), b.last())
    }
}

/// Whether two array elements are equivalent: both key-value pairs with
/// equivalent keys and values, both values with equivalent values, or both
/// skipped.
pub open spec fn element_equiv(a: GuardArrayElement, b: GuardArrayElement) -> bool
    decreases a,
{
    match a {
        GuardArrayElement::KeyValue { key: ka, value: va } => match b {
            GuardArrayElement::KeyValue { key: kb, value: vb } => expr_equiv(*ka, *kb) && expr_equiv(*va, *vb),
            _ => false,
        },
        GuardArrayElement::Value { value: va } => match b {
            GuardArrayElement::Value { value: vb } => expr_equiv(*va, *vb),
            _ => false,
        },
        GuardArrayElement::Variadic => false,
        GuardArrayElement::Missing => b is Missing,
    }
}

proof fn lemma_elements_literal(els: Seq<GuardArrayElement>)
    ensures
        elements_literal(els) <==> forall|k: int| 0 <= k < els.len() ==> element_literal(#[trigger] els[k]),
    decreases els.len(),
{
    if els.len() > 0 {
        lemma_elements_literal(els.drop_last());
        if elements_literal(els) {
            assert forall|k: int| 0 <= k < els.len() implies element_literal(#[trigger] els[k]) by {
                if k < els.len() - 1 {
                    assert(els.drop_last()[k] == els[k]);
                }
            }
        }
        if forall|k: int| 0 <= k < els.len() ==> element_literal(#[trigger] els[k]) {
            assert forall|k: int| 0 <= k < els.drop_last().len() implies element_literal(
                #[trigger] els.drop_last()[k],
            ) by {
                assert(els.drop_last()[k] == els[k]);
            }
        }
    }
}

proof fn lemma_elements_equiv(a: Seq<GuardArrayElement>, b: Seq<GuardArrayElement>)
    ensures
        elements_equiv(a, b) <==> (a.len() == b.len() && forall|k: int|
            0 <= k < a.len() ==> element_equiv(#[trigger] a[k], b[k])),
    decreases a.len(),
{
    if a.len() == b.len() && a.len() > 0 {
        lemma_elements_equiv(a.drop_last(), b.drop_last());
        if elements_equiv(a, b) {
            assert forall|k: int| 0 <= k < a.len() implies element_equiv(#[trigger] a[k], b[k]) by {
                if k < a.len() - 1 {
                    assert(a.drop_last()[k] == a[k]);
                    assert(b.drop_last()[k] == b[k]);
                }
            }
        }
        if forall|k: int| 0 <= k < a.len() ==> element_equiv(#[trigger] a[k], b[k]) {
            assert forall|k: int| 0 <= k < a.drop_last().len() implies element_equiv(
                #[trigger] a.drop_last()[k],
                b.drop_last()[k],
            ) by {
                assert(a.drop_last()[k] == a[k]);
                assert(b.drop_last()[k] == b[k]);
            }
        }
    }
}

proof fn lemma_literal_reflexive(e: GuardExpr)
    requires
        is_literal(e),
    ensures
        expr_equiv(e, e),
    decreases e, 1int,
{
    if let GuardExpr::Array { elements } = e {
        lemma_elements_reflexive(elements@);
    }
}

proof fn lemma_elements_reflexive(els: Seq<GuardArrayElement>)
    requires
        elements_literal(els),
    ensures
        elements_equiv(els, els),
    decreases els, 0int,
{
    if els.len() > 0 {
        lemma_elements_reflexive(els.drop_last());
        lemma_element_reflexive(els.last());
    }
}

proof fn lemma_element_reflexive(el: GuardArrayElement)
    requires
        element_literal(el),
    ensures
        element_equiv(el, el),
    decreases el, 0int,
{
    match el {
        GuardArrayElement::KeyValue { key, value } => {
            lemma_literal_reflexive(*key);
            lemma_literal_reflexive(*value);
        },
        GuardArrayElement::Value { value } => lemma_literal_reflexive(*value),
        _ => {},
    }
}

/// A guard that returns the very literal it compares with is recognised:
/// every literal expression is equivalent to itself.
pub proof fn law_literal_equivalent_to_itself(e: GuardExpr)
    requires
        is_literal(e),
    ensures
        expr_equiv(e, e),
{
    lemma_literal_reflexive(e);
}

/// Whether two optional string values are equal.
fn opt_strings_equal(a: &Option<String>, b: &Option<String>) -> (r: bool)
    ensures
        r == (opt_chars(*a) == opt_chars(*b)),
{
    match a {
        Some(x) => match b {
            Some(y) => str_equals(x.as_str(), y.as_str()),
            None => false,
        },
        None => b.is_none(),
    }
}

/// Whether two literals are the same literal value.
pub fn literals_are_equivalent(a: &LiteralValue, b: &LiteralValue) -> (r: bool)
    ensures
        r == literal_equiv(*a, *b),
{
    match a {
        LiteralValue::Null => matches!(b, LiteralValue::Null),
        LiteralValue::True => matches!(b, LiteralValue::True),
        LiteralValue::False => matches!(b, LiteralValue::False),
        LiteralValue::Integer { value: x } => match b {
            LiteralValue::Integer { value: y } => match x {
                Some(vx) => match y {
                    Some(vy) => *vx == *vy,
                    None => false,
                },
                None => y.is_none(),
            },
            _ => false,
        },
        LiteralValue::Float { bits: x } => match b {
            LiteralValue::Float { bits: y } => *x == *y,
            _ => false,
        },
        LiteralValue::Str { contents: x } => match b {
            LiteralValue::Str { contents: y } => opt_strings_equal(x, y),
            _ => false,
        },
    }
}

/// Whether an expression is a literal.
pub fn expr_is_literal(e: &GuardExpr) -> (r: bool)
    ensures
        r == is_literal(*e),
    decreases e,
{
    match e {
        GuardExpr::Literal { .. } => true,
        GuardExpr::Array { elements } => elements_are_literal(elements),
        _ => false,
    }
}

/// Whether every element of an array is literal.
fn elements_are_literal(els: &Vec<GuardArrayElement>) -> (r: bool)
    ensures
        r == elements_literal(els@),
    decreases els,
{
    proof {
        lemma_elements_literal(els@);
    }
    let mut k: usize = 0;
    while k < els.len()
        invariant
            k <= els.len(),
            forall|m: int| 0 <= m < k ==> element_literal(#[trigger] els@[m]),
        decreases els.len() - k,
    {
        if !element_is_literal(&els[k]) {
            proof {
                lemma_elements_literal(els@);
            }
            assert(!element_literal(els@[k as int]));
            return false;
        }
        k += 1;
    }
    true
}

/// Whether an array element is literal.
fn element_is_literal(el: &GuardArrayElement) -> (r: bool)
    ensures
        r == element_literal(*el),
    decreases el,
{
    match el {
        GuardArrayElement::KeyValue { key, value } => expr_is_literal(key) && expr_is_literal(value),
        GuardArrayElement::Value { value } => expr_is_literal(value),
        GuardArrayElement::Variadic => false,
        GuardArrayElement::Missing => true,
    }
}

/// Whether two expressions are the same literal.
pub fn expressions_are_equivalent(a: &GuardExpr, b: &GuardExpr) -> (r: bool)
    ensures
        r == expr_equiv(*a, *b),
    decreases a,
{
    match a {
        GuardExpr::Literal { literal: la } => match b {
            GuardExpr::Literal { literal: lb } => literals_are_equivalent(la, lb),
            _ => false,
        },
        GuardExpr::Array { elements: ea } => match b {
            GuardExpr::Array { elements: eb } => arrays_are_equivalent(ea, eb),
            _ => false,
        },
        _ => false,
    }
}

/// Whether two arrays have pairwise equivalent elements.
fn arrays_are_equivalent(a: &Vec<GuardArrayElement>, b: &Vec<GuardArrayElement>) -> (r: bool)
    ensures
        r == elements_equiv(a@, b@),
    decreases a,
{
    proof {
        lemma_elements_equiv(a@, b@);
    }
    if a.len() != b.len() {
        return false;
    }
    let mut k: usize = 0;
    while k < a.len()
        invariant
            a.len() == b.len(),
            k <= a.len(),
            forall|m: int| 0 <= m < k ==> element_equiv(#[trigger] a@[m], b@[m]),
        decreases a.len() - k,
    {
        if !array_elements_are_equivalent(&a[k], &b[k]) {
            proof {
                lemma_elements_equiv(a@, b@);
            }
            assert(!element_equiv(a@[k as int], b@[k as int]));
            return false;
        }
        k += 1;
    }
    true
}

/// Whether two array elements are equivalent.
fn array_elements_are_equivalent(a: &GuardArrayElement, b: &GuardArrayElement) -> (r: bool)
    ensures
        r == element_equiv(*a, *b),
    decreases a,
{
    match a {
        GuardArrayElement::KeyValue { key: ka, value: va } => match b {
            GuardArrayElement::KeyValue { key: kb, value: vb } => expressions_are_equivalent(ka, kb)
                && expressions_are_equivalent(va, vb),
            _ => false,
        },
        GuardArrayElement::Value { value: va } => match b {
            GuardArrayElement::Value { value: vb } => expressions_are_equivalent(va, vb),
            _ => false,
        },
        GuardArrayElement::Variadic => false,
        GuardArrayElement::Missing => matches!(b, GuardArrayElement::Missing),
    }
}


// ---------------------------------------------------------------------------
// Guards in a statement sequence
// ---------------------------------------------------------------------------

/// A condition, as far as the rule reads it.
#[derive(PartialEq, Eq, Debug)]
pub enum GuardCondition {
    /// `lhs === rhs`.
    Identical { lhs: GuardExpr, rhs: GuardExpr },
    Other,
}

/// A statement inside a branch of an `if`.
#[derive(PartialEq, Eq, Debug)]
pub enum BodyStatement {
    Return { value: Option<GuardExpr> },
    Block { statements: Vec<BodyStatement> },
    Other,
}

/// An `elseif` clause: its condition and its statements.
#[derive(PartialEq, Eq, Debug)]
pub struct GuardElseIf {
    pub condition: GuardCondition,
    pub statements: Vec<BodyStatement>,
}

/// An `if` statement: its span, its condition, the statements of its `if`
/// branch (the one body statement, or those of the colon form), its `elseif`
/// clauses and the statements of its `else` clause.
#[derive(PartialEq, Eq, Debug)]
pub struct GuardIf {
    pub span: Span,
    pub condition: GuardCondition,
    pub statements: Vec<BodyStatement>,
    pub else_ifs: Vec<GuardElseIf>,
    pub else_statements: Option<Vec<BodyStatement>>,
}

/// A statement of the sequence the rule walks.
#[derive(PartialEq, Eq, Debug)]
pub enum SequenceStatement {
    If { guard: GuardIf },
    Return { value: Option<GuardExpr> },
    Other,
}

/// The variable and the literal that a condition compares: `$x === LITERAL`
/// or `LITERAL === $x`.
pub open spec fn var_literal(c: GuardCondition) -> Option<(Seq<char>, GuardExpr)> {
    match c {
        GuardCondition::Identical { lhs, rhs } => match lhs {
            GuardExpr::Variable { name } => if is_literal(rhs) {
                Some((name@, rhs))
            } else {
                None
            },
            _ => match rhs {
                GuardExpr::Variable { name } => if is_literal(lhs) {
                    Some((name@, lhs))
                } else {
                    None
                },
                _ => None,
            },
        },
        GuardCondition::Other => None,
    }
}

/// The statements of a branch, with a lone block unwrapped.
pub open spec fn inner_statements(ss: Seq<BodyStatement>) -> Seq<BodyStatement> {
    if ss.len() == 1 && ss[0] is Block {
        ss[0]->statements@
    } else {
        ss
    }
}

/// Whether a branch is only `return <expr>;` with `<expr>` equivalent to
/// `expected`.
pub open spec fn returns_literal(ss: Seq<BodyStatement>, expected: GuardExpr) -> bool {
    ss.len() == 1 && match ss[0] {
        BodyStatement::Return { value: Some(v) } => expr_equiv(expected, v),
        _ => false,
    }
}

/// Whether a branch is only `return $name;`.
pub open spec fn returns_variable(ss: Seq<BodyStatement>, name: Seq<char>) -> bool {
    ss.len() == 1 && match ss[0] {
        BodyStatement::Return { value: Some(GuardExpr::Variable { name: n }) } => n@ == name,
        _ => false,
    }
}

/// Whether an `elseif` clause guards the same variable with a literal and
/// returns that literal.
pub open spec fn else_if_guards(c: GuardElseIf, name: Seq<char>) -> bool {
    match var_literal(c.condition) {
        Some((v, lit)) => v == name && returns_literal(inner_statements(c.statements@), lit),
        None => false,
    }
}

/// The statement after position `i` returns the variable `name`.
pub open spec fn next_returns_variable(ss: Seq<SequenceStatement>, i: int, name: Seq<char>) -> bool {
    i + 1 < ss.len() && match ss[i + 1] {
        SequenceStatement::Return { value: Some(GuardExpr::Variable { name: n }) } => n@ == name,
        _ => false,
    }
}

/// For the statement at position `i`, when it is a redundant literal guard:
/// the guarded variable, and whether the `return` of the variable is its own
/// `else` branch (rather than the statement after it).
pub open spec fn literal_guard_at(ss: Seq<SequenceStatement>, i: int) -> Option<(Seq<char>, bool)> {
    match ss[i] {
        SequenceStatement::If { guard } => match var_literal(guard.condition) {
            Some((name, lit)) => {
                if returns_literal(inner_statements(guard.statements@), lit) && (forall|k: int|
                    0 <= k < guard.else_ifs.len() ==> else_if_guards(#[trigger] guard.else_ifs@[k], name)) {
                    match guard.else_statements {
                        Some(es) => if returns_variable(inner_statements(es@), name) {
                            Some((name, true))
                        } else {
                            None
                        },
                        None => if next_returns_variable(ss, i, name) {
                            Some((name, false))
                        } else {
                            None
                        },
                    }
                } else {
                    None
                }
            },
            None => None,
        },
        _ => None,
    }
}

/// A redundant literal guard: the `if` statement, the guarded variable, and
/// the fix, which replaces `start..end` with `replacement`.
#[derive(PartialEq, Eq, Debug)]
pub struct LiteralGuardReport {
    pub span: Span,
    pub variable: String,
    pub start: u32,
    pub end: u32,
    pub replacement: String,
}

/// The plain values of a report.
pub open spec fn report_view(r: LiteralGuardReport) -> (Span, Seq<char>, (u32, u32, Seq<char>)) {
    (r.span, r.variable@, (r.start, r.end, r.replacement@))
}

/// The report for the statement at position `i`: with an `else`, the whole
/// `if` becomes `return $x;`; without, the `if` is deleted together with the
/// whitespace that follows it.
pub open spec fn spec_report_at(ss: Seq<SequenceStatement>, i: int, source: Seq<u8>) -> Option<
    (Span, Seq<char>, (u32, u32, Seq<char>)),
> {
    match literal_guard_at(ss, i) {
        Some((name, with_else)) => {
            let span = ss[i]->guard.span;
            if with_else {
                Some((span, name, (span.start, span.end, "return "@ + name + ";"@)))
            } else {
                Some((span, name, (span.start, next_non_whitespace(source, span.end as int) as u32, Seq::empty())))
            }
        },
        None => None,
    }
}

/// The reports for the first `n` statements, in order.
pub open spec fn spec_reports(ss: Seq<SequenceStatement>, n: int, source: Seq<u8>) -> Seq<
    (Span, Seq<char>, (u32, u32, Seq<char>)),
>
    decreases n,
{
    if n <= 0 {
        Seq::empty()
    } else {
        let rest = spec_reports(ss, n - 1, source);
        match spec_report_at(ss, n - 1, source) {
            Some(r) => rest.push(r),
            None => rest,
        }
    }
}

/// The variable and literal that a condition compares.
fn extract_var_literal(c: &GuardCondition) -> (r: Option<(&String, &GuardExpr)>)
    ensures
        match r {
            Some((n, l)) => var_literal(*c) == Some((n@, *l)),
            None => var_literal(*c) is None,
        },
{
    match c {
        GuardCondition::Identical { lhs, rhs } => match lhs {
            GuardExpr::Variable { name } => if expr_is_literal(rhs) {
                Some((name, rhs))
            } else {
                None
            },
            _ => match rhs {
                GuardExpr::Variable { name } => if expr_is_literal(lhs) {
                    Some((name, lhs))
                } else {
                    None
                },
                _ => None,
            },
        },
        GuardCondition::Other => None,
    }
}

/// The statements of a branch, with a lone block unwrapped.
fn get_inner_statements(ss: &Vec<BodyStatement>) -> (r: &Vec<BodyStatement>)
    ensures
        r@ == inner_statements(ss@),
{
    if ss.len() == 1 {
        if let BodyStatement::Block { statements } = &ss[0] {
            return statements;
        }
    }
    ss
}

/// Whether a branch is only `return <expr>;` with `<expr>` equivalent to
/// `expected`.
fn is_return_expression(ss: &Vec<BodyStatement>, expected: &GuardExpr) -> (r: bool)
    ensures
        r == returns_literal(ss@, *expected),
{
    if ss.len() != 1 {
        return false;
    }
    match &ss[0] {
        BodyStatement::Return { value: Some(v) } => expressions_are_equivalent(expected, v),
        _ => false,
    }
}

/// Whether a branch is only `return $name;`.
fn is_return_variable(ss: &Vec<BodyStatement>, name: &String) -> (r: bool)
    ensures
        r == returns_variable(ss@, name@),
{
    if ss.len() != 1 {
        return false;
    }
    match &ss[0] {
        BodyStatement::Return { value: Some(GuardExpr::Variable { name: n }) } => str_equals(n.as_str(), name.as_str()),
        _ => false,
    }
}

/// Whether every `elseif` clause guards `name` with a literal it returns.
fn else_ifs_guard(cs: &Vec<GuardElseIf>, name: &String) -> (r: bool)
    ensures
        r == (forall|k: int| 0 <= k < cs.len() ==> else_if_guards(#[trigger] cs@[k], name@)),
{
    let mut k: usize = 0;
    while k < cs.len()
        invariant
            k <= cs.len(),
            forall|m: int| 0 <= m < k ==> else_if_guards(#[trigger] cs@[m], name@),
        decreases cs.len() - k,
    {
        let ok = match extract_var_literal(&cs[k].condition) {
            Some((v, lit)) => str_equals(v.as_str(), name.as_str()) && is_return_expression(
                get_inner_statements(&cs[k].statements),
                lit,
            ),
            None => false,
        };
        if !ok {
            assert(!else_if_guards(cs@[k as int], name@));
            return false;
        }
        k += 1;
    }
    true
}

/// The report for the statement at position `i`.
fn report_at(ss: &Vec<SequenceStatement>, i: usize, source: &[u8]) -> (r: Option<LiteralGuardReport>)
    requires
        i < ss.len(),
        source@.len() <= u32::MAX,
    ensures
        match r {
            Some(rep) => spec_report_at(ss@, i as int, source@) == Some(report_view(rep)),
            None => spec_report_at(ss@, i as int, source@) is None,
        },
{
    let guard = match &ss[i] {
        SequenceStatement::If { guard } => guard,
        _ => return None,
    };
    let (name, lit) = match extract_var_literal(&guard.condition) {
        Some(p) => p,
        None => return None,
    };
    if !is_return_expression(get_inner_statements(&guard.statements), lit) {
        return None;
    }
    if !else_ifs_guard(&guard.else_ifs, name) {
        return None;
    }
    let span = guard.span;
    match &guard.else_statements {
        Some(es) => {
            if !is_return_variable(get_inner_statements(es), name) {
                return None;
            }
            let mut text = String::from_str("return ");
            text.append(name.as_str());
            text.append(";");
            let variable = name.clone();
            let rep = LiteralGuardReport { span, variable, start: span.start, end: span.end, replacement: text };
            Some(rep)
        },
        None => {
            if i + 1 >= ss.len() {
                return None;
            }
            let next_ok = match &ss[i + 1] {
                SequenceStatement::Return { value: Some(GuardExpr::Variable { name: n }) } => str_equals(
                    n.as_str(),
                    name.as_str(),
                ),
                _ => false,
            };
            if !next_ok {
                return None;
            }
            let end = find_next_non_whitespace(source, span.end);
            let variable = name.clone();
            let rep = LiteralGuardReport { span, variable, start: span.start, end, replacement: String::new() };
            Some(rep)
        },
    }
}

/// Finds the redundant literal guards in a statement sequence (a program,
/// a block, a namespace or the statements of a colon-delimited body), in
/// order. `source` is the whole source file.
pub fn check_literal_guards(ss: &Vec<SequenceStatement>, source: &[u8]) -> (reports: Vec<LiteralGuardReport>)
    requires
        source@.len() <= u32::MAX,
    ensures
        reports@.map_values(|r: LiteralGuardReport| report_view(r)) == spec_reports(ss@, ss.len() as int, source@),
{
    let mut reports: Vec<LiteralGuardReport> = Vec::new();
    let mut i: usize = 0;
    while i < ss.len()
        invariant
            i <= ss.len(),
            source@.len() <= u32::MAX,
            reports@.map_values(|r: LiteralGuardReport| report_view(r)) == spec_reports(ss@, i as int, source@),
        decreases ss.len() - i,
    {
        let ghost before = reports@;
        match report_at(ss, i, source) {
            Some(rep) => {
                reports.push(rep);
                assert(reports@.map_values(|r: LiteralGuardReport| report_view(r)) =~= before.map_values(
                    |r: LiteralGuardReport| report_view(r),
                ).push(report_view(reports@.last())));
            },
            None => {},
        }
        i += 1;
    }
    reports
}

} // verus!
