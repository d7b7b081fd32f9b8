//! PHPUnit assertions that can be made stricter or more specific.
use vstd::prelude::*;

use crate::edit::{edit, edits_view, Span, TextEdit};
use crate::text::{chars_of, contains_seq, is_prefix, str_contains, str_equals, str_starts_with};

verus! {

/// Whether `c` has the Unicode `Uppercase` property.
pub uninterp spec fn has_uppercase_property(c: char) -> bool;

/// Calls `char::is_uppercase`, which reports whether `c` has the Unicode
/// `Uppercase` property; among ASCII characters those are exactly `A` to `Z`.
/// Nothing more of the Unicode tables is stated.
#[verifier::external_body]
fn char_is_uppercase(c: char) -> (r: bool)
    ensures
        r == has_uppercase_property(c),
        (c as u32) < 128 ==> (r <==> ('A' <= c && c <= 'Z')),
{
    c.is_uppercase()
}

/// Whether a method is a PHPUnit test whose assertions are checked: its name
/// starts with `test` and the fifth character is `_` or an uppercase letter.
pub open spec fn spec_is_checked_test_method(name: Seq<char>) -> bool {
    is_prefix("test"@, name) && name.len() > 4 && (name[4] == '_' || has_uppercase_property(name[4]))
}

/// Whether the assertions of the method named `name` are checked.
pub fn is_checked_test_method(name: &str) -> (r: bool)
    ensures
        r == spec_is_checked_test_method(name@),
{
    if !str_starts_with(name, "test") {
        return false;
    }
    let c = chars_of(name);
    if c.len() <= 4 {
        return false;
    }
    let fifth = c[4];
    fifth == '_' || char_is_uppercase(fifth)
}

/// What an argument of an assertion call is, as far as the rules read it.
#[derive(Clone, Copy, PartialEq, Eq, Debug)]
pub enum ArgumentValue {
    NullLiteral,
    TrueLiteral,
    FalseLiteral,
    IntegerLiteral,
    FloatLiteral,
    StringLiteral,
    /// An interpolated string, heredoc or other composite string.
    CompositeString,
    /// Anything that is not a literal.
    Other,
}

// ---------------------------------------------------------------------------
// Strict assertions
// ---------------------------------------------------------------------------

/// The non-strict assertions and the strict assertion that replaces each: the
/// name with its first `Equals` replaced by `Same`.
pub open spec fn spec_strict_assertion_name(name: Seq<char>) -> Option<Seq<char>> {
    if name == "assertAttributeEquals"@ {
        Some("assertAttributeSame"@)
    } else if name == "assertAttributeNotEquals"@ {
        Some("assertAttributeNotSame"@)
    } else if name == "assertEquals"@ {
        Some("assertSame"@)
    } else if name == "assertNotEquals"@ {
        Some("assertNotSame"@)
    } else {
        None
    }
}

/// The strict assertion that replaces the non-strict assertion `name`, or
/// `None` when `name` is not one of them.
pub fn strict_assertion_name(name: &str) -> (r: Option<&'static str>)
    ensures
        match spec_strict_assertion_name(name@) {
            Some(strict) => r matches Some(s) && s@ == strict,
            None => r is None,
        },
{
    if str_equals(name, "assertAttributeEquals") {
        Some("assertAttributeSame")
    } else if str_equals(name, "assertAttributeNotEquals") {
        Some("assertAttributeNotSame")
    } else if str_equals(name, "assertEquals") {
        Some("assertSame")
    } else if str_equals(name, "assertNotEquals") {
        Some("assertNotSame")
    } else {
        None
    }
}

/// Whether a value is a scalar literal other than `null` and the booleans.
pub open spec fn is_non_bool_or_null_scalar(v: ArgumentValue) -> bool {
    v is IntegerLiteral || v is FloatLiteral || v is StringLiteral || v is CompositeString
}

/// Whether a call of the non-strict assertion `name` with these arguments is
/// reported: for the attribute assertions when the second argument is a
/// scalar literal, for the others when the first or the second is.
pub open spec fn spec_should_use_strict_assertion(name: Seq<char>, arguments: Seq<ArgumentValue>) -> bool {
    if name == "assertAttributeEquals"@ || name == "assertAttributeNotEquals"@ {
        arguments.len() > 1 && is_non_bool_or_null_scalar(arguments[1])
    } else {
        (arguments.len() > 0 && is_non_bool_or_null_scalar(arguments[0])) || (arguments.len() > 1
            && is_non_bool_or_null_scalar(arguments[1]))
    }
}

fn is_scalar(v: ArgumentValue) -> (r: bool)
    ensures
        r == is_non_bool_or_null_scalar(v),
{
    match v {
        ArgumentValue::IntegerLiteral | ArgumentValue::FloatLiteral | ArgumentValue::StringLiteral
        | ArgumentValue::CompositeString => true,
        _ => false,
    }
}

/// Whether a call of the non-strict assertion `name` is reported.
pub fn should_use_strict_assertion(name: &str, arguments: &Vec<ArgumentValue>) -> (r: bool)
    ensures
        r == spec_should_use_strict_assertion(name@, arguments@),
{
    let is_attribute_assertion = str_equals(name, "assertAttributeEquals") || str_equals(
        name,
        "assertAttributeNotEquals",
    );
    if is_attribute_assertion {
        arguments.len() > 1 && is_scalar(arguments[1])
    } else {
        (arguments.len() > 0 && is_scalar(arguments[0])) || (arguments.len() > 1 && is_scalar(
            arguments[1],
        ))
    }
}

// ---------------------------------------------------------------------------
// Specific assertions
// ---------------------------------------------------------------------------

/// Which argument of the assertion is the literal that the specific
/// assertion makes redundant.
#[derive(Clone, Copy, PartialEq, Eq, Debug)]
pub enum LiteralPosition {
    First,
    Second,
}

/// The generic assertions that can be replaced by a specific one.
pub open spec fn spec_is_generic_assertion(name: Seq<char>) -> bool {
    name == "assertEquals"@ || name == "assertNotEquals"@ || name == "assertSame"@ || name
        == "assertNotSame"@
}

/// Whether `name` is one of the generic assertions.
pub fn is_generic_assertion(name: &str) -> (r: bool)
    ensures
        r == spec_is_generic_assertion(name@),
{
    str_equals(name, "assertEquals") || str_equals(name, "assertNotEquals") || str_equals(
        name,
        "assertSame",
    ) || str_equals(name, "assertNotSame")
}

/// Whether replacing the generic assertion `name` changes the comparison
/// from non-strict to strict (so that the fix is only potentially safe).
pub fn is_equality_assertion(name: &str) -> (r: bool)
    ensures
        r == (name@ == "assertEquals"@ || name@ == "assertNotEquals"@),
{
    str_equals(name, "assertEquals") || str_equals(name, "assertNotEquals")
}

/// The specific assertion for one literal argument, if it has one: `null`
/// gives `assertNull` (`assertNotNull` for a negated assertion), `true` and
/// `false` give `assertTrue` and `assertFalse` unless negated.
pub open spec fn specific_for_literal(v: ArgumentValue, negated: bool) -> Option<Seq<char>> {
    match v {
        ArgumentValue::NullLiteral => Some(if negated { "assertNotNull"@ } else { "assertNull"@ }),
        ArgumentValue::TrueLiteral => if negated { None } else { Some("assertTrue"@) },
        ArgumentValue::FalseLiteral => if negated { None } else { Some("assertFalse"@) },
        _ => None,
    }
}

/// The specific assertion that replaces the generic assertion `name` called
/// with `first` and `second`, and which of the two is the literal: the first
/// argument is tried before the second. An assertion is negated when its
/// name contains `Not`.
pub open spec fn spec_specific_assertion(name: Seq<char>, first: ArgumentValue, second: ArgumentValue) -> Option<
    (Seq<char>, LiteralPosition),
> {
    let negated = contains_seq(name, "Not"@);
    match specific_for_literal(first, negated) {
        Some(a) => Some((a, LiteralPosition::First)),
        None => match specific_for_literal(second, negated) {
            Some(a) => Some((a, LiteralPosition::Second)),
            None => None,
        },
    }
}

fn literal_specific(v: ArgumentValue, negated: bool) -> (r: Option<&'static str>)
    ensures
        match specific_for_literal(v, negated) {
            Some(a) => r matches Some(s) && s@ == a,
            None => r is None,
        },
{
    match v {
        ArgumentValue::NullLiteral => Some(if negated { "assertNotNull" } else { "assertNull" }),
        ArgumentValue::TrueLiteral => if negated { None } else { Some("assertTrue") },
        ArgumentValue::FalseLiteral => if negated { None } else { Some("assertFalse") },
        _ => None,
    }
}

/// Returns the specific assertion name and the position of the literal argument.
pub fn get_specific_assertion(assertion_name: &str, first_arg: ArgumentValue, second_arg: ArgumentValue) -> (r:
    Option<(&'static str, LiteralPosition)>)
    ensures
        match spec_specific_assertion(assertion_name@, first_arg, second_arg) {
            Some((a, p)) => r matches Some((s, q)) && s@ == a && q == p,
            None => r is None,
        },
{
    let is_not_assertion = str_contains(assertion_name, "Not");
    match literal_specific(first_arg, is_not_assertion) {
        Some(a) => Some((a, LiteralPosition::First)),
        None => match literal_specific(second_arg, is_not_assertion) {
            Some(a) => Some((a, LiteralPosition::Second)),
            None => None,
        },
    }
}

// ---------------------------------------------------------------------------
// Assertion calls in a test method
// ---------------------------------------------------------------------------

/// An argument of an assertion call: what it is and where it is.
#[derive(Clone, Copy, PartialEq, Eq, Debug)]
pub struct AssertionArgument {
    pub value: ArgumentValue,
    pub span: Span,
}

/// An assertion call (`$this->assertX(...)`, `self::assertX(...)`,
/// `static::assertX(...)`) in a test method.
#[derive(PartialEq, Eq, Debug)]
pub struct AssertionCall {
    /// The method selector.
    pub selector: Span,
    /// The selector's name, when it is a plain identifier.
    pub name: Option<String>,
    /// The argument list, parentheses included, when the call has one.
    pub argument_list: Option<Span>,
    pub arguments: Vec<AssertionArgument>,
}

/// A proposed replacement of an assertion: the position of the call among
/// the method's assertion calls, the assertion that replaces it, whether the
/// fix may change what the test checks, and the edits.
#[derive(PartialEq, Eq, Debug)]
pub struct AssertionFix {
    pub call: usize,
    pub replacement: &'static str,
    pub potentially_unsafe: bool,
    pub fix: Vec<TextEdit>,
}

/// The plain values of a fix.
pub open spec fn assertion_fix_view(f: AssertionFix) -> (int, Seq<char>, bool, Seq<(u32, u32, Seq<char>)>) {
    (f.call as int, f.replacement@, f.potentially_unsafe, edits_view(f.fix@))
}

/// The values of the arguments of a call.
pub open spec fn argument_values(args: Seq<AssertionArgument>) -> Seq<ArgumentValue> {
    args.map_values(|a: AssertionArgument| a.value)
}

/// The fix for the call at position `i` under the specific-assertion rule: a
/// generic assertion with at least two arguments, one of which is `null`,
/// `true` or `false`, is renamed to the specific assertion and loses that
/// literal (with the separator next to it). The fix is potentially unsafe
/// when the generic assertion compared non-strictly.
pub open spec fn spec_specific_fix(calls: Seq<AssertionCall>, i: int) -> Option<
    (int, Seq<char>, bool, Seq<(u32, u32, Seq<char>)>),
> {
    let c = calls[i];
    match c.name {
        Some(n) => match c.argument_list {
            Some(al) => if spec_is_generic_assertion(n@) && c.arguments.len() >= 2 {
                let first = c.arguments@[0];
                let second = c.arguments@[1];
                match spec_specific_assertion(n@, first.value, second.value) {
                    Some((a, pos)) => {
                        let rename = edit(c.selector.start, c.selector.end, a);
                        let drop_literal = match pos {
                            LiteralPosition::First => edit(al.start, second.span.start, "("@),
                            LiteralPosition::Second => edit(first.span.end, al.end, ")"@),
                        };
                        Some((i, a, n@ == "assertEquals"@ || n@ == "assertNotEquals"@, seq![rename, drop_literal]))
                    },
                    None => None,
                }
            } else {
                None
            },
            None => None,
        },
        None => None,
    }
}

/// The fix for the call at position `i` under the strict-assertion rule: a
/// non-strict assertion whose checked arguments include a scalar literal is
/// renamed to its strict form; the fix is always potentially unsafe.
pub open spec fn spec_strict_fix(calls: Seq<AssertionCall>, i: int) -> Option<
    (int, Seq<char>, bool, Seq<(u32, u32, Seq<char>)>),
> {
    let c = calls[i];
    match c.name {
        Some(n) => match spec_strict_assertion_name(n@) {
            Some(strict) => if c.argument_list is Some && spec_should_use_strict_assertion(
                n@,
                argument_values(c.arguments@),
            ) {
                Some((i, strict, true, seq![edit(c.selector.start, c.selector.end, strict)]))
            } else {
                None
            },
            None => None,
        },
        None => None,
    }
}

/// The fixes proposed for the first `n` calls, in order, by the
/// specific-assertion rule (`specific`) or the strict-assertion rule.
pub open spec fn spec_assertion_fixes(calls: Seq<AssertionCall>, n: int, specific: bool) -> Seq<
    (int, Seq<char>, bool, Seq<(u32, u32, Seq<char>)>),
>
    decreases n,
{
    if n <= 0 {
        Seq::empty()
    } else {
        let rest = spec_assertion_fixes(calls, n - 1, specific);
        let here = if specific {
            spec_specific_fix(calls, n - 1)
        } else {
            spec_strict_fix(calls, n - 1)
        };
        match here {
            Some(f) => rest.push(f),
            None => rest,
        }
    }
}

/// What a rule proposes for the assertion calls of a method: nothing unless
/// the method is a checked test method.
pub open spec fn spec_method_assertion_fixes(method_name: Seq<char>, calls: Seq<AssertionCall>, specific: bool) -> Seq<
    (int, Seq<char>, bool, Seq<(u32, u32, Seq<char>)>),
> {
    if spec_is_checked_test_method(method_name) {
        spec_assertion_fixes(calls, calls.len() as int, specific)
    } else {
        Seq::empty()
    }
}

/// The fix for one call under the specific-assertion rule.
fn specific_fix(calls: &Vec<AssertionCall>, i: usize) -> (r: Option<AssertionFix>)
    requires
        i < calls.len(),
    ensures
        match r {
            Some(f) => spec_specific_fix(calls@, i as int) == Some(assertion_fix_view(f)),
            None => spec_specific_fix(calls@, i as int) is None,
        },
{
    let c = &calls[i];
    let n = match &c.name {
        Some(n) => n,
        None => return None,
    };
    let al = match c.argument_list {
        Some(al) => al,
        None => return None,
    };
    if !is_generic_assertion(n.as_str()) || c.arguments.len() < 2 {
        return None;
    }
    let first = c.arguments[0];
    let second = c.arguments[1];
    let (a, pos) = match get_specific_assertion(n.as_str(), first.value, second.value) {
        Some(p) => p,
        None => return None,
    };
    let unsafe_fix = is_equality_assertion(n.as_str());
    let mut fix: Vec<TextEdit> = Vec::new();
    fix.push(TextEdit { start: c.selector.start, end: c.selector.end, text: a });
    match pos {
        LiteralPosition::First => fix.push(TextEdit { start: al.start, end: second.span.start, text: "(" }),
        LiteralPosition::Second => fix.push(TextEdit { start: first.span.end, end: al.end, text: ")" }),
    }
    let f = AssertionFix { call: i, replacement: a, potentially_unsafe: unsafe_fix, fix };
    assert(edits_view(f.fix@) =~= spec_specific_fix(calls@, i as int).unwrap().3);
    Some(f)
}

/// The fix for one call under the strict-assertion rule.
fn strict_fix(calls: &Vec<AssertionCall>, i: usize) -> (r: Option<AssertionFix>)
    requires
        i < calls.len(),
    ensures
        match r {
            Some(f) => spec_strict_fix(calls@, i as int) == Some(assertion_fix_view(f)),
            None => spec_strict_fix(calls@, i as int) is None,
        },
{
    let c = &calls[i];
    let n = match &c.name {
        Some(n) => n,
        None => return None,
    };
    let strict = match strict_assertion_name(n.as_str()) {
        Some(s) => s,
        None => return None,
    };
    if c.argument_list.is_none() {
        return None;
    }
    let mut values: Vec<ArgumentValue> = Vec::new();
    let mut k: usize = 0;
    while k < c.arguments.len()
        invariant
            k <= c.arguments.len(),
            values@ == argument_values(c.arguments@).take(k as int),
        decreases c.arguments.len() - k,
    {
        values.push(c.arguments[k].value);
        assert(values@ =~= argument_values(c.arguments@).take(k + 1));
        k += 1;
    }
    assert(values@ =~= argument_values(c.arguments@));
    if !should_use_strict_assertion(n.as_str(), &values) {
        return None;
    }
    let mut fix: Vec<TextEdit> = Vec::new();
    fix.push(TextEdit { start: c.selector.start, end: c.selector.end, text: strict });
    let f = AssertionFix { call: i, replacement: strict, potentially_unsafe: true, fix };
    assert(edits_view(f.fix@) =~= spec_strict_fix(calls@, i as int).unwrap().3);
    Some(f)
}

/// The fixes that a rule proposes for the assertion calls of the method
/// named `method_name`: with `specific`, generic assertions against `null`,
/// `true` or `false` become the specific assertion; without, non-strict
/// assertions against scalar literals become strict.
pub fn check_assertion_calls(method_name: &str, calls: &Vec<AssertionCall>, specific: bool) -> (fixes: Vec<
    AssertionFix,
>)
    ensures
        fixes@.map_values(|f: AssertionFix| assertion_fix_view(f)) == spec_method_assertion_fixes(
            method_name@,
            calls@,
            specific,
        ),
{
    let mut fixes: Vec<AssertionFix> = Vec::new();
    if !is_checked_test_method(method_name) {
        assert(fixes@.map_values(|f: AssertionFix| assertion_fix_view(f)) =~= Seq::empty());
        return fixes;
    }
    let mut i: usize = 0;
    while i < calls.len()
        invariant
            i <= calls.len(),
            fixes@.map_values(|f: AssertionFix| assertion_fix_view(f)) == spec_assertion_fixes(
                calls@,
                i as int,
                specific,
            ),
        decreases calls.len() - i,
    {
        let here = if specific {
            specific_fix(calls, i)
        } else {
            strict_fix(calls, i)
        };
        let ghost before = fixes@;
        if let Some(f) = here {
            fixes.push(f);
            assert(fixes@.map_values(|f: AssertionFix| assertion_fix_view(f)) =~= before.map_values(
                |f: AssertionFix| assertion_fix_view(f),
            ).push(assertion_fix_view(fixes@.last())));
        }
        i += 1;
    }
    fixes
}

/// `assertEquals` and `assertNotEquals` compare loosely with whichever
/// argument holds the literal: a call with at least two arguments is reported
/// exactly when its first or its second argument is an integer, float or
/// string literal (plain or composite), so swapping the two arguments never
/// changes the verdict.
pub proof fn law_equals_reported_on_a_scalar_in_either_argument(name: Seq<char>, arguments: Seq<ArgumentValue>)
    requires
        name == "assertEquals"@ || name == "assertNotEquals"@,
        arguments.len() >= 2,
    ensures
        spec_should_use_strict_assertion(name, arguments) == (arguments[0] is IntegerLiteral
            || arguments[0] is FloatLiteral || arguments[0] is StringLiteral || arguments[0] is CompositeString
            || arguments[1] is IntegerLiteral || arguments[1] is FloatLiteral || arguments[1] is StringLiteral
            || arguments[1] is CompositeString),
        spec_should_use_strict_assertion(name, arguments) == spec_should_use_strict_assertion(
            name,
            seq![arguments[1], arguments[0]] + arguments.skip(2),
        ),
{
    reveal_strlit("assertEquals");
    reveal_strlit("assertNotEquals");
    reveal_strlit("assertAttributeEquals");
    reveal_strlit("assertAttributeNotEquals");
    assert("assertEquals"@.len() != "assertAttributeEquals"@.len());
    assert("assertEquals"@.len() != "assertAttributeNotEquals"@.len());
    assert("assertNotEquals"@.len() != "assertAttributeEquals"@.len());
    assert("assertNotEquals"@.len() != "assertAttributeNotEquals"@.len());
    let swapped = seq![arguments[1], arguments[0]] + arguments.skip(2);
    assert(swapped[0] == arguments[1] && swapped[1] == arguments[0]);
}

/// `assertAttributeEquals` and `assertAttributeNotEquals` take the attribute
/// and its object after the expected value: a call is reported exactly when
/// its second argument is an integer, float or string literal.
pub proof fn law_attribute_equals_reported_on_a_scalar_second_argument(
    name: Seq<char>,
    arguments: Seq<ArgumentValue>,
)
    requires
        name == "assertAttributeEquals"@ || name == "assertAttributeNotEquals"@,
    ensures
        spec_should_use_strict_assertion(name, arguments) == (arguments.len() >= 2 && (arguments[1] is IntegerLiteral
            || arguments[1] is FloatLiteral || arguments[1] is StringLiteral || arguments[1] is CompositeString)),
{
}

/// A non-strict assertion is reported only when a literal is involved: a call
/// none of whose first two arguments is an integer, float or string literal
/// is never reported.
pub proof fn law_no_scalar_no_strict_report(name: Seq<char>, arguments: Seq<ArgumentValue>)
    requires
        forall|k: int|
            0 <= k < 2 && k < arguments.len() ==> !(#[trigger] arguments[k] is IntegerLiteral) && !(
            arguments[k] is FloatLiteral) && !(arguments[k] is StringLiteral) && !(
            arguments[k] is CompositeString),
    ensures
        !spec_should_use_strict_assertion(name, arguments),
{
    if arguments.len() > 0 {
        assert(!(arguments[0] is IntegerLiteral));
    }
    if arguments.len() > 1 {
        assert(!(arguments[1] is IntegerLiteral));
    }
}

/// The strict counterpart of each non-strict assertion: `Equals` becomes
/// `Same`; no other assertion has one.
pub proof fn law_strict_assertion_table(name: Seq<char>)
    ensures
        spec_strict_assertion_name("assertEquals"@) == Some("assertSame"@),
        spec_strict_assertion_name("assertNotEquals"@) == Some("assertNotSame"@),
        spec_strict_assertion_name("assertAttributeEquals"@) == Some("assertAttributeSame"@),
        spec_strict_assertion_name("assertAttributeNotEquals"@) == Some("assertAttributeNotSame"@),
        spec_strict_assertion_name(name) is Some ==> name == "assertEquals"@ || name == "assertNotEquals"@ || name
            == "assertAttributeEquals"@ || name == "assertAttributeNotEquals"@,
{
    reveal_strlit("assertEquals");
    reveal_strlit("assertNotEquals");
    reveal_strlit("assertAttributeEquals");
    reveal_strlit("assertAttributeNotEquals");
    assert("assertEquals"@.len() != "assertAttributeEquals"@.len());
    assert("assertEquals"@.len() != "assertAttributeNotEquals"@.len());
    assert("assertEquals"@.len() != "assertNotEquals"@.len());
    assert("assertNotEquals"@.len() != "assertAttributeEquals"@.len());
    assert("assertNotEquals"@.len() != "assertAttributeNotEquals"@.len());
    assert("assertAttributeEquals"@.len() != "assertAttributeNotEquals"@.len());
}

} // verus!
